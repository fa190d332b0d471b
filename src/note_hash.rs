//! Source of the `compute_note_hash_and_nullifier` function that a contract
//! gets when it does not define one.
use vstd::prelude::*;
use vstd::string::StringExecFns;

verus! {

/// The function of a contract that uses no private notes.
pub const SOURCE_WITHOUT_NOTES: &'static str = "\n        unconstrained fn compute_note_hash_and_nullifier(\n            contract_address: AztecAddress,\n            nonce: Field,\n            storage_slot: Field,\n            note_type_id: Field,\n            serialized_note: [Field; 20]\n        ) -> pub [Field; 4] {\n            assert(false, \"This contract does not use private notes\");\n            [0, 0, 0, 0]\n        }";

pub const SOURCE_HEAD: &'static str = "\n            unconstrained fn compute_note_hash_and_nullifier(\n                contract_address: AztecAddress,\n                nonce: Field,\n                storage_slot: Field,\n                note_type_id: Field,\n                serialized_note: [Field; 20]\n            ) -> pub [Field; 4] {\n                let note_header = dep::aztec::prelude::NoteHeader::new(contract_address, nonce, storage_slot);\n\n                ";

pub const SOURCE_TAIL: &'static str = "\n            }";

pub const UNKNOWN_NOTE_BRANCH: &'static str = "\n            else {\n                assert(false, \"Unknown note type ID\");\n                [0, 0, 0, 0]\n            }";

pub const BRANCH_OPEN: &'static str = "if (note_type_id == ";

pub const BRANCH_MIDDLE: &'static str = "::get_note_type_id()) {\n                dep::aztec::note::utils::compute_note_hash_and_nullifier(";

pub const BRANCH_CLOSE: &'static str = "::deserialize_content, note_header, serialized_note)\n            }";

pub const BRANCH_SEPARATOR: &'static str = " else ";

/// The branch that handles notes of type `t`.
pub open spec fn note_branch(t: Seq<char>) -> Seq<char> {
    BRANCH_OPEN@ + t + BRANCH_MIDDLE@ + t + BRANCH_CLOSE@
}

/// The branches of `types`, in order, joined by ` else `.
pub open spec fn branch_chain(types: Seq<Seq<char>>) -> Seq<char>
    decreases types.len(),
{
    if types.len() == 0 {
        seq![]
    } else if types.len() == 1 {
        note_branch(types[0])
    } else {
        branch_chain(types.drop_last()) + BRANCH_SEPARATOR@ + note_branch(types.last())
    }
}

/// The whole function for a contract whose note types are `types`: a chain of
/// branches on the note type id, ending in a failed assertion.
pub open spec fn note_hash_source(types: Seq<Seq<char>>) -> Seq<char> {
    if types.len() == 0 {
        SOURCE_WITHOUT_NOTES@
    } else {
        SOURCE_HEAD@ + branch_chain(types) + UNKNOWN_NOTE_BRANCH@ + SOURCE_TAIL@
    }
}

pub open spec fn names_of(v: Seq<String>) -> Seq<Seq<char>> {
    v.map_values(|s: String| s@)
}

/// Noir source of `compute_note_hash_and_nullifier` for a contract whose
/// note types are `note_types`. A contract without notes still gets the
/// function, which then always fails.
pub fn generate_compute_note_hash_and_nullifier_source(note_types: &Vec<String>) -> (r: String)
    ensures
        r@ == note_hash_source(names_of(note_types@)),
{
    if note_types.len() == 0 {
        return String::from_str(SOURCE_WITHOUT_NOTES);
    }
    let ghost types = names_of(note_types@);
    let mut out = String::from_str(SOURCE_HEAD);
    let mut i: usize = 0;
    while i < note_types.len()
        invariant
            0 < note_types@.len(),
            i <= note_types@.len(),
            types == names_of(note_types@),
            out@ == SOURCE_HEAD@ + branch_chain(types.subrange(0, i as int)),
        decreases note_types@.len() - i,
    {
        let ghost before = out@;
        let t = note_types[i].as_str();
        if i > 0 {
            out.append(BRANCH_SEPARATOR);
        }
        out.append(BRANCH_OPEN);
        out.append(t);
        out.append(BRANCH_MIDDLE);
        out.append(t);
        out.append(BRANCH_CLOSE);
        let ghost next = types.subrange(0, i + 1);
        assert(next.drop_last() =~= types.subrange(0, i as int));
        assert(next.last() == t@);
        if i == 0 {
            assert(types.subrange(0, 0) =~= Seq::<Seq<char>>::empty());
            assert(out@ =~= SOURCE_HEAD@ + branch_chain(next));
        } else {
            assert(out@ =~= SOURCE_HEAD@ + branch_chain(next));
        }
        i = i + 1;
    }
    assert(types.subrange(0, i as int) =~= types);
    out.append(UNKNOWN_NOTE_BRANCH);
    out.append(SOURCE_TAIL);
    assert(out@ =~= note_hash_source(types));
    out
}

/// What the definition check looks at in a type.
#[derive(Debug)]
pub enum TypeShape {
    Field,
    /// An array whose elements are fields.
    FieldArray,
    /// A struct, by name.
    Struct(String),
    Other,
}

/// The signature of a function of the contract's crate.
#[derive(Debug)]
pub struct FunctionSignature {
    pub name: String,
    pub parameters: Vec<TypeShape>,
    /// `None` where the function declares no return type.
    pub return_type: Option<TypeShape>,
}

pub const NOTE_HASH_FUNCTION: &'static str = "compute_note_hash_and_nullifier";

pub const ADDRESS_STRUCT: &'static str = "AztecAddress";

/// `compute_note_hash_and_nullifier(AztecAddress, Field, Field, Field,
/// [Field; N]) -> [Field; M]`.
pub open spec fn is_note_hash_definition(f: FunctionSignature) -> bool {
    let p = f.parameters@;
    &&& f.name@ == NOTE_HASH_FUNCTION@
    &&& p.len() == 5
    &&& p[0] matches TypeShape::Struct(s) && s@ == ADDRESS_STRUCT@
    &&& p[1] is Field
    &&& p[2] is Field
    &&& p[3] is Field
    &&& p[4] is FieldArray
    &&& f.return_type matches Some(TypeShape::FieldArray)
}

fn same_text(a: &str, b: &str) -> (r: bool)
    ensures
        r == (a@ == b@),
{
    let n = a.unicode_len();
    if n != b.unicode_len() {
        return false;
    }
    let mut i: usize = 0;
    while i < n
        invariant
            n == a@.len() == b@.len(),
            i <= n,
            forall|j: int| 0 <= j < i ==> a@[j] == b@[j],
        decreases n - i,
    {
        if a.get_char(i) != b.get_char(i) {
            return false;
        }
        i = i + 1;
    }
    assert(a@ =~= b@);
    true
}

fn is_note_hash_signature(f: &FunctionSignature) -> (r: bool)
    ensures
        r == is_note_hash_definition(*f),
{
    if !same_text(f.name.as_str(), NOTE_HASH_FUNCTION) || f.parameters.len() != 5 {
        return false;
    }
    let address = match &f.parameters[0] {
        TypeShape::Struct(s) => same_text(s.as_str(), ADDRESS_STRUCT),
        _ => false,
    };
    address && matches!(f.parameters[1], TypeShape::Field) && matches!(
        f.parameters[2],
        TypeShape::Field
    ) && matches!(f.parameters[3], TypeShape::Field) && matches!(
        f.parameters[4],
        TypeShape::FieldArray
    ) && matches!(f.return_type, Some(TypeShape::FieldArray))
}

/// Whether the crate already defines `compute_note_hash_and_nullifier` with
/// the expected signature, in which case none is generated.
pub fn check_for_compute_note_hash_and_nullifier_definition(functions: &Vec<FunctionSignature>) -> (r:
    bool)
    ensures
        r == exists|i: int| 0 <= i < functions@.len() && is_note_hash_definition(#[trigger] functions@[i]),
{
    let mut i: usize = 0;
    while i < functions.len()
        invariant
            i <= functions@.len(),
            forall|j: int| 0 <= j < i ==> !is_note_hash_definition(#[trigger] functions@[j]),
        decreases functions@.len() - i,
    {
        if is_note_hash_signature(&functions[i]) {
            return true;
        }
        i = i + 1;
    }
    false
}

} // verus!
