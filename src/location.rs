//! Two-level opcode addresses and the arithmetic that moves them.
use vstd::prelude::*;

verus! {

/// An address in a circuit: an ACIR opcode, or an instruction inside the
/// Brillig block that an ACIR opcode embeds.
#[derive(Clone, Copy, Debug, PartialEq, Eq, Structural, Hash)]
pub enum OpcodeLocation {
    Acir(usize),
    Brillig { acir_index: usize, brillig_index: usize },
}

/// What the location arithmetic needs to know of one ACIR opcode: whether it
/// embeds a Brillig block, and how many instructions that block holds.
#[derive(Clone, Copy, Debug, PartialEq, Eq, Structural)]
pub enum OpcodeShape {
    Plain,
    Brillig { len: usize },
}

pub open spec fn acir_index_of(l: OpcodeLocation) -> int {
    match l {
        OpcodeLocation::Acir(a) => a as int,
        OpcodeLocation::Brillig { acir_index, .. } => acir_index as int,
    }
}

/// The instruction offset inside the opcode; zero for an ACIR location.
pub open spec fn brillig_index_of(l: OpcodeLocation) -> int {
    match l {
        OpcodeLocation::Acir(_) => 0,
        OpcodeLocation::Brillig { brillig_index, .. } => brillig_index as int,
    }
}

/// Number of atomic steps an opcode counts for.
pub open spec fn size_of(k: OpcodeShape) -> nat {
    match k {
        OpcodeShape::Plain => 1,
        OpcodeShape::Brillig { len } => len as nat,
    }
}

/// Atomic steps taken by the first `i` opcodes.
pub open spec fn prefix(s: Seq<OpcodeShape>, i: int) -> nat
    decreases i,
{
    if i <= 0 || s.len() == 0 {
        0
    } else if i > s.len() {
        prefix(s, s.len() as int)
    } else {
        prefix(s, i - 1) + size_of(s[i - 1])
    }
}

/// The atomic position of a location.
pub open spec fn position(s: Seq<OpcodeShape>, l: OpcodeLocation) -> int {
    prefix(s, acir_index_of(l)) + brillig_index_of(l)
}

/// Every opcode counts for at least one step (no empty Brillig block).
pub open spec fn no_empty_blocks(s: Seq<OpcodeShape>) -> bool {
    forall|i: int| 0 <= i < s.len() ==> size_of(#[trigger] s[i]) >= 1
}

/// A location that exists in the circuit: an ACIR opcode, or an instruction
/// of an opcode that is a Brillig block.
pub open spec fn valid_location(s: Seq<OpcodeShape>, l: OpcodeLocation) -> bool {
    match l {
        OpcodeLocation::Acir(a) => a < s.len(),
        OpcodeLocation::Brillig { acir_index, brillig_index } => acir_index < s.len() && match s[
            acir_index as int
        ] {
            OpcodeShape::Brillig { len } => brillig_index < len,
            OpcodeShape::Plain => false,
        },
    }
}

/// A location in the form that the walk produces: an opcode start is always
/// written as `Acir`.
pub open spec fn canonical(s: Seq<OpcodeShape>, l: OpcodeLocation) -> bool {
    match l {
        OpcodeLocation::Acir(a) => a < s.len(),
        OpcodeLocation::Brillig { acir_index, brillig_index } => acir_index < s.len() && 0
            < brillig_index < size_of(s[acir_index as int]),
    }
}

/// The location `r` steps after the start of opcode `a`, or `None` with the
/// steps left over when the circuit ends first.
pub open spec fn walk_forward(s: Seq<OpcodeShape>, a: int, r: int) -> (Option<OpcodeLocation>, int)
    decreases s.len() - a,
{
    if a >= s.len() || a < 0 {
        (None, r)
    } else if r == 0 {
        (Some(OpcodeLocation::Acir(a as usize)), 0)
    } else if r < size_of(s[a]) {
        (Some(OpcodeLocation::Brillig { acir_index: a as usize, brillig_index: r as usize }), 0)
    } else {
        walk_forward(s, a + 1, r - size_of(s[a]))
    }
}

/// The location `-r` steps before the start of opcode `a` (`r <= 0`), or
/// `None` with the (negative) steps left over when index zero is passed.
pub open spec fn walk_backward(s: Seq<OpcodeShape>, a: int, r: int) -> (Option<OpcodeLocation>, int)
    decreases a,
{
    if r == 0 {
        (Some(OpcodeLocation::Acir(a as usize)), 0)
    } else if a <= 0 {
        (None, r)
    } else if size_of(s[a - 1]) <= -r {
        walk_backward(s, a - 1, r + size_of(s[a - 1]))
    } else {
        (
            Some(
                OpcodeLocation::Brillig {
                    acir_index: (a - 1) as usize,
                    brillig_index: (size_of(s[a - 1]) + r) as usize,
                },
            ),
            0,
        )
    }
}

/// `location` moved by `delta` atomic steps over the opcodes `s`.
pub open spec fn offset_spec(s: Seq<OpcodeShape>, location: Option<OpcodeLocation>, delta: int) -> (
    Option<OpcodeLocation>,
    int,
) {
    if delta == 0 {
        (location, 0)
    } else {
        match location {
            None => (None, delta),
            Some(l) => {
                let a = acir_index_of(l);
                let r = brillig_index_of(l) + delta;
                if !valid_location(s, l) {
                    (None, delta)
                } else if delta > 0 {
                    walk_forward(s, a, r)
                } else if r > 0 {
                    (
                        Some(
                            OpcodeLocation::Brillig {
                                acir_index: a as usize,
                                brillig_index: r as usize,
                            },
                        ),
                        0,
                    )
                } else {
                    walk_backward(s, a, r)
                }
            },
        }
    }
}

proof fn lemma_prefix_step(s: Seq<OpcodeShape>, i: int)
    requires
        0 <= i < s.len(),
    ensures
        prefix(s, i + 1) == prefix(s, i) + size_of(s[i]),
{
}

proof fn lemma_prefix_monotone(s: Seq<OpcodeShape>, i: int, j: int)
    requires
        0 <= i <= j <= s.len(),
    ensures
        prefix(s, i) <= prefix(s, j),
    decreases j - i,
{
    if i < j {
        lemma_prefix_monotone(s, i, j - 1);
        lemma_prefix_step(s, j - 1);
    }
}

proof fn lemma_walk_forward(s: Seq<OpcodeShape>, a: int, r: int)
    requires
        0 <= a <= s.len() <= usize::MAX,
        r >= 0,
    ensures
        walk_forward(s, a, r).0 matches Some(l) ==> canonical(s, l) && position(s, l) == prefix(s, a)
            + r && walk_forward(s, a, r).1 == 0,
        prefix(s, a) + r < prefix(s, s.len() as int) ==> walk_forward(s, a, r).0 is Some,
    decreases s.len() - a,
{
    if a < s.len() && r != 0 && r >= size_of(s[a]) {
        lemma_prefix_step(s, a);
        lemma_walk_forward(s, a + 1, r - size_of(s[a]));
    }
}

proof fn lemma_walk_backward(s: Seq<OpcodeShape>, a: int, r: int)
    requires
        0 <= a < s.len() <= usize::MAX,
        r <= 0,
    ensures
        walk_backward(s, a, r).0 matches Some(l) ==> canonical(s, l) && position(s, l) == prefix(
            s,
            a,
        ) + r && walk_backward(s, a, r).1 == 0,
        prefix(s, a) + r >= 0 ==> walk_backward(s, a, r).0 is Some,
    decreases a,
{
    if r != 0 && a > 0 {
        lemma_prefix_step(s, a - 1);
        if size_of(s[a - 1]) <= -r {
            lemma_walk_backward(s, a - 1, r + size_of(s[a - 1]));
        }
    }
}

proof fn lemma_canonical_below_end(s: Seq<OpcodeShape>, l: OpcodeLocation)
    requires
        no_empty_blocks(s),
        canonical(s, l),
    ensures
        valid_location(s, l),
        0 <= position(s, l),
        position(s, l) < prefix(s, acir_index_of(l) + 1) <= prefix(s, s.len() as int),
{
    let a = acir_index_of(l);
    assert(size_of(s[a]) >= 1);
    lemma_prefix_step(s, a);
    lemma_prefix_monotone(s, a + 1, s.len() as int);
}

proof fn lemma_position_unique(s: Seq<OpcodeShape>, l1: OpcodeLocation, l2: OpcodeLocation)
    requires
        no_empty_blocks(s),
        canonical(s, l1),
        canonical(s, l2),
        position(s, l1) == position(s, l2),
    ensures
        l1 == l2,
{
    let a1 = acir_index_of(l1);
    let a2 = acir_index_of(l2);
    lemma_canonical_below_end(s, l1);
    lemma_canonical_below_end(s, l2);
    if a1 < a2 {
        lemma_prefix_monotone(s, a1 + 1, a2);
    } else if a2 < a1 {
        lemma_prefix_monotone(s, a2 + 1, a1);
    }
}

/// Moving a location by zero steps leaves it where it is, and moving from past
/// the end reports the whole move as left over.
pub proof fn lemma_offset_identities(s: Seq<OpcodeShape>, l: Option<OpcodeLocation>, d: int)
    ensures
        offset_spec(s, l, 0) == (l, 0int),
        offset_spec(s, None, d) == (None::<OpcodeLocation>, d),
{
}

/// Moving a location by `delta` steps and then by `-delta` steps returns to
/// it, whenever the first move stayed inside the circuit.
pub proof fn lemma_offset_round_trip(s: Seq<OpcodeShape>, l: OpcodeLocation, delta: int)
    requires
        s.len() <= usize::MAX,
        no_empty_blocks(s),
        canonical(s, l),
        offset_spec(s, Some(l), delta).0 is Some,
    ensures
        offset_spec(s, offset_spec(s, Some(l), delta).0, -delta) == (Some(l), 0int),
{
    let a = acir_index_of(l);
    let b = brillig_index_of(l);
    let n = s.len() as int;
    lemma_canonical_below_end(s, l);
    if delta == 0 {
        return;
    }
    let l2 = offset_spec(s, Some(l), delta).0.unwrap();
    if delta > 0 {
        lemma_walk_forward(s, a, b + delta);
        lemma_canonical_below_end(s, l2);
        let a2 = acir_index_of(l2);
        let r2 = brillig_index_of(l2) - delta;
        if r2 > 0 {
            let l3 = OpcodeLocation::Brillig { acir_index: a2 as usize, brillig_index: r2 as usize };
            lemma_position_unique(s, l, l3);
        } else {
            lemma_walk_backward(s, a2, r2);
            lemma_position_unique(s, l, walk_backward(s, a2, r2).0.unwrap());
        }
    } else {
        if b + delta <= 0 {
            lemma_walk_backward(s, a, b + delta);
        }
        lemma_canonical_below_end(s, l2);
        let a2 = acir_index_of(l2);
        let r2 = brillig_index_of(l2) - delta;
        lemma_walk_forward(s, a2, r2);
        lemma_position_unique(s, l, walk_forward(s, a2, r2).0.unwrap());
    }
}

/// Number of atomic steps of one opcode.
pub fn opcode_size(k: &OpcodeShape) -> (r: usize)
    ensures
        r == size_of(*k),
{
    match k {
        OpcodeShape::Plain => 1,
        OpcodeShape::Brillig { len } => *len,
    }
}

/// Moves `location` by `offset` atomic steps over the opcodes `shapes`, where
/// a Brillig block of length `L` counts for `L` steps and any other opcode for
/// one. Returns the location reached, or `None` with the steps that lay past
/// either end of the circuit. A location that is not in the circuit gives
/// `None` with the whole move.
pub fn offset_in_layout(shapes: &Vec<OpcodeShape>, location: &Option<OpcodeLocation>, offset: i64) -> (r: (
    Option<OpcodeLocation>,
    i64,
))
    ensures
        (r.0, r.1 as int) == offset_spec(shapes@, *location, offset as int),
{
    if offset == 0 {
        return (*location, 0);
    }
    let loc = match location {
        None => {
            return (None, offset);
        },
        Some(l) => *l,
    };
    let (a0, b0): (usize, usize) = match loc {
        OpcodeLocation::Acir(a) => (a, 0),
        OpcodeLocation::Brillig { acir_index, brillig_index } => (acir_index, brillig_index),
    };
    let n = shapes.len();
    if a0 >= n {
        return (None, offset);
    }
    let valid = match loc {
        OpcodeLocation::Acir(_) => true,
        OpcodeLocation::Brillig { .. } => match shapes[a0] {
            OpcodeShape::Brillig { len } => b0 < len,
            OpcodeShape::Plain => false,
        },
    };
    if !valid {
        return (None, offset);
    }
    let ghost s = shapes@;
    let ghost target = offset_spec(s, *location, offset as int);
    let mut a: usize = a0;
    let mut b: usize = b0;
    if offset > 0 {
        let mut o: u64 = offset as u64;
        while o > 0
            invariant
                a < n,
                n == s.len(),
                s == shapes@,
                target == offset_spec(shapes@, *location, offset as int),
                b == 0 || b < size_of(s[a as int]),
                0 <= o <= offset,
                o > 0 ==> walk_forward(s, a as int, b + o) == target,
                o == 0 ==> target == (
                    if b == 0 {
                        Some(OpcodeLocation::Acir(a))
                    } else {
                        Some(OpcodeLocation::Brillig { acir_index: a, brillig_index: b })
                    },
                    0int,
                ),
            decreases n - a + o,
        {
            let size = opcode_size(&shapes[a]);
            let remaining = size - b;
            if o >= remaining as u64 {
                assert(walk_forward(s, a as int, b + o) == walk_forward(
                    s,
                    a + 1,
                    b + o - size,
                ));
                a = a + 1;
                o = o - remaining as u64;
                b = 0;
                if a >= n {
                    assert(walk_forward(s, a as int, o as int) == (None::<OpcodeLocation>, o as int));
                    return (None, o as i64);
                }
            } else {
                b = b + o as usize;
                o = 0;
            }
        }
        if b > 0 {
            (Some(OpcodeLocation::Brillig { acir_index: a, brillig_index: b }), 0)
        } else {
            (Some(OpcodeLocation::Acir(a)), 0)
        }
    } else {
        // magnitude of a negative offset, which may be 2^63
        let mut o: u64 = (-(offset + 1)) as u64 + 1;
        if b > 0 {
            if b as u64 > o {
                return (
                    Some(OpcodeLocation::Brillig { acir_index: a, brillig_index: b - o as usize }),
                    0,
                );
            }
            o = o - b as u64;
            b = 0;
        }
        while o > 0
            invariant
                a < n,
                n == s.len(),
                s == shapes@,
                target == offset_spec(shapes@, *location, offset as int),
                b == 0,
                0 <= o <= -offset,
                walk_backward(s, a as int, -o) == target,
            decreases a,
        {
            if a == 0 {
                assert(walk_backward(s, 0, -o) == (None::<OpcodeLocation>, -o));
                return (None, -((o - 1) as i64) - 1);
            }
            assert(walk_backward(s, a as int, -o) == (if size_of(s[a - 1]) <= o {
                walk_backward(s, a - 1, -o + size_of(s[a - 1]))
            } else {
                (
                    Some(
                        OpcodeLocation::Brillig {
                            acir_index: (a - 1) as usize,
                            brillig_index: (size_of(s[a - 1]) - o) as usize,
                        },
                    ),
                    0,
                )
            }));
            a = a - 1;
            let size = opcode_size(&shapes[a]);
            if size as u64 <= o {
                o = o - size as u64;
            } else {
                return (
                    Some(
                        OpcodeLocation::Brillig {
                            acir_index: a,
                            brillig_index: size - o as usize,
                        },
                    ),
                    0,
                );
            }
        }
        assert(walk_backward(s, a as int, 0) == (Some(OpcodeLocation::Acir(a)), 0int));
        (Some(OpcodeLocation::Acir(a)), 0)
    }
}

} // verus!
