//! Debug symbols: which source locations an opcode location came from.
use crate::location::OpcodeLocation;
use vstd::prelude::*;

verus! {

/// A span of a source file.
#[derive(Clone, Copy, Debug, PartialEq, Eq, Structural, Hash)]
pub struct SourceLocation {
    pub file: usize,
    pub start: u32,
    pub end: u32,
}

/// The debug symbols of a compiled circuit: the source locations of each
/// opcode location, and the path of each file by id.
pub struct DebugArtifact {
    pub locations: Vec<(OpcodeLocation, Vec<SourceLocation>)>,
    pub files: Vec<(usize, String)>,
}

/// A path inside the internal `__debug/` module, whose code the compiler
/// inserts for instrumentation.
pub open spec fn debug_module_path(p: Seq<char>) -> bool {
    p.len() >= 8 && p.subrange(0, 8) == seq!['_', '_', 'd', 'e', 'b', 'u', 'g', '/']
}

/// The path of file `id`; a later entry for the same id wins.
pub open spec fn file_path(files: Seq<(usize, String)>, id: usize) -> Option<Seq<char>>
    decreases files.len(),
{
    if files.len() == 0 {
        None
    } else if files.last().0 == id {
        Some(files.last().1@)
    } else {
        file_path(files.drop_last(), id)
    }
}

pub open spec fn in_debug_module(files: Seq<(usize, String)>, l: SourceLocation) -> bool {
    match file_path(files, l.file) {
        Some(p) => debug_module_path(p),
        None => false,
    }
}

/// The source locations recorded for `l`; a later entry for the same
/// location wins, and an unmapped location has none.
pub open spec fn mapped(entries: Seq<(OpcodeLocation, Vec<SourceLocation>)>, l: OpcodeLocation) -> Seq<
    SourceLocation,
>
    decreases entries.len(),
{
    if entries.len() == 0 {
        seq![]
    } else if entries.last().0 == l {
        entries.last().1@
    } else {
        mapped(entries.drop_last(), l)
    }
}

/// `locs` without the locations that lie in the debug module, in order.
pub open spec fn visible(files: Seq<(usize, String)>, locs: Seq<SourceLocation>) -> Seq<SourceLocation>
    decreases locs.len(),
{
    if locs.len() == 0 {
        seq![]
    } else {
        let rest = visible(files, locs.drop_last());
        if in_debug_module(files, locs.last()) {
            rest
        } else {
            rest.push(locs.last())
        }
    }
}

impl DebugArtifact {
    pub open spec fn source_locations_spec(&self, l: OpcodeLocation) -> Seq<SourceLocation> {
        visible(self.files@, mapped(self.locations@, l))
    }

    /// Whether `location` lies in the internal debug module.
    pub fn is_source_location_in_debug_module(&self, location: &SourceLocation) -> (r: bool)
        ensures
            r == in_debug_module(self.files@, *location),
    {
        let mut i: usize = self.files.len();
        assert(self.files@.subrange(0, i as int) =~= self.files@);
        while i > 0
            invariant
                i <= self.files@.len(),
                file_path(self.files@, location.file) == file_path(
                    self.files@.subrange(0, i as int),
                    location.file,
                ),
            decreases i,
        {
            let ghost prev = self.files@.subrange(0, i as int);
            assert(prev.drop_last() =~= self.files@.subrange(0, i - 1));
            if self.files[i - 1].0 == location.file {
                return is_debug_module_path(self.files[i - 1].1.as_str());
            }
            i = i - 1;
        }
        assert(self.files@.subrange(0, 0) =~= Seq::<(usize, String)>::empty());
        false
    }

    /// The source locations of `opcode_location`, leaving out those in the
    /// internal debug module. Several locations come back where the compiler
    /// inlined calls; none where the opcode is instrumentation.
    pub fn source_locations_for(&self, opcode_location: &OpcodeLocation) -> (r: Vec<SourceLocation>)
        ensures
            r@ == self.source_locations_spec(*opcode_location),
    {
        let mut i: usize = self.locations.len();
        assert(self.locations@.subrange(0, i as int) =~= self.locations@);
        while i > 0
            invariant
                i <= self.locations@.len(),
                mapped(self.locations@, *opcode_location) == mapped(
                    self.locations@.subrange(0, i as int),
                    *opcode_location,
                ),
            decreases i,
        {
            let ghost prev = self.locations@.subrange(0, i as int);
            assert(prev.drop_last() =~= self.locations@.subrange(0, i - 1));
            if self.locations[i - 1].0 == *opcode_location {
                return self.visible_of(&self.locations[i - 1].1);
            }
            i = i - 1;
        }
        assert(self.locations@.subrange(0, 0) =~= Seq::<(OpcodeLocation, Vec<SourceLocation>)>::empty());
        Vec::new()
    }

    fn visible_of(&self, locs: &Vec<SourceLocation>) -> (r: Vec<SourceLocation>)
        ensures
            r@ == visible(self.files@, locs@),
    {
        let mut out: Vec<SourceLocation> = Vec::new();
        let mut i: usize = 0;
        while i < locs.len()
            invariant
                i <= locs@.len(),
                out@ == visible(self.files@, locs@.subrange(0, i as int)),
            decreases locs@.len() - i,
        {
            let ghost next = locs@.subrange(0, i + 1);
            assert(next.drop_last() =~= locs@.subrange(0, i as int));
            if !self.is_source_location_in_debug_module(&locs[i]) {
                out.push(locs[i]);
            }
            i = i + 1;
        }
        assert(locs@.subrange(0, locs@.len() as int) =~= locs@);
        out
    }
}

/// Whether `path` starts with `__debug/`.
pub fn is_debug_module_path(path: &str) -> (r: bool)
    ensures
        r == debug_module_path(path@),
{
    if path.unicode_len() < 8 {
        return false;
    }
    let r = path.get_char(0) == '_' && path.get_char(1) == '_' && path.get_char(2) == 'd'
        && path.get_char(3) == 'e' && path.get_char(4) == 'b' && path.get_char(5) == 'u'
        && path.get_char(6) == 'g' && path.get_char(7) == '/';
    assert(r == (path@.subrange(0, 8) =~= seq!['_', '_', 'd', 'e', 'b', 'u', 'g', '/']));
    r
}

} // verus!
