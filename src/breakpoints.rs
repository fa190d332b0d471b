//! The set of opcode locations at which execution pauses.
use crate::location::OpcodeLocation;
use vstd::prelude::*;

verus! {

/// A set of opcode locations, kept as a list without repeats.
pub struct Breakpoints {
    locations: Vec<OpcodeLocation>,
}

impl View for Breakpoints {
    type V = Set<OpcodeLocation>;

    closed spec fn view(&self) -> Set<OpcodeLocation> {
        self.locations@.to_set()
    }
}

impl Breakpoints {
    pub closed spec fn wf(&self) -> bool {
        self.locations@.no_duplicates()
    }

    pub fn new() -> (r: Breakpoints)
        ensures
            r.wf(),
            r@ == Set::<OpcodeLocation>::empty(),
    {
        let r = Breakpoints { locations: Vec::new() };
        assert(r@ =~= Set::<OpcodeLocation>::empty());
        r
    }

    fn index_of(&self, location: &OpcodeLocation) -> (r: Option<usize>)
        ensures
            r matches Some(i) ==> i < self.locations@.len() && self.locations@[i as int]
                == *location,
            r is None ==> !self.locations@.contains(*location),
    {
        let mut i: usize = 0;
        while i < self.locations.len()
            invariant
                i <= self.locations@.len(),
                forall|j: int| 0 <= j < i ==> self.locations@[j] != *location,
            decreases self.locations@.len() - i,
        {
            if self.locations[i] == *location {
                return Some(i);
            }
            i = i + 1;
        }
        None
    }

    /// Whether execution pauses at `location`.
    pub fn contains(&self, location: &OpcodeLocation) -> (r: bool)
        ensures
            r == self@.contains(*location),
    {
        self.index_of(location).is_some()
    }

    /// Adds `location`; returns whether it was not in the set before.
    pub fn insert(&mut self, location: OpcodeLocation) -> (r: bool)
        requires
            old(self).wf(),
        ensures
            final(self).wf(),
            final(self)@ == old(self)@.insert(location),
            r == !old(self)@.contains(location),
    {
        if self.index_of(&location).is_some() {
            assert(self@ =~= self@.insert(location));
            false
        } else {
            let ghost before = self.locations@;
            self.locations.push(location);
            assert(self.locations@ == before.push(location));
            assert(self@ =~= before.to_set().insert(location)) by {
                assert forall|x: OpcodeLocation| self@.contains(x) == before.to_set().insert(
                    location,
                ).contains(x) by {
                    if self@.contains(x) {
                        let j = choose|j: int| 0 <= j < self.locations@.len() && self.locations@[j] == x;
                        if j < before.len() {
                            assert(before[j] == x);
                        }
                    }
                    if before.contains(x) {
                        let j = choose|j: int| 0 <= j < before.len() && before[j] == x;
                        assert(self.locations@[j] == x);
                    }
                    if x == location {
                        assert(self.locations@[before.len() as int] == x);
                    }
                }
            }
            true
        }
    }

    /// Removes `location`; returns whether it was in the set.
    pub fn remove(&mut self, location: &OpcodeLocation) -> (r: bool)
        requires
            old(self).wf(),
        ensures
            final(self).wf(),
            final(self)@ == old(self)@.remove(*location),
            r == old(self)@.contains(*location),
    {
        match self.index_of(location) {
            None => {
                assert(self@ =~= self@.remove(*location));
                false
            },
            Some(i) => {
                let ghost before = self.locations@;
                self.locations.remove(i);
                assert(self.locations@ == before.remove(i as int));
                assert(self@ =~= before.to_set().remove(*location)) by {
                    assert forall|x: OpcodeLocation| self@.contains(x) == before.to_set().remove(
                        *location,
                    ).contains(x) by {
                        if self@.contains(x) {
                            let j = choose|j: int|
                                0 <= j < self.locations@.len() && self.locations@[j] == x;
                            if j < i {
                                assert(before[j] == x);
                            } else {
                                assert(before[j + 1] == x);
                            }
                        }
                        if before.contains(x) && x != *location {
                            let j = choose|j: int| 0 <= j < before.len() && before[j] == x;
                            if j < i {
                                assert(self.locations@[j] == x);
                            } else {
                                assert(self.locations@[j - 1] == x);
                            }
                        }
                    }
                }
                assert(before.contains(*location)) by {
                    assert(before[i as int] == *location);
                }
                true
            },
        }
    }

    /// Removes every location.
    pub fn clear(&mut self)
        ensures
            final(self).wf(),
            final(self)@ == Set::<OpcodeLocation>::empty(),
    {
        self.locations.clear();
        assert(self@ =~= Set::<OpcodeLocation>::empty());
    }

    /// The locations in the set, each once.
    pub fn to_vec(&self) -> (r: Vec<OpcodeLocation>)
        requires
            self.wf(),
        ensures
            r@.no_duplicates(),
            r@.to_set() == self@,
    {
        self.locations.clone()
    }
}

/// Removing a location after adding it leaves it out of the set, and adding a
/// location twice is the same as adding it once.
pub proof fn lemma_add_then_remove(s: Set<OpcodeLocation>, l: OpcodeLocation)
    ensures
        !s.insert(l).remove(l).contains(l),
        s.insert(l).insert(l) == s.insert(l),
        s.insert(l).contains(l),
{
    assert(s.insert(l).insert(l) =~= s.insert(l));
}

} // verus!
