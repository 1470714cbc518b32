//! The set of package names that can be queried.
use vstd::prelude::*;

verus! {

/// Names held without repetition, in the order they arrived.
pub struct AvailableSet {
    names: Vec<String>,
}

impl AvailableSet {
    pub closed spec fn view(&self) -> Set<Seq<char>> {
        self.names.deep_view().to_set()
    }

    /// No name is held twice.
    pub closed spec fn wf(&self) -> bool {
        self.names.deep_view().no_duplicates()
    }

    pub fn new() -> (r: AvailableSet)
        ensures
            r.wf(),
            r.view() == Set::<Seq<char>>::empty(),
    {
        let r = AvailableSet { names: Vec::new() };
        proof {
            assert(r.view() =~= Set::<Seq<char>>::empty());
        }
        r
    }

    fn position(&self, name: &str) -> (r: Option<usize>)
        ensures
            r matches Some(i) ==> i < self.names.len() && self.names.deep_view()[i as int] == name@,
            r is None ==> !self.view().contains(name@),
    {
        let mut i: usize = 0;
        while i < self.names.len()
            invariant
                i <= self.names.len(),
                forall|j: int| 0 <= j < i ==> self.names.deep_view()[j] != name@,
            decreases self.names.len() - i,
        {
            if self.names[i].as_str().to_owned() == name.to_owned() {
                return Some(i);
            }
            i = i + 1;
        }
        proof {
            if self.view().contains(name@) {
                let j = choose|j: int| 0 <= j < self.names.deep_view().len()
                    && self.names.deep_view()[j] == name@;
                assert(self.names.deep_view()[j] == name@);
            }
        }
        None
    }

    /// Whether `name` can be queried.
    pub fn contains(&self, name: &str) -> (r: bool)
        ensures
            r == self.view().contains(name@),
    {
        match self.position(name) {
            Some(i) => {
                proof {
                    assert(self.names.deep_view().to_set().contains(self.names.deep_view()[i as int]));
                }
                true
            },
            None => false,
        }
    }

    /// Makes `name` queryable.
    pub fn insert(&mut self, name: &str)
        requires
            old(self).wf(),
        ensures
            final(self).wf(),
            final(self).view() == old(self).view().insert(name@),
    {
        if !self.contains(name) {
            let ghost before = self.names.deep_view();
            self.names.push(name.to_owned());
            proof {
                assert(self.names.deep_view() =~= before.push(name@));
                before.lemma_push_to_set_commute(name@);
                assert(self.names.deep_view().no_duplicates()) by {
                    assert forall|a: int, b: int|
                        0 <= a < b < self.names.deep_view().len() implies self.names.deep_view()[a]
                        != self.names.deep_view()[b] by {
                        if b == before.len() {
                            assert(before.to_set().contains(before[a]));
                        }
                    }
                }
            }
        } else {
            proof {
                assert(self.view().insert(name@) =~= self.view());
            }
        }
    }

    /// Stops `name` from being queryable.
    pub fn remove(&mut self, name: &str)
        requires
            old(self).wf(),
        ensures
            final(self).wf(),
            final(self).view() == old(self).view().remove(name@),
    {
        match self.position(name) {
            Some(i) => {
                let ghost before = self.names.deep_view();
                self.names.remove(i);
                proof {
                    let after = self.names.deep_view();
                    assert(after =~= before.remove(i as int));
                    assert(after.no_duplicates());
                    assert forall|x: Seq<char>| after.to_set().contains(x) == before.to_set().remove(
                        name@,
                    ).contains(x) by {
                        if after.to_set().contains(x) {
                            let k = choose|k: int| 0 <= k < after.len() && after[k] == x;
                            if k < i {
                                assert(before[k] == x);
                            } else {
                                assert(before[k + 1] == x);
                            }
                        }
                        if before.to_set().remove(name@).contains(x) {
                            let k = choose|k: int| 0 <= k < before.len() && before[k] == x;
                            assert(k != i);
                            if k < i {
                                assert(after[k] == x);
                            } else {
                                assert(after[k - 1] == x);
                            }
                        }
                    }
                    assert(after.to_set() =~= before.to_set().remove(name@));
                }
            },
            None => {
                proof {
                    assert(self.view().remove(name@) =~= self.view());
                }
            },
        }
    }

    /// Replaces the whole set by `names`, as read from the store.
    pub fn refresh(&mut self, names: &Vec<String>)
        requires
            old(self).wf(),
        ensures
            final(self).wf(),
            final(self).view() == names.deep_view().to_set(),
    {
        let mut fresh = AvailableSet::new();
        let mut i: usize = 0;
        while i < names.len()
            invariant
                i <= names.len(),
                fresh.wf(),
                fresh.view() == names.deep_view().take(i as int).to_set(),
            decreases names.len() - i,
        {
            proof {
                names.deep_view().take(i as int).lemma_push_to_set_commute(names.deep_view()[i as int]);
                assert(names.deep_view().take(i as int + 1) =~= names.deep_view().take(i as int).push(
                    names.deep_view()[i as int],
                ));
            }
            fresh.insert(names[i].as_str());
            i = i + 1;
        }
        proof {
            assert(names.deep_view().take(names.len() as int) =~= names.deep_view());
        }
        *self = fresh;
    }

    /// The held names, in the order they arrived.
    pub fn names(&self) -> (r: Vec<String>)
        ensures
            r.deep_view().to_set() == self.view(),
            r.deep_view().no_duplicates() == self.wf(),
    {
        let mut out: Vec<String> = Vec::new();
        let mut i: usize = 0;
        while i < self.names.len()
            invariant
                i <= self.names.len(),
                out.deep_view() == self.names.deep_view().take(i as int),
            decreases self.names.len() - i,
        {
            let ghost before = out.deep_view();
            let item = self.names[i].as_str().to_owned();
            out.push(item);
            proof {
                assert(out.deep_view() =~= before.push(item@));
                assert(item@ == self.names.deep_view()[i as int]);
                assert(out.deep_view() =~= self.names.deep_view().take(i as int + 1));
            }
            i = i + 1;
        }
        proof {
            assert(self.names.deep_view().take(self.names.len() as int) =~= self.names.deep_view());
        }
        out
    }
}

/// Removing a package and adding it back leaves the availability set as adding
/// it would have: a re-added package is available like a freshly added one.
pub proof fn readd_restores_availability(before: Set<Seq<char>>, name: Seq<char>)
    ensures
        before.remove(name).insert(name) == before.insert(name),
{
    assert(before.remove(name).insert(name) =~= before.insert(name));
}

} // verus!
