//! The registry of the entries of a harness tree that carry an identifier, which other
//! entries (symbolic links) refer to.
use vstd::prelude::*;

use crate::path::strings_equal;

verus! {

/// An entry identifier was used twice in a tree.
#[derive(Debug)]
pub enum TreeRegistryError {
    /// The identifier `id` already belongs to another entry.
    DuplicateEntryId { id: String },
}

/// The entries of a tree by their identifiers; no identifier occurs twice.
#[derive(Debug)]
pub struct PreparedEntryRegistry<E> {
    ids: Vec<String>,
    entries: Vec<E>,
}

impl<E> PreparedEntryRegistry<E> {
    /// The identifiers registered so far, in order.
    pub closed spec fn ids_view(&self) -> Seq<Seq<char>> {
        self.ids@.map_values(|id: String| id@)
    }

    /// The entries registered so far, in the order of their identifiers.
    pub closed spec fn entries_view(&self) -> Seq<E> {
        self.entries@
    }

    /// The registry holds one entry per identifier, and no identifier twice.
    pub closed spec fn well_formed(&self) -> bool {
        &&& self.ids@.len() == self.entries@.len()
        &&& forall|i: int, j: int| 0 <= i < j < self.ids@.len() ==> self.ids@[i]@ != self.ids@[j]@
    }

    /// The entry registered under `id`, if any.
    pub open spec fn entry_of(&self, id: Seq<char>) -> Option<E> {
        if exists|i: int| 0 <= i < self.ids_view().len() && self.ids_view()[i] == id {
            Some(self.entries_view()[choose|i: int| 0 <= i < self.ids_view().len() && self.ids_view()[i] == id])
        } else {
            None
        }
    }

    /// An empty registry.
    pub fn new() -> (r: Self)
        ensures
            r.well_formed(),
            r.ids_view() == Seq::<Seq<char>>::empty(),
            r.entries_view() == Seq::<E>::empty(),
    {
        let r = PreparedEntryRegistry { ids: Vec::new(), entries: Vec::new() };
        assert(r.ids_view() =~= Seq::<Seq<char>>::empty());
        r
    }

    /// The position of `id` among the registered identifiers, if it is one of them.
    fn position_of(&self, id: &String) -> (r: Option<usize>)
        ensures
            match r {
                Some(i) => i < self.ids_view().len() && self.ids_view()[i as int] == id@,
                None => forall|i: int| 0 <= i < self.ids_view().len() ==> self.ids_view()[i] != id@,
            },
    {
        let mut i: usize = 0;
        while i < self.ids.len()
            invariant
                i <= self.ids@.len(),
                forall|t: int| 0 <= t < i ==> self.ids_view()[t] != id@,
            decreases self.ids@.len() - i,
        {
            if strings_equal(&self.ids[i], id) {
                return Some(i);
            }
            i = i + 1;
        }
        None
    }

    /// Registers `entry` under `id`. An entry without an identifier is not registered; an
    /// identifier that is registered already is refused, and the registry is left as it was.
    pub fn add_prepared_entry(&mut self, id: Option<String>, entry: E) -> (r: Result<(), TreeRegistryError>)
        requires
            old(self).well_formed(),
        ensures
            final(self).well_formed(),
            match id {
                None => r is Ok && final(self).ids_view() == old(self).ids_view() && final(self).entries_view()
                    == old(self).entries_view(),
                Some(i) => if old(self).ids_view().contains(i@) {
                    &&& r matches Err(TreeRegistryError::DuplicateEntryId { id: d }) && d@ == i@
                    &&& final(self).ids_view() == old(self).ids_view()
                    &&& final(self).entries_view() == old(self).entries_view()
                } else {
                    &&& r is Ok
                    &&& final(self).ids_view() == old(self).ids_view().push(i@)
                    &&& final(self).entries_view() == old(self).entries_view().push(entry)
                },
            },
    {
        match id {
            None => Ok(()),
            Some(i) => match self.position_of(&i) {
                Some(p) => {
                    proof {
                        assert(self.ids_view()[p as int] == i@);
                    }
                    Err(TreeRegistryError::DuplicateEntryId { id: i })
                },
                None => {
                    proof {
                        assert(!self.ids_view().contains(i@));
                    }
                    let ghost old_ids = self.ids@;
                    self.ids.push(i);
                    self.entries.push(entry);
                    proof {
                        assert(self.ids_view() =~= old_ids.map_values(|id: String| id@).push(self.ids@.last()@));
                        assert forall|a: int, b: int| 0 <= a < b < self.ids@.len() implies self.ids@[a]@ != self.ids@[b]@ by {
                            if b == self.ids@.len() - 1 {
                                assert(old_ids.map_values(|id: String| id@)[a] == self.ids@[a]@);
                            } else {
                                assert(self.ids@[a] == old_ids[a] && self.ids@[b] == old_ids[b]);
                            }
                        }
                    }
                    Ok(())
                },
            },
        }
    }

    /// The entry registered under `id`, if any.
    pub fn entry_by_id(&self, id: &str) -> (r: Option<&E>)
        requires
            self.well_formed(),
        ensures
            match r {
                Some(e) => self.entry_of(id@) == Some(*e),
                None => self.entry_of(id@) is None,
            },
    {
        let key = String::from_str(id);
        match self.position_of(&key) {
            Some(p) => {
                proof {
                    let c = choose|i: int| 0 <= i < self.ids_view().len() && self.ids_view()[i] == id@;
                    assert(self.ids@[c]@ == self.ids@[p as int]@);
                    if c != p as int {
                        assert(self.ids@[if c < p { c } else { p as int }]@ != self.ids@[if c < p { p as int } else { c }]@);
                    }
                }
                Some(&self.entries[p])
            },
            None => None,
        }
    }
}

} // verus!
