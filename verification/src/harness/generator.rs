//! Collision-free names for the structs of generated harness code.
use vstd::prelude::*;

use super::names::{
    append_decimal, decimal, find_last_record, lemma_usages_after_update, lemma_usages_of_absent,
    lemma_usages_of_last, usages, NameUsage,
};

verus! {

/// Hands out names that were not handed out before: the first request of a name gets the
/// name itself, the `n`-th repeated request gets the name followed by `n`.
#[derive(Debug)]
pub struct NameCollisionAvoider {
    names_with_usages: Vec<NameUsage>,
}

impl NameCollisionAvoider {
    /// How many times each name was asked for.
    pub closed spec fn usages_view(&self) -> Map<Seq<char>, nat> {
        usages(self.names_with_usages@)
    }

    /// An avoider that handed out no name yet.
    pub fn new_empty() -> (r: Self)
        ensures
            r.usages_view() == Map::<Seq<char>, nat>::empty(),
    {
        NameCollisionAvoider { names_with_usages: Vec::new() }
    }

    /// A name based on `preferred_struct_name` that was not handed out before.
    pub fn get_collision_free_name(&mut self, preferred_struct_name: &str) -> (r: String)
        requires
            old(self).usages_view().contains_key(preferred_struct_name@) ==> old(self).usages_view()[preferred_struct_name@]
                < usize::MAX,
        ensures
            old(self).usages_view().contains_key(preferred_struct_name@) ==> {
                let u = old(self).usages_view()[preferred_struct_name@];
                &&& r@ == preferred_struct_name@ + decimal(u)
                &&& final(self).usages_view() == old(self).usages_view().insert(preferred_struct_name@, u + 1)
            },
            !old(self).usages_view().contains_key(preferred_struct_name@) ==> {
                &&& r@ == preferred_struct_name@
                &&& final(self).usages_view() == old(self).usages_view().insert(preferred_struct_name@, 1)
            },
    {
        match find_last_record(&self.names_with_usages, preferred_struct_name) {
            Some(i) => {
                proof {
                    lemma_usages_of_last(self.names_with_usages@, i as int, preferred_struct_name@);
                }
                let used = self.names_with_usages[i].usages;
                let record = NameUsage { name: String::from_str(preferred_struct_name), usages: used + 1 };
                proof {
                    lemma_usages_after_update(self.names_with_usages@, i as int, record);
                }
                self.names_with_usages.set(i, record);
                let mut name = String::from_str(preferred_struct_name);
                append_decimal(&mut name, used);
                name
            },
            None => {
                proof {
                    lemma_usages_of_absent(self.names_with_usages@, preferred_struct_name@);
                }
                self.names_with_usages.push(NameUsage { name: String::from_str(preferred_struct_name), usages: 1 });
                proof {
                    assert(self.names_with_usages@.drop_last() =~= old(self).names_with_usages@);
                }
                String::from_str(preferred_struct_name)
            },
        }
    }
}

} // verus!
