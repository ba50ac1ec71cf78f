//! The store of what the last successful poll showed.

use crate::appointment::Appointment;
use crate::location::{copy_slots, sites_view, Location, Site};
use std::collections::HashMap;
use vstd::prelude::*;

verus! {

/// What one poll showed: for each site's identifier, the slots it had open.
pub struct Snapshot {
    pub entries: HashMap<u64, Vec<Appointment>>,
}

impl View for Snapshot {
    type V = Map<u64, Seq<Appointment>>;

    open spec fn view(&self) -> Map<u64, Seq<Appointment>> {
        self.entries@.map_values(|slots: Vec<Appointment>| slots@)
    }
}

/// The snapshot that a poll response amounts to: each site's identifier with
/// the slots of that site, and with no slots where the site gave no list. Of
/// two sites with one identifier the later one counts.
pub open spec fn snapshot_of(sites: Seq<Site>) -> Map<u64, Seq<Appointment>>
    decreases sites.len(),
{
    if sites.len() == 0 {
        Map::empty()
    } else {
        snapshot_of(sites.drop_last()).insert(sites.last().id, sites.last().slots())
    }
}

impl Snapshot {
    /// The store before the first successful poll: no site is known.
    pub fn new() -> (store: Snapshot)
        ensures
            store@ == Map::<u64, Seq<Appointment>>::empty(),
    {
        let store = Snapshot { entries: HashMap::new() };
        assert(store@ =~= Map::<u64, Seq<Appointment>>::empty());
        store
    }

    /// The slots that the store holds for the site `id`, if it knows the site.
    pub fn get(&self, id: u64) -> (known: Option<&Vec<Appointment>>)
        ensures
            known is Some <==> self@.contains_key(id),
            known is Some ==> known.unwrap()@ == self@[id],
    {
        broadcast use vstd::std_specs::hash::group_hash_axioms;

        self.entries.get(&id)
    }

    /// The number of sites that the store knows.
    pub fn len(&self) -> (n: usize)
        ensures
            n == self@.len(),
    {
        broadcast use vstd::std_specs::hash::group_hash_axioms;

        assert(self@.dom() =~= self.entries@.dom());
        self.entries.len()
    }

    /// The snapshot of a whole poll response.
    pub fn capture(sites: &Vec<Location>) -> (store: Snapshot)
        ensures
            store@ == snapshot_of(sites_view(sites@)),
    {
        broadcast use vstd::std_specs::hash::group_hash_axioms;

        let mut entries: HashMap<u64, Vec<Appointment>> = HashMap::new();
        let mut i: usize = 0;
        while i < sites.len()
            invariant
                i <= sites.len(),
                entries@.map_values(|slots: Vec<Appointment>| slots@) == snapshot_of(
                    sites_view(sites@.subrange(0, i as int)),
                ),
            decreases sites.len() - i,
        {
            let site = &sites[i];
            let slots = match &site.appointments {
                Some(list) => copy_slots(list),
                None => Vec::new(),
            };
            proof {
                let before = sites_view(sites@.subrange(0, i as int));
                let after = sites_view(sites@.subrange(0, i + 1));
                assert(after.drop_last() =~= before);
                assert(after.last() == sites@[i as int]@);
                assert(entries@.insert(site.id, slots).map_values(
                    |slots: Vec<Appointment>| slots@,
                ) =~= entries@.map_values(|slots: Vec<Appointment>| slots@).insert(
                    site.id,
                    slots@,
                ));
            }
            entries.insert(site.id, slots);
            i += 1;
        }
        assert(sites@.subrange(0, sites.len() as int) =~= sites@);
        Snapshot { entries }
    }
}

} // verus!
