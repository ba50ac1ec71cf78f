//! Which sites of a fresh poll carry a slot that the store does not show.

use crate::appointment::Appointment;
use crate::location::{field_view, sites_view, Location, Site};
use crate::snapshot::Snapshot;
use vstd::prelude::*;

verus! {

/// Whether `slot` is among `prior`, as the same slot.
pub open spec fn slot_known(prior: Seq<Appointment>, slot: Appointment) -> bool {
    exists|j: int| 0 <= j < prior.len() && (#[trigger] prior[j]).same_slot(slot)
}

/// Whether `current` holds a slot that is not among `prior`.
pub open spec fn has_new_slot(current: Seq<Appointment>, prior: Seq<Appointment>) -> bool {
    exists|i: int| 0 <= i < current.len() && !slot_known(prior, #[trigger] current[i])
}

/// The zip-code list by the characters of each code.
pub open spec fn zips_view(zips: Seq<String>) -> Seq<Seq<char>> {
    zips.map_values(|zip: String| zip@)
}

/// Whether a site with this postal code may be reported under the allowlist
/// `zips`: the site has a postal code, and the list is empty or holds it.
pub open spec fn zip_admits(zips: Seq<Seq<char>>, postal: Option<Seq<char>>) -> bool {
    postal is Some && (zips.len() == 0 || zips.contains(postal.unwrap()))
}

/// Whether `site` is to be reported against the store `previous`.
///
/// The site has a list of slots and passes the allowlist. If the store does
/// not know the site, the list is not empty; if it does, the list holds a
/// slot that the stored list lacks.
pub open spec fn newly_available(
    site: Site,
    previous: Map<u64, Seq<Appointment>>,
    zips: Seq<Seq<char>>,
) -> bool {
    &&& site.appointments is Some
    &&& if previous.contains_key(site.id) {
        has_new_slot(site.slots(), previous[site.id])
    } else {
        site.slots().len() > 0
    }
    &&& zip_admits(zips, site.postal_code)
}

/// The sites of `current` to be reported against `previous`, in their order.
pub open spec fn diff(
    current: Seq<Site>,
    previous: Map<u64, Seq<Appointment>>,
    zips: Seq<Seq<char>>,
) -> Seq<Site> {
    current.filter(|site: Site| newly_available(site, previous, zips))
}

/// Whether `slot` is among `old`.
fn slot_listed(old: &[Appointment], slot: &Appointment) -> (listed: bool)
    ensures
        listed == slot_known(old@, *slot),
{
    let mut j: usize = 0;
    while j < old.len()
        invariant
            j <= old.len(),
            forall|k: int| 0 <= k < j ==> !(#[trigger] old@[k]).same_slot(*slot),
        decreases old.len() - j,
    {
        if old[j].is_same_slot(slot) {
            return true;
        }
        j += 1;
    }
    false
}

/// Whether `new` holds a slot that `old` lacks.
pub fn contains_new_appts(new: &[Appointment], old: &[Appointment]) -> (found: bool)
    ensures
        found == has_new_slot(new@, old@),
{
    let mut i: usize = 0;
    while i < new.len()
        invariant
            i <= new.len(),
            forall|k: int| 0 <= k < i ==> slot_known(old@, #[trigger] new@[k]),
        decreases new.len() - i,
    {
        if !slot_listed(old, &new[i]) {
            return true;
        }
        i += 1;
    }
    false
}

/// Whether the allowlist `zips` lets a site with this postal code be reported.
pub fn zip_considered(zips: &Vec<String>, postal_code: &Option<String>) -> (admitted: bool)
    ensures
        admitted == zip_admits(zips_view(zips@), field_view(*postal_code)),
{
    match postal_code {
        None => false,
        Some(zip) => {
            if zips.len() == 0 {
                return true;
            }
            let mut i: usize = 0;
            while i < zips.len()
                invariant
                    i <= zips.len(),
                    field_view(*postal_code) == Some(zip@),
                    forall|k: int| 0 <= k < i ==> (#[trigger] zips@[k])@ != zip@,
                decreases zips.len() - i,
            {
                if zips[i] == *zip {
                    assert(zips_view(zips@)[i as int] == zip@);
                    assert(zips_view(zips@).contains(zip@));
                    return true;
                }
                i += 1;
            }
            assert forall|k: int| 0 <= k < zips_view(zips@).len() implies zips_view(zips@)[k]
                != zip@ by {
                assert(zips_view(zips@)[k] == zips@[k]@);
            }
            false
        },
    }
}

/// Whether `site` is to be reported against the store `previous` under the
/// allowlist `zips`.
pub fn is_newly_available(site: &Location, previous: &Snapshot, zips: &Vec<String>) -> (reported:
    bool)
    ensures
        reported == newly_available(site@, previous@, zips_view(zips@)),
{
    match &site.appointments {
        None => false,
        Some(appointments) => {
            let fresh = match previous.get(site.id) {
                Some(info) => contains_new_appts(appointments.as_slice(), info.as_slice()),
                None => appointments.len() > 0,
            };
            fresh && zip_considered(zips, &site.postal_code)
        },
    }
}

/// The sites of `current` that are to be reported against the store
/// `previous` under the allowlist `zips`, in the order of `current`.
pub fn find_newly_available(current: &Vec<Location>, previous: &Snapshot, zips: &Vec<String>) -> (found:
    Vec<Location>)
    ensures
        sites_view(found@) == diff(sites_view(current@), previous@, zips_view(zips@)),
{
    let mut found: Vec<Location> = Vec::new();
    let mut i: usize = 0;
    let ghost keep = |site: Site| newly_available(site, previous@, zips_view(zips@));
    proof {
        reveal(Seq::filter);
        assert(sites_view(current@.subrange(0, 0)) =~= Seq::<Site>::empty());
        assert(sites_view(found@) =~= Seq::<Site>::empty());
    }
    while i < current.len()
        invariant
            i <= current.len(),
            keep == |site: Site| newly_available(site, previous@, zips_view(zips@)),
            sites_view(found@) == sites_view(current@.subrange(0, i as int)).filter(keep),
        decreases current.len() - i,
    {
        let site = &current[i];
        proof {
            reveal(Seq::filter);
            let before = sites_view(current@.subrange(0, i as int));
            let after = sites_view(current@.subrange(0, i + 1));
            assert(after.drop_last() =~= before);
            assert(after.last() == site@);
        }
        if is_newly_available(site, previous, zips) {
            let ghost old_found = found@;
            found.push(site.clone());
            assert(sites_view(found@) =~= sites_view(old_found).push(site@));
        }
        i += 1;
    }
    assert(current@.subrange(0, current.len() as int) =~= current@);
    found
}

} // verus!
