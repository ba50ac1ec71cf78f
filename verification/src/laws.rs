//! What holds of every poll, proved from the definitions.

use crate::appointment::Appointment;
use crate::diff::{diff, has_new_slot, newly_available, slot_known, zip_admits};
use crate::location::Site;
use crate::notify::{notice_for, NoticeView};
use crate::poll::{action_for, next_phase, next_store, ActionView, EventView, Phase};
use crate::snapshot::snapshot_of;
use vstd::prelude::*;

verus! {

/// Whether no two sites of `sites` share an identifier.
pub open spec fn distinct_ids(sites: Seq<Site>) -> bool {
    forall|i: int, j: int| 0 <= i < j < sites.len() ==> sites[i].id != sites[j].id
}

/// A site is reported exactly if it is in the response and is newly
/// available.
pub proof fn lemma_reported_iff(
    current: Seq<Site>,
    previous: Map<u64, Seq<Appointment>>,
    zips: Seq<Seq<char>>,
    site: Site,
)
    ensures
        diff(current, previous, zips).contains(site) <==> current.contains(site)
            && newly_available(site, previous, zips),
{
    let keep = |site: Site| newly_available(site, previous, zips);
    let found = current.filter(keep);
    if found.contains(site) {
        let i = choose|i: int| 0 <= i < found.len() && found[i] == site;
        current.lemma_filter_pred(keep, i);
        current.lemma_filter_contains_rev(keep, site);
    }
    if current.contains(site) && newly_available(site, previous, zips) {
        let i = choose|i: int| 0 <= i < current.len() && current[i] == site;
        current.lemma_filter_contains(keep, i);
    }
}

/// A site of the response that the store does not know is reported exactly
/// if it has a slot and the allowlist admits its postal code.
pub proof fn lemma_unknown_site_reported_iff_open(
    current: Seq<Site>,
    previous: Map<u64, Seq<Appointment>>,
    zips: Seq<Seq<char>>,
    site: Site,
)
    requires
        current.contains(site),
        !previous.contains_key(site.id),
    ensures
        diff(current, previous, zips).contains(site) <==> site.slots().len() > 0 && zip_admits(
            zips,
            site.postal_code,
        ),
        site.slots().len() == 0 ==> !diff(current, previous, zips).contains(site),
{
    lemma_reported_iff(current, previous, zips, site);
}

/// A site of the response that the store knows, and whose postal code the
/// allowlist admits, is reported exactly if one of its slots is at an
/// instant at which the stored list has no slot.
pub proof fn lemma_known_site_reported_iff_new_slot(
    current: Seq<Site>,
    previous: Map<u64, Seq<Appointment>>,
    zips: Seq<Seq<char>>,
    site: Site,
)
    requires
        current.contains(site),
        previous.contains_key(site.id),
        zip_admits(zips, site.postal_code),
    ensures
        diff(current, previous, zips).contains(site) <==> has_new_slot(
            site.slots(),
            previous[site.id],
        ),
{
    lemma_reported_iff(current, previous, zips, site);
}

/// Under an allowlist that is not empty, a site whose postal code is absent
/// or not on the list is not reported, whatever its slots.
pub proof fn lemma_zip_filter_excludes(
    current: Seq<Site>,
    previous: Map<u64, Seq<Appointment>>,
    zips: Seq<Seq<char>>,
    site: Site,
)
    requires
        zips.len() > 0,
        site.postal_code is None || !zips.contains(site.postal_code.unwrap()),
    ensures
        !newly_available(site, previous, zips),
        !diff(current, previous, zips).contains(site),
{
    lemma_reported_iff(current, previous, zips, site);
}

/// The snapshot of a response knows exactly the identifiers of its sites.
pub proof fn lemma_snapshot_knows_the_sites(sites: Seq<Site>, id: u64)
    ensures
        snapshot_of(sites).contains_key(id) <==> exists|i: int|
            0 <= i < sites.len() && (#[trigger] sites[i]).id == id,
    decreases sites.len(),
{
    if sites.len() > 0 {
        let front = sites.drop_last();
        lemma_snapshot_knows_the_sites(front, id);
        if snapshot_of(sites).contains_key(id) {
            if sites.last().id == id {
                assert(sites[sites.len() - 1].id == id);
            } else {
                let i = choose|i: int| 0 <= i < front.len() && (#[trigger] front[i]).id == id;
                assert(sites[i].id == id);
            }
        }
        if exists|i: int| 0 <= i < sites.len() && (#[trigger] sites[i]).id == id {
            let i = choose|i: int| 0 <= i < sites.len() && (#[trigger] sites[i]).id == id;
            if i < front.len() {
                assert(front[i].id == id);
            }
        }
    }
}

/// The snapshot of a response without repeated identifiers holds, for each
/// of its sites, the slots of that site.
pub proof fn lemma_snapshot_holds_each_site(sites: Seq<Site>, i: int)
    requires
        distinct_ids(sites),
        0 <= i < sites.len(),
    ensures
        snapshot_of(sites).contains_key(sites[i].id),
        snapshot_of(sites)[sites[i].id] == sites[i].slots(),
    decreases sites.len(),
{
    if i < sites.len() - 1 {
        let front = sites.drop_last();
        assert(distinct_ids(front)) by {
            assert forall|a: int, b: int| 0 <= a < b < front.len() implies front[a].id
                != front[b].id by {
                assert(sites[a].id != sites[b].id);
            }
        }
        lemma_snapshot_holds_each_site(front, i);
        assert(front[i] == sites[i]);
        assert(sites[i].id != sites[sites.len() - 1].id);
    }
}

/// Once the store holds the snapshot of a response, the same response shows
/// nothing new: a second diff of it is empty.
///
/// This is stated of responses in which no identifier occurs twice.
pub proof fn lemma_rerun_after_update_is_empty(current: Seq<Site>, zips: Seq<Seq<char>>)
    requires
        distinct_ids(current),
    ensures
        diff(current, snapshot_of(current), zips).len() == 0,
{
    let store = snapshot_of(current);
    let found = diff(current, store, zips);
    if found.len() > 0 {
        let site = found[0];
        assert(found.contains(site));
        lemma_reported_iff(current, store, zips, site);
        let i = choose|i: int| 0 <= i < current.len() && current[i] == site;
        lemma_snapshot_holds_each_site(current, i);
        let slots = site.slots();
        assert forall|k: int| 0 <= k < slots.len() implies slot_known(slots, #[trigger] slots[k]) by {
            assert(slots[k].same_slot(slots[k]));
        }
        assert(!has_new_slot(slots, slots));
        assert(false);
    }
}

/// A second diff of the same response under the same allowlist can be empty
/// where the first was not only if the store has changed in between.
pub proof fn lemma_empty_rerun_needs_update(
    current: Seq<Site>,
    first_store: Map<u64, Seq<Appointment>>,
    second_store: Map<u64, Seq<Appointment>>,
    zips: Seq<Seq<char>>,
)
    requires
        diff(current, first_store, zips).len() > 0,
        diff(current, second_store, zips).len() == 0,
    ensures
        first_store != second_store,
{
}

/// Every cycle ends between cycles: a wake starts the fetch, and whatever
/// the fetch brings, a response or a failure, the watcher is idle again and
/// asks for a rest of sixty seconds. A failure leaves the store as it was
/// and brings no news.
pub proof fn lemma_cycle_ends_idle(
    store: Map<u64, Seq<Appointment>>,
    zips: Seq<Seq<char>>,
    outcome: EventView,
)
    requires
        !(outcome is Wake),
    ensures
        next_phase(Phase::Idle, EventView::Wake) == Phase::Polling,
        action_for(Phase::Idle, store, zips, EventView::Wake) == ActionView::Fetch,
        next_store(Phase::Idle, store, EventView::Wake) == store,
        next_phase(Phase::Polling, outcome) == Phase::Idle,
        action_for(Phase::Polling, store, zips, outcome) is Sleep,
        action_for(Phase::Polling, store, zips, outcome)->seconds == 60,
        outcome is FetchFailed ==> next_store(Phase::Polling, store, outcome) == store
            && action_for(Phase::Polling, store, zips, outcome)->news is None,
{
}

/// When a fetch brings the response that the previous fetch brought, there
/// is no news, whatever the store held before the first of the two.
///
/// This is stated of responses in which no identifier occurs twice.
pub proof fn lemma_same_response_again_is_no_news(
    store: Map<u64, Seq<Appointment>>,
    zips: Seq<Seq<char>>,
    sites: Seq<Site>,
)
    requires
        distinct_ids(sites),
    ensures
        action_for(
            Phase::Polling,
            next_store(Phase::Polling, store, EventView::Fetched(sites)),
            zips,
            EventView::Fetched(sites),
        ) == (ActionView::Sleep { seconds: 60, news: None }),
{
    lemma_rerun_after_update_is_empty(sites, zips);
}

/// No site gives silence: for an empty list the notice is silent at any
/// time and with any addresses.
pub proof fn lemma_nothing_found_is_silent(
    stamp: Seq<char>,
    from: Option<Seq<char>>,
    to: Option<Seq<char>>,
)
    ensures
        notice_for(Seq::<Site>::empty(), stamp, from, to) == NoticeView::Silent,
{
}

} // verus!
