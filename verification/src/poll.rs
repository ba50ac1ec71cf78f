//! One polling cycle after the other.
//!
//! The watcher itself neither fetches nor sleeps, and it reads no clock. It
//! is told what happened and answers with what is to be done next; the
//! caller does it and comes back with the next event.

use crate::appointment::Appointment;
use crate::diff::{diff, find_newly_available, zips_view};
use crate::location::{field_view, sites_view, Location, Site};
use crate::notify::{notice_for, notify, Notice};
use crate::snapshot::{snapshot_of, Snapshot};
use vstd::prelude::*;

verus! {

/// Seconds to rest between the end of one cycle and the next fetch.
pub const POLL_INTERVAL_SECS: u64 = 60;

/// Where the watcher stands in its cycle.
#[derive(Clone, Copy, Debug, PartialEq, Eq, Structural)]
pub enum Phase {
    /// Between two cycles.
    Idle,
    /// A fetch is under way.
    Polling,
}

/// What happened outside the watcher.
#[derive(Debug)]
pub enum Event {
    /// The program has started, or the rest between two cycles is over.
    Wake,
    /// The fetch came back with a response that could be read.
    Fetched(Vec<Location>),
    /// The fetch failed, or its response could not be read.
    FetchFailed,
}

/// What the caller is to do next.
#[derive(Debug)]
pub enum Action {
    /// Fetch the region's sites, and come back with the outcome.
    Fetch,
    /// Tell of the sites `news`, if there are any, then rest for `seconds`
    /// and come back with a wake. [`Watcher::notice`] makes the notice from
    /// the sites and the time of telling; without news there is nothing to
    /// tell and no time to take.
    Sleep { seconds: u64, news: Option<Vec<Location>> },
    /// The event does not belong to the phase: there is nothing to do.
    Nothing,
}

/// An event by what its response holds.
pub enum EventView {
    Wake,
    Fetched(Seq<Site>),
    FetchFailed,
}

/// An action by what its sites hold.
pub enum ActionView {
    Fetch,
    Sleep { seconds: int, news: Option<Seq<Site>> },
    Nothing,
}

impl View for Event {
    type V = EventView;

    open spec fn view(&self) -> EventView {
        match *self {
            Event::Wake => EventView::Wake,
            Event::Fetched(sites) => EventView::Fetched(sites_view(sites@)),
            Event::FetchFailed => EventView::FetchFailed,
        }
    }
}

impl View for Action {
    type V = ActionView;

    open spec fn view(&self) -> ActionView {
        match *self {
            Action::Fetch => ActionView::Fetch,
            Action::Sleep { seconds, news } => ActionView::Sleep {
                seconds: seconds as int,
                news: match news {
                    Some(sites) => Some(sites_view(sites@)),
                    None => None,
                },
            },
            Action::Nothing => ActionView::Nothing,
        }
    }
}

/// The watcher: its phase, the store of the last response that could be
/// read, and the settings it was started with.
pub struct Watcher {
    pub phase: Phase,
    pub store: Snapshot,
    pub zips: Vec<String>,
    pub from_email: Option<String>,
    pub to_email: Option<String>,
}

/// Whether `event` is one that the phase waits for: a wake between cycles,
/// the outcome of the fetch while one is under way.
pub open spec fn awaited(phase: Phase, event: EventView) -> bool {
    match phase {
        Phase::Idle => event is Wake,
        Phase::Polling => !(event is Wake),
    }
}

/// The phase after `event`: an awaited event moves to the other phase, any
/// other leaves the phase as it is.
pub open spec fn next_phase(phase: Phase, event: EventView) -> Phase {
    if !awaited(phase, event) {
        phase
    } else if phase is Idle {
        Phase::Polling
    } else {
        Phase::Idle
    }
}

/// The store after `event`: the snapshot of the response, if the fetch under
/// way came back with one that could be read; the store as it was otherwise.
pub open spec fn next_store(
    phase: Phase,
    store: Map<u64, Seq<Appointment>>,
    event: EventView,
) -> Map<u64, Seq<Appointment>> {
    match event {
        EventView::Fetched(sites) if phase is Polling => snapshot_of(sites),
        _ => store,
    }
}

/// The sites to tell of: `found`, if it holds any site.
pub open spec fn news_in(found: Seq<Site>) -> Option<Seq<Site>> {
    if found.len() == 0 {
        None
    } else {
        Some(found)
    }
}

/// What is to be done on `event`.
///
/// A wake between cycles starts a fetch. The outcome of a fetch ends the
/// cycle with a rest of sixty seconds; a response that could be read is
/// first compared with the store, and the sites that are new in it are the
/// news, while a failure brings none. An event that is not awaited asks for
/// nothing.
pub open spec fn action_for(
    phase: Phase,
    store: Map<u64, Seq<Appointment>>,
    zips: Seq<Seq<char>>,
    event: EventView,
) -> ActionView {
    match (phase, event) {
        (Phase::Idle, EventView::Wake) => ActionView::Fetch,
        (Phase::Polling, EventView::Fetched(sites)) => ActionView::Sleep {
            seconds: 60,
            news: news_in(diff(sites, store, zips)),
        },
        (Phase::Polling, EventView::FetchFailed) => ActionView::Sleep { seconds: 60, news: None },
        _ => ActionView::Nothing,
    }
}

/// The sites to tell of: `found`, if it holds any site.
pub fn news_of(found: Vec<Location>) -> (news: Option<Vec<Location>>)
    ensures
        match news {
            Some(sites) => news_in(sites_view(found@)) == Some(sites_view(sites@)),
            None => news_in(sites_view(found@)) is None,
        },
{
    if found.len() == 0 {
        None
    } else {
        Some(found)
    }
}

impl Watcher {
    /// The watcher at the start of the program: between cycles, with an
    /// empty store.
    pub fn new(zips: Vec<String>, from_email: Option<String>, to_email: Option<String>) -> (watcher:
        Watcher)
        ensures
            watcher.phase == Phase::Idle,
            watcher.store@ == Map::<u64, Seq<Appointment>>::empty(),
            watcher.zips == zips,
            watcher.from_email == from_email,
            watcher.to_email == to_email,
    {
        Watcher { phase: Phase::Idle, store: Snapshot::new(), zips, from_email, to_email }
    }

    /// Takes `event`, and says what is to be done next.
    pub fn step(&mut self, event: Event) -> (action: Action)
        ensures
            final(self).phase == next_phase(old(self).phase, event@),
            final(self).store@ == next_store(old(self).phase, old(self).store@, event@),
            final(self).zips == old(self).zips,
            final(self).from_email == old(self).from_email,
            final(self).to_email == old(self).to_email,
            action@ == action_for(
                old(self).phase,
                old(self).store@,
                zips_view(old(self).zips@),
                event@,
            ),
    {
        match self.phase {
            Phase::Idle => match event {
                Event::Wake => {
                    self.phase = Phase::Polling;
                    Action::Fetch
                },
                _ => Action::Nothing,
            },
            Phase::Polling => match event {
                Event::Wake => Action::Nothing,
                Event::Fetched(sites) => {
                    let found = find_newly_available(&sites, &self.store, &self.zips);
                    self.store = Snapshot::capture(&sites);
                    self.phase = Phase::Idle;
                    Action::Sleep { seconds: POLL_INTERVAL_SECS, news: news_of(found) }
                },
                Event::FetchFailed => {
                    self.phase = Phase::Idle;
                    Action::Sleep { seconds: POLL_INTERVAL_SECS, news: None }
                },
            },
        }
    }

    /// The notice that tells of the sites `news` at the time that `stamp`
    /// names, by the way that the watcher's settings choose: by mail if both
    /// a sender and a recipient are set, on the console if not.
    pub fn notice(&self, news: &Vec<Location>, stamp: &str) -> (notice: Notice)
        ensures
            notice@ == notice_for(
                sites_view(news@),
                stamp@,
                field_view(self.from_email),
                field_view(self.to_email),
            ),
    {
        notify(news, stamp, &self.from_email, &self.to_email)
    }
}

} // verus!
