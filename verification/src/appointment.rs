//! A bookable slot: an instant, and the clock on which it is shown.

use crate::civil::{civil_day, day_number, formatted, local_day_number, local_text};
use crate::schedule::{readings_view, Reading, SlotReading};
use vstd::prelude::*;

verus! {

/// The pattern by which a day's line of a report opens.
pub open spec fn date_pattern() -> Seq<char> {
    "%m/%d/%Y: "@
}

/// The pattern by which a slot's time of day is shown.
pub open spec fn time_pattern() -> Seq<char> {
    "%I:%M%P"@
}

/// Whether a slot at this instant, seen on this clock, can be put on a report:
/// chrono finds its local day, and gives it a date label and a time label.
pub open spec fn showable(seconds: int, nanos: int, offset: int) -> bool {
    &&& local_day_number(seconds, nanos, offset) == Some(civil_day(seconds, offset))
    &&& local_text(seconds, nanos, offset, date_pattern()) is Some
    &&& local_text(seconds, nanos, offset, time_pattern()) is Some
}

/// One bookable slot.
///
/// The slot is an instant (`seconds` and `nanos` after the Unix epoch) together
/// with the offset, in seconds east of UTC, of the clock on which it is shown.
/// Two slots are the same slot when their instants agree; the offset only
/// decides how the slot reads on a report.
#[derive(Clone, Copy, Debug)]
pub struct Appointment {
    seconds: i64,
    nanos: u32,
    offset: i32,
}

impl Appointment {
    #[verifier::type_invariant]
    spec fn well_formed(self) -> bool {
        showable(self.seconds as int, self.nanos as int, self.offset as int)
    }

    /// The instant of the slot: whole seconds and nanoseconds after the Unix epoch.
    pub closed spec fn instant(self) -> (int, int) {
        (self.seconds as int, self.nanos as int)
    }

    /// Seconds by which the slot's clock runs ahead of UTC.
    pub closed spec fn utc_offset(self) -> int {
        self.offset as int
    }

    /// The slot's local calendar day, counted so that 0001-01-01 is day 1.
    pub open spec fn local_day(self) -> int {
        civil_day(self.instant().0, self.utc_offset())
    }

    /// The label of the slot's local date, as a day's line opens with it.
    pub open spec fn date_text(self) -> Seq<char> {
        local_text(self.instant().0, self.instant().1, self.utc_offset(), date_pattern()).unwrap()
    }

    /// The slot's local time of day on a twelve-hour clock.
    pub open spec fn time_text(self) -> Seq<char> {
        local_text(self.instant().0, self.instant().1, self.utc_offset(), time_pattern()).unwrap()
    }

    /// How the slot reads on a report.
    pub open spec fn reading(self) -> Reading {
        Reading { day: self.local_day(), date: self.date_text(), time: self.time_text() }
    }

    /// Whether two slots are the same slot: their instants agree.
    pub open spec fn same_slot(self, other: Appointment) -> bool {
        self.instant() == other.instant()
    }

    /// Makes the slot at `seconds` and `nanos` after the Unix epoch, shown on a
    /// clock `offset` seconds east of UTC. `None` exactly where such a slot
    /// cannot be shown.
    pub fn new(seconds: i64, nanos: u32, offset: i32) -> (slot: Option<Appointment>)
        ensures
            slot is Some <==> showable(seconds as int, nanos as int, offset as int),
            slot is Some ==> slot.unwrap().instant() == (seconds as int, nanos as int)
                && slot.unwrap().utc_offset() == offset as int,
    {
        if day_number(seconds, nanos, offset).is_none() {
            return None;
        }
        if formatted(seconds, nanos, offset, "%m/%d/%Y: ").is_none() {
            return None;
        }
        if formatted(seconds, nanos, offset, "%I:%M%P").is_none() {
            return None;
        }
        Some(Appointment { seconds, nanos, offset })
    }

    /// Whole seconds of the slot's instant after the Unix epoch.
    pub fn seconds(&self) -> (s: i64)
        ensures
            s as int == self.instant().0,
    {
        self.seconds
    }

    /// Nanoseconds of the slot's instant past the whole second.
    pub fn nanos(&self) -> (n: u32)
        ensures
            n as int == self.instant().1,
    {
        self.nanos
    }

    /// Seconds by which the slot's clock runs ahead of UTC.
    pub fn offset(&self) -> (o: i32)
        ensures
            o as int == self.utc_offset(),
    {
        self.offset
    }

    /// Whether `other` is the same slot.
    pub fn is_same_slot(&self, other: &Appointment) -> (same: bool)
        ensures
            same == self.same_slot(*other),
    {
        self.seconds == other.seconds && self.nanos == other.nanos
    }

    /// The slot's local calendar day, counted so that 0001-01-01 is day 1.
    pub fn day(&self) -> (d: i32)
        ensures
            d as int == self.local_day(),
    {
        proof {
            use_type_invariant(self);
        }
        day_number(self.seconds, self.nanos, self.offset).unwrap()
    }

    /// The label of the slot's local date: month, day and year, then a colon.
    pub fn date_label(&self) -> (label: String)
        ensures
            label@ == self.date_text(),
    {
        proof {
            use_type_invariant(self);
        }
        formatted(self.seconds, self.nanos, self.offset, "%m/%d/%Y: ").unwrap()
    }

    /// How the slot reads on a report: its local day, the label of that day
    /// and its time of day.
    pub fn read(&self) -> (reading: SlotReading)
        ensures
            reading@ == self.reading(),
    {
        SlotReading { day: self.day(), date: self.date_label(), time: self.time_label() }
    }

    /// The slot's local time of day: hour and minute, then `am` or `pm`.
    pub fn time_label(&self) -> (label: String)
        ensures
            label@ == self.time_text(),
    {
        proof {
            use_type_invariant(self);
        }
        formatted(self.seconds, self.nanos, self.offset, "%I:%M%P").unwrap()
    }
}

/// How each of `slots` reads on a report.
pub open spec fn readings_of(slots: Seq<Appointment>) -> Seq<Reading> {
    slots.map_values(|slot: Appointment| slot.reading())
}

/// Reads each of `slots` as a report shows it.
pub fn read_slots(slots: &Vec<Appointment>) -> (readings: Vec<SlotReading>)
    ensures
        readings_view(readings@) == readings_of(slots@),
{
    let mut readings: Vec<SlotReading> = Vec::new();
    let mut i: usize = 0;
    assert(readings_view(readings@) =~= readings_of(slots@.subrange(0, 0)));
    while i < slots.len()
        invariant
            i <= slots.len(),
            readings_view(readings@) == readings_of(slots@.subrange(0, i as int)),
        decreases slots.len() - i,
    {
        let ghost shown = readings_view(readings@);
        let reading = slots[i].read();
        readings.push(reading);
        i += 1;
        assert(readings_view(readings@) =~= shown.push(slots@[i - 1].reading()));
        assert(readings_of(slots@.subrange(0, i as int)) =~= shown.push(slots@[i - 1].reading()));
    }
    assert(slots@.subrange(0, slots.len() as int) =~= slots@);
    readings
}

impl PartialEq for Appointment {
    /// Two slots are equal when they are the same slot, on whatever clock
    /// each is shown.
    fn eq(&self, other: &Appointment) -> (same: bool) {
        self.seconds == other.seconds && self.nanos == other.nanos
    }
}

impl vstd::std_specs::cmp::PartialEqSpecImpl for Appointment {
    open spec fn obeys_eq_spec() -> bool {
        true
    }

    open spec fn eq_spec(&self, other: &Appointment) -> bool {
        self.same_slot(*other)
    }
}

} // verus!
