//! A site's slots laid out by calendar day.

use vstd::prelude::*;

verus! {

/// How one slot reads on a report.
#[derive(Debug)]
pub struct SlotReading {
    /// The slot's local calendar day, counted so that 0001-01-01 is day 1.
    pub day: i32,
    /// The label of that day, as a day's line opens with it.
    pub date: String,
    /// The slot's local time of day.
    pub time: String,
}

/// A slot's reading by the characters of its labels.
pub struct Reading {
    pub day: int,
    pub date: Seq<char>,
    pub time: Seq<char>,
}

impl View for SlotReading {
    type V = Reading;

    open spec fn view(&self) -> Reading {
        Reading { day: self.day as int, date: self.date@, time: self.time@ }
    }
}

/// A list of readings as contracts see it.
pub open spec fn readings_view(readings: Seq<SlotReading>) -> Seq<Reading> {
    readings.map_values(|reading: SlotReading| reading@)
}

/// `days` with `day` put in its place, counted from the far end: behind every
/// greater day, and not at all if it is already met there.
pub open spec fn insert_day(days: Seq<int>, day: int) -> Seq<int>
    decreases days.len(),
{
    if days.len() == 0 {
        seq![day]
    } else if days.last() < day {
        days.push(day)
    } else if days.last() == day {
        days
    } else {
        insert_day(days.drop_last(), day).push(days.last())
    }
}

/// The local days on which `slots` has a slot, each once, earliest first.
pub open spec fn day_list(slots: Seq<Reading>) -> Seq<int>
    decreases slots.len(),
{
    if slots.len() == 0 {
        Seq::empty()
    } else {
        insert_day(day_list(slots.drop_last()), slots.last().day)
    }
}

/// The slots of `slots` that fall on the local day `day`, in their order.
pub open spec fn slots_on(slots: Seq<Reading>, day: int) -> Seq<Reading> {
    slots.filter(|slot: Reading| slot.day == day)
}

/// The times of day of `slots`, in their order.
pub open spec fn time_texts(slots: Seq<Reading>) -> Seq<Seq<char>> {
    slots.map_values(|slot: Reading| slot.time)
}

/// `parts` with a comma and a space between each two.
pub open spec fn comma_joined(parts: Seq<Seq<char>>) -> Seq<char>
    decreases parts.len(),
{
    if parts.len() == 0 {
        Seq::empty()
    } else if parts.len() == 1 {
        parts[0]
    } else {
        comma_joined(parts.drop_last()) + ", "@ + parts.last()
    }
}

/// What a day's line says of the slots `on_day` of one day: the date label of
/// the first, then the times of all of them. Nothing for no slots.
pub open spec fn day_entry(on_day: Seq<Reading>) -> Seq<char> {
    if on_day.len() == 0 {
        Seq::empty()
    } else {
        on_day[0].date + comma_joined(time_texts(on_day))
    }
}

/// The line of the local day `day`: its date label, the times of the slots of
/// `slots` on that day in the order of `slots`, and a line end.
pub open spec fn day_line(slots: Seq<Reading>, day: int) -> Seq<char> {
    day_entry(slots_on(slots, day)) + "\n"@
}

/// The lines of the days `days`, one after the other.
pub open spec fn day_lines(slots: Seq<Reading>, days: Seq<int>) -> Seq<char>
    decreases days.len(),
{
    if days.len() == 0 {
        Seq::empty()
    } else {
        day_lines(slots, days.drop_last()) + day_line(slots, days.last())
    }
}

/// The schedule of `slots`: one line for each day that has a slot, earliest
/// day first.
pub open spec fn schedule_text(slots: Seq<Reading>) -> Seq<char> {
    day_lines(slots, day_list(slots))
}

/// Day numbers as mathematical integers.
pub open spec fn as_ints(days: Seq<i32>) -> Seq<int> {
    days.map_values(|day: i32| day as int)
}

/// Where `insert_day` puts a day: at `k`, if every day from `k` on is greater
/// and the day before `k` is not.
proof fn lemma_insert_day_at(days: Seq<int>, day: int, k: int)
    requires
        0 <= k <= days.len(),
        forall|j: int| k <= j < days.len() ==> days[j] > day,
        k > 0 ==> days[k - 1] <= day,
    ensures
        insert_day(days, day) == if k > 0 && days[k - 1] == day {
            days
        } else {
            days.insert(k, day)
        },
    decreases days.len() - k,
{
    if days.len() == 0 {
        assert(seq![day] =~= days.insert(0, day));
    } else if k == days.len() {
        if days.last() < day {
            assert(days.push(day) =~= days.insert(k, day));
        }
    } else {
        let front = days.drop_last();
        lemma_insert_day_at(front, day, k);
        if k > 0 && days[k - 1] == day {
            assert(front.push(days.last()) =~= days);
        } else {
            assert(front.insert(k, day).push(days.last()) =~= days.insert(k, day));
        }
    }
}

/// Whether `days` rises strictly from each entry to the next.
pub open spec fn strictly_rising(days: Seq<int>) -> bool {
    forall|i: int, j: int| 0 <= i < j < days.len() ==> days[i] < days[j]
}

/// `insert_day` keeps a rising list rising, and adds the day and no other.
proof fn lemma_insert_day_keeps_order(days: Seq<int>, day: int)
    requires
        strictly_rising(days),
    ensures
        strictly_rising(insert_day(days, day)),
        forall|x: int| #[trigger]
            insert_day(days, day).contains(x) <==> days.contains(x) || x == day,
    decreases days.len(),
{
    let put = insert_day(days, day);
    if days.len() == 0 {
        assert(put[0] == day);
    } else if days.last() < day {
        assert(put.last() == day);
        assert forall|x: int| put.contains(x) implies days.contains(x) || x == day by {
            let i = choose|i: int| 0 <= i < put.len() && put[i] == x;
            if i < days.len() {
                assert(days[i] == x);
            }
        }
        assert forall|x: int| days.contains(x) || x == day implies put.contains(x) by {
            if days.contains(x) {
                let i = choose|i: int| 0 <= i < days.len() && days[i] == x;
                assert(put[i] == x);
            } else {
                assert(put[days.len() as int] == x);
            }
        }
    } else if days.last() == day {
        assert(days[days.len() - 1] == day);
    } else {
        let front = days.drop_last();
        let inner = insert_day(front, day);
        lemma_insert_day_keeps_order(front, day);
        assert forall|i: int| 0 <= i < inner.len() implies inner[i] < days.last() by {
            assert(inner.contains(inner[i]));
            if front.contains(inner[i]) {
                let k = choose|k: int| 0 <= k < front.len() && front[k] == inner[i];
                assert(days[k] == inner[i]);
            }
        }
        assert forall|x: int| put.contains(x) implies days.contains(x) || x == day by {
            let i = choose|i: int| 0 <= i < put.len() && put[i] == x;
            if i < inner.len() {
                assert(inner.contains(x));
                if front.contains(x) {
                    let k = choose|k: int| 0 <= k < front.len() && front[k] == x;
                    assert(days[k] == x);
                }
            } else {
                assert(days[days.len() - 1] == x);
            }
        }
        assert forall|x: int| days.contains(x) || x == day implies put.contains(x) by {
            if x == day {
                assert(inner.contains(x));
                let i = choose|i: int| 0 <= i < inner.len() && inner[i] == x;
                assert(put[i] == x);
            } else {
                let k = choose|k: int| 0 <= k < days.len() && days[k] == x;
                if k < front.len() {
                    assert(front[k] == x);
                    assert(front.contains(x));
                    assert(inner.contains(x));
                    let i = choose|i: int| 0 <= i < inner.len() && inner[i] == x;
                    assert(put[i] == x);
                } else {
                    assert(put[put.len() - 1] == x);
                }
            }
        }
    }
}

/// The day list rises strictly, and a day is on it exactly if some slot falls
/// on that day: each day with a slot gets one line, earliest day first.
pub proof fn lemma_day_list_rises_and_covers(slots: Seq<Reading>)
    ensures
        strictly_rising(day_list(slots)),
        forall|day: int| #[trigger]
            day_list(slots).contains(day) <==> exists|k: int|
                0 <= k < slots.len() && (#[trigger] slots[k]).day == day,
    decreases slots.len(),
{
    if slots.len() > 0 {
        let front = slots.drop_last();
        lemma_day_list_rises_and_covers(front);
        lemma_insert_day_keeps_order(day_list(front), slots.last().day);
        let last_day = slots.last().day;
        assert(day_list(slots) == insert_day(day_list(front), last_day));
        assert forall|day: int| day_list(slots).contains(day) implies exists|k: int|
            0 <= k < slots.len() && (#[trigger] slots[k]).day == day by {
            assert(insert_day(day_list(front), last_day).contains(day));
            if day == last_day {
                assert(slots[slots.len() - 1].day == day);
            } else {
                assert(day_list(front).contains(day));
                let k = choose|k: int|
                    0 <= k < front.len() && (#[trigger] front[k]).day == day;
                assert(slots[k].day == day);
            }
        }
        assert forall|day: int|
            (exists|k: int|
                0 <= k < slots.len() && (#[trigger] slots[k]).day
                    == day) implies day_list(slots).contains(day) by {
            let k = choose|k: int| 0 <= k < slots.len() && (#[trigger] slots[k]).day == day;
            if k < front.len() {
                assert(front[k].day == day);
                assert(day_list(front).contains(day));
            }
            assert(insert_day(day_list(front), last_day).contains(day));
        }
    }
}

/// What `slots_on` makes of one more slot at the end.
proof fn lemma_slots_on_last(slots: Seq<Reading>, day: int)
    requires
        slots.len() > 0,
    ensures
        slots_on(slots, day) == if slots.last().day == day {
            slots_on(slots.drop_last(), day).push(slots.last())
        } else {
            slots_on(slots.drop_last(), day)
        },
{
    reveal(Seq::filter);
}

/// What `day_entry` makes of one more slot at the end.
proof fn lemma_day_entry_push(on_day: Seq<Reading>, slot: Reading)
    ensures
        day_entry(on_day.push(slot)) == if on_day.len() == 0 {
            slot.date + slot.time
        } else {
            day_entry(on_day) + ", "@ + slot.time
        },
{
    let more = on_day.push(slot);
    assert(time_texts(more).drop_last() =~= time_texts(on_day));
    assert(time_texts(more).last() == slot.time);
    if on_day.len() == 0 {
        assert(comma_joined(time_texts(more)) == slot.time);
    } else {
        assert(comma_joined(time_texts(more)) == comma_joined(time_texts(on_day)) + ", "@
            + slot.time);
        assert(more[0] == on_day[0]);
        assert(day_entry(more) =~= day_entry(on_day) + ", "@ + slot.time);
    }
}

/// Puts `day` in its place in `days`.
fn note_day(days: &mut Vec<i32>, day: i32)
    ensures
        as_ints(final(days)@) == insert_day(as_ints(old(days)@), day as int),
{
    let mut k: usize = days.len();
    while k > 0 && days[k - 1] > day
        invariant
            k <= days.len(),
            *days == *old(days),
            forall|j: int| k <= j < days.len() ==> days@[j] > day,
        decreases k,
    {
        k -= 1;
    }
    proof {
        lemma_insert_day_at(as_ints(days@), day as int, k as int);
    }
    if k > 0 && days[k - 1] == day {
        return ;
    }
    days.insert(k, day);
    assert(as_ints(days@) =~= as_ints(old(days)@).insert(k as int, day as int));
}

/// The local days on which `readings` has a slot, each once, earliest first.
pub fn days_listed(readings: &Vec<SlotReading>) -> (days: Vec<i32>)
    ensures
        as_ints(days@) == day_list(readings_view(readings@)),
{
    let ghost shown = readings_view(readings@);
    let mut days: Vec<i32> = Vec::new();
    let mut i: usize = 0;
    assert(as_ints(days@) =~= day_list(shown.subrange(0, 0)));
    while i < readings.len()
        invariant
            i <= readings.len(),
            shown == readings_view(readings@),
            as_ints(days@) == day_list(shown.subrange(0, i as int)),
        decreases readings.len() - i,
    {
        assert(shown.subrange(0, i + 1).drop_last() =~= shown.subrange(0, i as int));
        assert(shown.subrange(0, i + 1).last() == readings@[i as int]@);
        note_day(&mut days, readings[i].day);
        i += 1;
    }
    assert(shown.subrange(0, readings.len() as int) =~= shown);
    days
}

/// Appends the line of the local day `day` to `out`: the date label of the
/// first reading of that day, the times of all its readings in their order
/// with a comma and a space between them, and a line end.
pub fn append_day_line(out: &mut String, readings: &Vec<SlotReading>, day: i32)
    ensures
        final(out)@ == old(out)@ + day_line(readings_view(readings@), day as int),
{
    let ghost shown = readings_view(readings@);
    let mut met: bool = false;
    let mut i: usize = 0;
    proof {
        reveal(Seq::filter);
        assert(shown.subrange(0, 0) =~= Seq::<Reading>::empty());
        assert(out@ =~= old(out)@ + day_entry(slots_on(shown.subrange(0, 0), day as int)));
    }
    while i < readings.len()
        invariant
            i <= readings.len(),
            shown == readings_view(readings@),
            met == (slots_on(shown.subrange(0, i as int), day as int).len() > 0),
            out@ == old(out)@ + day_entry(slots_on(shown.subrange(0, i as int), day as int)),
        decreases readings.len() - i,
    {
        let slot = &readings[i];
        let ghost before = slots_on(shown.subrange(0, i as int), day as int);
        proof {
            assert(shown.subrange(0, i + 1).drop_last() =~= shown.subrange(0, i as int));
            assert(shown.subrange(0, i + 1).last() == slot@);
            lemma_slots_on_last(shown.subrange(0, i + 1), day as int);
            lemma_day_entry_push(before, slot@);
        }
        if slot.day == day {
            if met {
                out.append(", ");
            } else {
                out.append(slot.date.as_str());
                met = true;
            }
            out.append(slot.time.as_str());
            assert(out@ =~= old(out)@ + day_entry(before.push(slot@)));
        }
        i += 1;
    }
    assert(shown.subrange(0, readings.len() as int) =~= shown);
    out.append("\n");
    assert(out@ =~= old(out)@ + day_line(shown, day as int));
}

/// Appends the schedule of `readings` to `out`: one line for each day that
/// has a slot, earliest day first.
pub fn append_schedule(out: &mut String, readings: &Vec<SlotReading>)
    ensures
        final(out)@ == old(out)@ + schedule_text(readings_view(readings@)),
{
    let ghost shown = readings_view(readings@);
    let days = days_listed(readings);
    let mut d: usize = 0;
    assert(out@ =~= old(out)@ + day_lines(shown, as_ints(days@).subrange(0, 0)));
    while d < days.len()
        invariant
            d <= days.len(),
            shown == readings_view(readings@),
            out@ == old(out)@ + day_lines(shown, as_ints(days@).subrange(0, d as int)),
        decreases days.len() - d,
    {
        let ghost listed = as_ints(days@).subrange(0, d as int);
        let ghost next = as_ints(days@).subrange(0, d + 1);
        assert(next.drop_last() =~= listed);
        assert(next.last() == days@[d as int] as int);
        append_day_line(out, readings, days[d]);
        assert(out@ =~= old(out)@ + day_lines(shown, next));
        d += 1;
    }
    assert(as_ints(days@).subrange(0, days.len() as int) =~= as_ints(days@));
}

} // verus!
