use vaccine_notifier::appointment::{read_slots, Appointment};
use vaccine_notifier::location::{string_or_question, Location};
use vaccine_notifier::report::{print_location, render_report};
use vaccine_notifier::schedule::{append_day_line, append_schedule, days_listed, SlotReading};

fn at(day: u32, hour: u32, minute: u32) -> Appointment {
    let seconds = chrono::NaiveDate::from_ymd_opt(2021, 3, day)
        .unwrap()
        .and_hms_opt(hour, minute, 0)
        .unwrap()
        .and_utc()
        .timestamp();
    Appointment::new(seconds, 0, 0).unwrap()
}

fn reading(day: i32, date: &str, time: &str) -> SlotReading {
    SlotReading { day, date: date.to_string(), time: time.to_string() }
}

fn schedule(slots: &Vec<Appointment>) -> String {
    let mut text = String::new();
    append_schedule(&mut text, &read_slots(slots));
    text
}

fn full_site(appointments: Option<Vec<Appointment>>) -> Location {
    Location {
        id: 1,
        url: Some("http://example.test/1".to_string()),
        city: Some("Springfield".to_string()),
        state: Some("IL".to_string()),
        address: Some("1 Main St".to_string()),
        name: Some("Store 1".to_string()),
        provider: Some("CVS".to_string()),
        postal_code: Some("62701".to_string()),
        appointments,
    }
}

fn bare_site(appointments: Option<Vec<Appointment>>) -> Location {
    Location {
        id: 2,
        url: None,
        city: None,
        state: None,
        address: None,
        name: None,
        provider: None,
        postal_code: None,
        appointments,
    }
}

#[test]
fn string_or_question_shows_the_field_or_two_question_marks() {
    assert_eq!(string_or_question(&Some("abc".to_string())), "abc");
    assert_eq!(string_or_question(&Some(String::new())), "");
    assert_eq!(string_or_question(&None), "??");
}

#[test]
fn site_text_with_every_field() {
    let site = full_site(Some(vec![at(1, 9, 0)]));
    assert_eq!(
        site.to_text(),
        "CVS-Store 1\nhttp://example.test/1\n1 Main St\nSpringfield, IL 62701\n03/01/2021: 09:00am\n\n"
    );
}

#[test]
fn site_text_with_no_field() {
    assert_eq!(bare_site(None).to_text(), "??-??\n??\n??\n??, ?? ??\n\n");
    assert_eq!(bare_site(Some(vec![])).to_text(), "??-??\n??\n??\n??, ?? ??\n\n");
}

#[test]
fn schedule_groups_by_day_and_sorts_the_days() {
    let slots = vec![at(2, 14, 30), at(1, 9, 0), at(2, 8, 5), at(3, 0, 0), at(1, 12, 0)];
    assert_eq!(
        schedule(&slots),
        "03/01/2021: 09:00am, 12:00pm\n03/02/2021: 02:30pm, 08:05am\n03/03/2021: 12:00am\n"
    );
}

#[test]
fn schedule_keeps_what_was_there() {
    let mut text = "before\n".to_string();
    append_schedule(&mut text, &read_slots(&vec![at(1, 9, 0)]));
    assert_eq!(text, "before\n03/01/2021: 09:00am\n");
}

#[test]
fn schedule_of_no_slots_is_empty() {
    assert_eq!(schedule(&vec![]), "");
}

#[test]
fn schedule_shows_a_repeated_slot_twice() {
    assert_eq!(schedule(&vec![at(1, 9, 0), at(1, 9, 0)]), "03/01/2021: 09:00am, 09:00am\n");
}

#[test]
fn schedule_groups_by_the_local_day() {
    let seconds = at(2, 3, 30).seconds();
    let west = Appointment::new(seconds, 0, -18000).unwrap();
    let utc = Appointment::new(seconds, 0, 0).unwrap();
    assert_eq!(schedule(&vec![utc, west]), "03/01/2021: 10:30pm\n03/02/2021: 03:30am\n");
}

#[test]
fn schedule_of_given_readings() {
    let readings = vec![
        reading(7, "seven: ", "c"),
        reading(-2, "minus two: ", "a"),
        reading(7, "again seven: ", "d"),
        reading(3, "three: ", "b"),
        reading(-2, "", "e"),
    ];
    let mut text = String::new();
    append_schedule(&mut text, &readings);
    assert_eq!(text, "minus two: a, e\nthree: b\nseven: c, d\n");
}

#[test]
fn read_slots_reads_each_slot_in_order() {
    let readings = read_slots(&vec![at(2, 14, 30), at(1, 9, 0)]);
    assert_eq!(readings.len(), 2);
    assert_eq!(readings[0].day, 737_851);
    assert_eq!(readings[0].date, "03/02/2021: ");
    assert_eq!(readings[0].time, "02:30pm");
    assert_eq!(readings[1].day, 737_850);
    assert_eq!(readings[1].date, "03/01/2021: ");
    assert_eq!(readings[1].time, "09:00am");
    assert!(read_slots(&vec![]).is_empty());
}

#[test]
fn days_listed_are_distinct_and_rising() {
    let slots = vec![at(5, 1, 0), at(2, 1, 0), at(5, 2, 0), at(1, 1, 0), at(2, 9, 0), at(9, 9, 0)];
    assert_eq!(days_listed(&read_slots(&slots)), vec![737_850, 737_851, 737_854, 737_858]);
    assert_eq!(days_listed(&vec![]), Vec::<i32>::new());
    let given = vec![reading(5, "", ""), reading(i32::MIN, "", ""), reading(5, "", ""), reading(i32::MAX, "", ""), reading(0, "", "")];
    assert_eq!(days_listed(&given), vec![i32::MIN, 0, 5, i32::MAX]);
}

#[test]
fn day_line_lists_the_slots_of_that_day_only() {
    let readings = read_slots(&vec![at(2, 14, 30), at(1, 9, 0), at(2, 8, 5)]);
    let mut text = String::new();
    append_day_line(&mut text, &readings, 737_851);
    assert_eq!(text, "03/02/2021: 02:30pm, 08:05am\n");
    let mut empty = String::new();
    append_day_line(&mut empty, &readings, 737_860);
    assert_eq!(empty, "\n");
}

#[test]
fn day_line_of_given_readings() {
    let readings = vec![reading(1, "one: ", "x"), reading(2, "two: ", "y"), reading(1, "uno: ", "z")];
    let mut text = "kept".to_string();
    append_day_line(&mut text, &readings, 1);
    assert_eq!(text, "keptone: x, z\n");
    let mut other = String::new();
    append_day_line(&mut other, &readings, 2);
    assert_eq!(other, "two: y\n");
}

#[test]
fn block_is_the_site_between_two_rules() {
    let mut text = String::new();
    print_location(&mut text, &bare_site(None));
    assert_eq!(text, "++++++++++\n??-??\n??\n??\n??, ?? ??\n\n\n++++++++++\n");
}

#[test]
fn report_is_head_and_blocks() {
    let found = vec![full_site(Some(vec![at(1, 9, 0), at(1, 15, 45)])), bare_site(None)];
    let text = render_report("2021-03-01 08:00:00 -06:00", &found);
    let expected = "==========\nReport as of 2021-03-01 08:00:00 -06:00\n==========\n\
++++++++++\nCVS-Store 1\nhttp://example.test/1\n1 Main St\nSpringfield, IL 62701\n\
03/01/2021: 09:00am, 03:45pm\n\n\n++++++++++\n\
++++++++++\n??-??\n??\n??\n??, ?? ??\n\n\n++++++++++\n";
    assert_eq!(text, expected);
}

#[test]
fn report_on_no_site_is_the_head_alone() {
    assert_eq!(render_report("now", &vec![]), "==========\nReport as of now\n==========\n");
}
