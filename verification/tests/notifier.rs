use vaccine_notifier::appointment::Appointment;
use vaccine_notifier::location::Location;
use vaccine_notifier::notify::{
    email_locations, notify, print_locations, report_locations, Notice,
};
use vaccine_notifier::report::render_report;
use vaccine_notifier::snapshot::Snapshot;

fn site(id: u64) -> Location {
    Location {
        id,
        url: None,
        city: None,
        state: None,
        address: None,
        name: Some(format!("Site {}", id)),
        provider: None,
        postal_code: Some("62701".to_string()),
        appointments: Some(vec![Appointment::new(1_614_589_200, 0, 0).unwrap()]),
    }
}

fn addr(text: &str) -> Option<String> {
    Some(text.to_string())
}

#[test]
fn nothing_found_is_silence_in_every_mode() {
    let none: Vec<Location> = vec![];
    assert!(matches!(notify(&none, "t", &None, &None), Notice::Silent));
    assert!(matches!(notify(&none, "t", &addr("a@x"), &addr("b@x")), Notice::Silent));
    assert!(matches!(notify(&none, "t", &addr("a@x"), &None), Notice::Silent));
    assert!(matches!(notify(&none, "t", &None, &addr("b@x")), Notice::Silent));
    assert!(matches!(notify(&none, "", &None, &None), Notice::Silent));
    assert!(print_locations(&none, "t").is_none());
    assert!(email_locations(&none, "t", "a@x", "b@x").is_none());
}

#[test]
fn console_is_the_mode_without_both_addresses() {
    let found = vec![site(1)];
    let expected = render_report("t", &found);
    for (from, to) in [(None, None), (addr("a@x"), None), (None, addr("b@x"))] {
        match notify(&found, "t", &from, &to) {
            Notice::Print(text) => assert_eq!(text, expected),
            other => panic!("expected a printed report, got {:?}", other),
        }
    }
}

#[test]
fn mail_is_the_mode_with_both_addresses() {
    let found = vec![site(1), site(2)];
    match notify(&found, "t", &addr("from@x"), &addr("to@x")) {
        Notice::Send(mail) => {
            assert_eq!(mail.from, "from@x");
            assert_eq!(mail.to, "to@x");
            assert_eq!(mail.subject, "New Vaccine Appointments");
            assert_eq!(mail.body, render_report("t", &found));
        },
        other => panic!("expected a mail, got {:?}", other),
    }
}

#[test]
fn print_locations_gives_the_report() {
    let found = vec![site(1)];
    assert_eq!(
        print_locations(&found, "noon").unwrap(),
        "==========\nReport as of noon\n==========\n\
++++++++++\n??-Site 1\n??\n??\n??, ?? 62701\n03/01/2021: 09:00am\n\n\n++++++++++\n"
    );
}

#[test]
fn email_locations_gives_the_message() {
    let found = vec![site(1)];
    let mail = email_locations(&found, "noon", "from@x", "to@x").unwrap();
    assert_eq!(mail.from, "from@x");
    assert_eq!(mail.to, "to@x");
    assert_eq!(mail.subject, "New Vaccine Appointments");
    assert_eq!(mail.body, print_locations(&found, "noon").unwrap());
}

#[test]
fn report_locations_diffs_then_notifies() {
    let current = vec![site(1), site(2)];
    let mut previous = Snapshot::new();
    previous.entries.insert(1, vec![Appointment::new(1_614_589_200, 0, 0).unwrap()]);
    match report_locations(&current, &previous, &vec![], &None, &None, "t") {
        Notice::Print(text) => assert_eq!(text, render_report("t", &vec![site(2)])),
        other => panic!("expected a printed report, got {:?}", other),
    }
    let known = Snapshot::capture(&current);
    assert!(matches!(
        report_locations(&current, &known, &vec![], &None, &None, "t"),
        Notice::Silent
    ));
    let zips = vec!["90210".to_string()];
    assert!(matches!(
        report_locations(&current, &previous, &zips, &addr("a@x"), &addr("b@x"), "t"),
        Notice::Silent
    ));
}

#[test]
fn report_locations_mails_with_both_addresses() {
    let current = vec![site(1)];
    let known = Snapshot::capture(&current);
    assert!(matches!(
        report_locations(&current, &known, &vec![], &addr("a@x"), &addr("b@x"), "t"),
        Notice::Silent
    ));
    match report_locations(&current, &Snapshot::new(), &vec![], &addr("a@x"), &addr("b@x"), "t") {
        Notice::Send(mail) => assert_eq!(mail.body, render_report("t", &current)),
        other => panic!("expected a mail, got {:?}", other),
    }
}
