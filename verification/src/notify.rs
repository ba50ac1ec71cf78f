//! What is to be told of a poll, and by which way.

use crate::diff::{diff, find_newly_available, zips_view};
use crate::location::{field_view, sites_view, Location, Site};
use crate::report::{render_report, report_text};
use crate::snapshot::Snapshot;
use vstd::prelude::*;

verus! {

/// A message to be mailed.
#[derive(Debug)]
pub struct Mail {
    pub from: String,
    pub to: String,
    pub subject: String,
    pub body: String,
}

/// What the caller is to do with the outcome of a poll.
#[derive(Debug)]
pub enum Notice {
    /// Nothing is new: nothing is written and nothing is mailed.
    Silent,
    /// Write this report to standard output.
    Print(String),
    /// Mail this message.
    Send(Mail),
}

/// A message by the characters of its parts.
pub struct MailView {
    pub from: Seq<char>,
    pub to: Seq<char>,
    pub subject: Seq<char>,
    pub body: Seq<char>,
}

/// A notice by the characters of its texts.
pub enum NoticeView {
    Silent,
    Print(Seq<char>),
    Send(MailView),
}

impl View for Mail {
    type V = MailView;

    open spec fn view(&self) -> MailView {
        MailView { from: self.from@, to: self.to@, subject: self.subject@, body: self.body@ }
    }
}

impl View for Notice {
    type V = NoticeView;

    open spec fn view(&self) -> NoticeView {
        match *self {
            Notice::Silent => NoticeView::Silent,
            Notice::Print(text) => NoticeView::Print(text@),
            Notice::Send(mail) => NoticeView::Send(mail@),
        }
    }
}

/// The subject line of every mailed report.
pub open spec fn mail_subject() -> Seq<char> {
    "New Vaccine Appointments"@
}

/// The message that carries the report on `found` from `from` to `to`.
pub open spec fn mail_for(found: Seq<Site>, stamp: Seq<char>, from: Seq<char>, to: Seq<char>) -> MailView {
    MailView { from, to, subject: mail_subject(), body: report_text(stamp, found) }
}

/// The notice for the sites `found`.
///
/// No site gives silence, whatever the addresses. Otherwise the report is
/// mailed if both a sender and a recipient are set, and printed if not.
pub open spec fn notice_for(
    found: Seq<Site>,
    stamp: Seq<char>,
    from: Option<Seq<char>>,
    to: Option<Seq<char>>,
) -> NoticeView {
    if found.len() == 0 {
        NoticeView::Silent
    } else if from is Some && to is Some {
        NoticeView::Send(mail_for(found, stamp, from.unwrap(), to.unwrap()))
    } else {
        NoticeView::Print(report_text(stamp, found))
    }
}

/// The report on `found` for the console, made at the time that `stamp`
/// names; `None` where no site was found.
pub fn print_locations(found: &Vec<Location>, stamp: &str) -> (text: Option<String>)
    ensures
        text is None <==> found@.len() == 0,
        text is Some ==> text.unwrap()@ == report_text(stamp@, sites_view(found@)),
{
    if found.len() == 0 {
        None
    } else {
        Some(render_report(stamp, found))
    }
}

/// The message that reports `found` from `from_email` to `to_email`, made at
/// the time that `stamp` names; `None` where no site was found.
pub fn email_locations(found: &Vec<Location>, stamp: &str, from_email: &str, to_email: &str) -> (mail:
    Option<Mail>)
    ensures
        mail is None <==> found@.len() == 0,
        mail is Some ==> mail.unwrap()@ == mail_for(
            sites_view(found@),
            stamp@,
            from_email@,
            to_email@,
        ),
{
    if found.len() == 0 {
        return None;
    }
    let body = render_report(stamp, found);
    Some(
        Mail {
            from: from_email.to_owned(),
            to: to_email.to_owned(),
            subject: "New Vaccine Appointments".to_owned(),
            body,
        },
    )
}

/// The notice for the sites `found`, made at the time that `stamp` names.
pub fn notify(
    found: &Vec<Location>,
    stamp: &str,
    from_email: &Option<String>,
    to_email: &Option<String>,
) -> (notice: Notice)
    ensures
        notice@ == notice_for(
            sites_view(found@),
            stamp@,
            field_view(*from_email),
            field_view(*to_email),
        ),
{
    match (from_email, to_email) {
        (Some(from), Some(to)) => {
            match email_locations(found, stamp, from.as_str(), to.as_str()) {
                Some(mail) => Notice::Send(mail),
                None => Notice::Silent,
            }
        },
        _ => {
            match print_locations(found, stamp) {
                Some(text) => Notice::Print(text),
                None => Notice::Silent,
            }
        },
    }
}

/// The notice on the poll response `locations` against the store
/// `current_info` under the allowlist `zips`, made at the time that `stamp`
/// names.
pub fn report_locations(
    locations: &Vec<Location>,
    current_info: &Snapshot,
    zips: &Vec<String>,
    from_email: &Option<String>,
    to_email: &Option<String>,
    stamp: &str,
) -> (notice: Notice)
    ensures
        notice@ == notice_for(
            diff(sites_view(locations@), current_info@, zips_view(zips@)),
            stamp@,
            field_view(*from_email),
            field_view(*to_email),
        ),
{
    let found = find_newly_available(locations, current_info, zips);
    notify(&found, stamp, from_email, to_email)
}

} // verus!
