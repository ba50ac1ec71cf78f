//! A vaccination site as one poll reports it.

use crate::appointment::Appointment;
use vstd::prelude::*;

verus! {

/// One vaccination site of a poll response.
///
/// Only `id`, `postal_code` and `appointments` bear on whether the site is
/// reported; the other fields are shown on the report as they are.
#[derive(Debug)]
pub struct Location {
    /// Identifier of the site, the same from poll to poll.
    pub id: u64,
    pub url: Option<String>,
    pub city: Option<String>,
    pub state: Option<String>,
    pub address: Option<String>,
    pub name: Option<String>,
    pub provider: Option<String>,
    /// Postal code of the site; a site without one is never reported.
    pub postal_code: Option<String>,
    /// The open slots, in the order in which the source listed them.
    pub appointments: Option<Vec<Appointment>>,
}

/// A site as contracts see it: every text field by its characters, the slots
/// as a sequence.
pub struct Site {
    pub id: u64,
    pub url: Option<Seq<char>>,
    pub city: Option<Seq<char>>,
    pub state: Option<Seq<char>>,
    pub address: Option<Seq<char>>,
    pub name: Option<Seq<char>>,
    pub provider: Option<Seq<char>>,
    pub postal_code: Option<Seq<char>>,
    pub appointments: Option<Seq<Appointment>>,
}

impl Site {
    /// The site's open slots; none where the source gave no list.
    pub open spec fn slots(self) -> Seq<Appointment> {
        match self.appointments {
            Some(list) => list,
            None => Seq::empty(),
        }
    }
}

/// An optional text field by its characters.
pub open spec fn field_view(field: Option<String>) -> Option<Seq<char>> {
    match field {
        Some(s) => Some(s@),
        None => None,
    }
}

impl View for Location {
    type V = Site;

    open spec fn view(&self) -> Site {
        Site {
            id: self.id,
            url: field_view(self.url),
            city: field_view(self.city),
            state: field_view(self.state),
            address: field_view(self.address),
            name: field_view(self.name),
            provider: field_view(self.provider),
            postal_code: field_view(self.postal_code),
            appointments: match self.appointments {
                Some(list) => Some(list@),
                None => None,
            },
        }
    }
}

/// A list of sites as contracts see it.
pub open spec fn sites_view(sites: Seq<Location>) -> Seq<Site> {
    sites.map_values(|site: Location| site@)
}

/// The text shown for a field: the field itself, or `??` where it is absent.
pub open spec fn text_or_question(field: Option<Seq<char>>) -> Seq<char> {
    match field {
        Some(s) => s,
        None => "??"@,
    }
}

/// The text to show for an optional field: the field itself, or `??` where it
/// is absent.
pub fn string_or_question(o: &Option<String>) -> (shown: &str)
    ensures
        shown@ == text_or_question(field_view(*o)),
{
    match o {
        Some(s) => s.as_str(),
        None => "??",
    }
}

/// Copies an optional text field.
fn copy_field(field: &Option<String>) -> (copy: Option<String>)
    ensures
        copy == *field,
{
    match field {
        Some(s) => Some(s.clone()),
        None => None,
    }
}

/// Copies a list of slots.
pub fn copy_slots(slots: &Vec<Appointment>) -> (copy: Vec<Appointment>)
    ensures
        copy@ == slots@,
{
    let mut copy: Vec<Appointment> = Vec::new();
    let mut i: usize = 0;
    while i < slots.len()
        invariant
            i <= slots.len(),
            copy@ == slots@.subrange(0, i as int),
        decreases slots.len() - i,
    {
        copy.push(slots[i]);
        i += 1;
        assert(copy@ =~= slots@.subrange(0, i as int));
    }
    assert(slots@.subrange(0, slots.len() as int) =~= slots@);
    copy
}

impl Clone for Location {
    fn clone(&self) -> (copy: Location)
        ensures
            copy@ == self@,
    {
        Location {
            id: self.id,
            url: copy_field(&self.url),
            city: copy_field(&self.city),
            state: copy_field(&self.state),
            address: copy_field(&self.address),
            name: copy_field(&self.name),
            provider: copy_field(&self.provider),
            postal_code: copy_field(&self.postal_code),
            appointments: match &self.appointments {
                Some(slots) => Some(copy_slots(slots)),
                None => None,
            },
        }
    }
}

} // verus!
