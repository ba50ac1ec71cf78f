//! The text of a report on newly available sites.

use crate::appointment::{read_slots, readings_of};
use crate::location::{sites_view, string_or_question, text_or_question, Location, Site};
use crate::schedule::{append_schedule, schedule_text};
use vstd::prelude::*;

verus! {

/// What a report says of one site: provider and name, link, street address,
/// then city, state and postal code, each absent field as `??`; after these
/// the schedule of its slots, and an empty line.
pub open spec fn site_text(site: Site) -> Seq<char> {
    text_or_question(site.provider) + "-"@ + text_or_question(site.name) + "\n"@
        + text_or_question(site.url) + "\n"@ + text_or_question(site.address) + "\n"@
        + text_or_question(site.city) + ", "@ + text_or_question(site.state) + " "@
        + text_or_question(site.postal_code) + "\n"@ + (match site.appointments {
        Some(slots) => schedule_text(readings_of(slots)),
        None => Seq::empty(),
    }) + "\n"@
}

/// The block of one site on a report: its text between two rules of plus
/// signs, each on a line of its own.
pub open spec fn site_block(site: Site) -> Seq<char> {
    "++++++++++"@ + "\n"@ + site_text(site) + "\n"@ + "++++++++++"@ + "\n"@
}

/// The blocks of `sites`, one after the other.
pub open spec fn site_blocks(sites: Seq<Site>) -> Seq<char>
    decreases sites.len(),
{
    if sites.len() == 0 {
        Seq::empty()
    } else {
        site_blocks(sites.drop_last()) + site_block(sites.last())
    }
}

/// The head of a report made at the time that `stamp` names.
pub open spec fn report_head(stamp: Seq<char>) -> Seq<char> {
    "=========="@ + "\n"@ + "Report as of "@ + stamp + "\n"@ + "=========="@ + "\n"@
}

/// The whole report on `sites`, made at the time that `stamp` names.
pub open spec fn report_text(stamp: Seq<char>, sites: Seq<Site>) -> Seq<char> {
    report_head(stamp) + site_blocks(sites)
}

impl Location {
    /// What a report says of this site.
    pub fn to_text(&self) -> (text: String)
        ensures
            text@ == site_text(self@),
    {
        let mut text = String::new();
        text.append(string_or_question(&self.provider));
        text.append("-");
        text.append(string_or_question(&self.name));
        text.append("\n");
        text.append(string_or_question(&self.url));
        text.append("\n");
        text.append(string_or_question(&self.address));
        text.append("\n");
        text.append(string_or_question(&self.city));
        text.append(", ");
        text.append(string_or_question(&self.state));
        text.append(" ");
        text.append(string_or_question(&self.postal_code));
        text.append("\n");
        match &self.appointments {
            Some(slots) => {
                let readings = read_slots(slots);
                append_schedule(&mut text, &readings);
            },
            None => {},
        }
        text.append("\n");
        assert(text@ =~= site_text(self@));
        text
    }
}

/// Appends the block of `site` to `out`.
pub fn print_location(out: &mut String, site: &Location)
    ensures
        final(out)@ == old(out)@ + site_block(site@),
{
    let text = site.to_text();
    out.append("++++++++++");
    out.append("\n");
    out.append(text.as_str());
    out.append("\n");
    out.append("++++++++++");
    out.append("\n");
    assert(out@ =~= old(out)@ + site_block(site@));
}

/// The report on `found`, made at the time that `stamp` names.
pub fn render_report(stamp: &str, found: &Vec<Location>) -> (text: String)
    ensures
        text@ == report_text(stamp@, sites_view(found@)),
{
    let mut text = String::new();
    text.append("==========");
    text.append("\n");
    text.append("Report as of ");
    text.append(stamp);
    text.append("\n");
    text.append("==========");
    text.append("\n");
    assert(text@ =~= report_head(stamp@));
    let mut i: usize = 0;
    assert(sites_view(found@.subrange(0, 0)) =~= Seq::<Site>::empty());
    assert(text@ =~= report_head(stamp@) + site_blocks(sites_view(found@.subrange(0, 0))));
    while i < found.len()
        invariant
            i <= found.len(),
            text@ == report_head(stamp@) + site_blocks(sites_view(found@.subrange(0, i as int))),
        decreases found.len() - i,
    {
        let ghost shown = sites_view(found@.subrange(0, i as int));
        let ghost next = sites_view(found@.subrange(0, i + 1));
        assert(next.drop_last() =~= shown);
        assert(next.last() == found@[i as int]@);
        print_location(&mut text, &found[i]);
        assert(text@ =~= report_head(stamp@) + site_blocks(next));
        i += 1;
    }
    assert(found@.subrange(0, found.len() as int) =~= found@);
    text
}

} // verus!
