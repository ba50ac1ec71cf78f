//! Where a region's open slots are asked for.

use vstd::prelude::*;

verus! {

/// `text` in upper case, as `str::to_uppercase` gives it.
pub uninterp spec fn upper_case(text: Seq<char>) -> Seq<char>;

/// Trusted: `str::to_uppercase` of the standard library. The contract only
/// names the result.
#[verifier::external_body]
pub(crate) fn to_upper(text: &str) -> (upper: String)
    ensures
        upper@ == upper_case(text@),
{
    text.to_uppercase()
}

/// The address that lists the open slots of the region whose code, as the
/// service writes it, is `code`.
pub open spec fn code_endpoint_text(code: Seq<char>) -> Seq<char> {
    "https://www.vaccinespotter.org/api/v0/states/"@ + code + ".json"@
}

/// The address that lists the open slots of the region `state`.
pub open spec fn endpoint_text(state: Seq<char>) -> Seq<char> {
    code_endpoint_text(upper_case(state))
}

/// The address to poll for the region whose code, as the service writes it,
/// is `code`.
pub fn code_endpoint(code: &str) -> (url: String)
    ensures
        url@ == code_endpoint_text(code@),
{
    let mut url = "https://www.vaccinespotter.org/api/v0/states/".to_owned();
    url.append(code);
    url.append(".json");
    url
}

/// The address to poll for the region with the two-letter code `state`; the
/// code is put in upper case.
pub fn endpoint_url(state: &str) -> (url: String)
    ensures
        url@ == endpoint_text(state@),
{
    let upper = to_upper(state);
    code_endpoint(upper.as_str())
}

} // verus!
