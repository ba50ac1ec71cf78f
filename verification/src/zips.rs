//! The allowlist of zip codes, as its file gives it.

use crate::diff::zips_view;
use vstd::prelude::*;

verus! {

/// Trusted: `serde_json::Error`, the error of a failed read. Nothing is
/// known of what it holds.
#[verifier::external_type_specification]
#[verifier::external_body]
pub struct ExJsonError(serde_json::Error);

/// The strings of the JSON array that `text` holds, in their order, as
/// serde_json reads them; `None` where `text` is no JSON array of strings.
pub uninterp spec fn json_string_array(text: Seq<char>) -> Option<Seq<Seq<char>>>;

/// Trusted: `serde_json::from_str`, asked for a list of strings. The contract
/// only names the result: the list on success, and that there is none where
/// serde_json reports an error.
#[verifier::external_body]
pub(crate) fn read_string_array(text: &str) -> (read: Result<Vec<String>, serde_json::Error>)
    ensures
        match read {
            Ok(list) => json_string_array(text@) == Some(zips_view(list@)),
            Err(_) => json_string_array(text@) is None,
        },
{
    serde_json::from_str::<Vec<String>>(text)
}

/// What the zip-code file gave.
#[derive(Debug)]
pub enum ZipList {
    /// No file was named, or the file could not be read.
    NoFile,
    /// The file does not hold a JSON array of strings. The caller is to
    /// warn of it.
    Malformed,
    /// The file holds these codes.
    Listed(Vec<String>),
}

/// What the zip-code file gave, each code by its characters.
pub enum ZipListView {
    NoFile,
    Malformed,
    Listed(Seq<Seq<char>>),
}

impl View for ZipList {
    type V = ZipListView;

    open spec fn view(&self) -> ZipListView {
        match *self {
            ZipList::NoFile => ZipListView::NoFile,
            ZipList::Malformed => ZipListView::Malformed,
            ZipList::Listed(zips) => ZipListView::Listed(zips_view(zips@)),
        }
    }
}

/// What a read of the file's text amounts to: the codes where there are
/// any to be had, and a malformed file where there are none.
pub open spec fn zip_list_of(read: Option<Seq<Seq<char>>>) -> ZipListView {
    match read {
        Some(zips) => ZipListView::Listed(zips),
        None => ZipListView::Malformed,
    }
}

/// What the contents of a zip-code file give: no file where there are no
/// contents, else what serde_json makes of them.
pub open spec fn zip_list_in(contents: Option<Seq<char>>) -> ZipListView {
    match contents {
        Some(text) => zip_list_of(json_string_array(text)),
        None => ZipListView::NoFile,
    }
}

/// The allowlist to poll with: the codes of the file where it listed any,
/// and no code at all otherwise, so that every postal code is considered. A
/// malformed file counts as a whole for no list, never for a part of one.
pub open spec fn filter_of(list: ZipListView) -> Seq<Seq<char>> {
    match list {
        ZipListView::Listed(zips) => zips,
        _ => Seq::empty(),
    }
}

/// What a read of the file's text amounts to: its codes where it succeeded,
/// a malformed file where it failed.
pub fn zip_list_from(read: Result<Vec<String>, serde_json::Error>) -> (list: ZipList)
    ensures
        list@ == zip_list_of(
            match read {
                Ok(zips) => Some(zips_view(zips@)),
                Err(_) => None,
            },
        ),
{
    match read {
        Ok(zips) => ZipList::Listed(zips),
        Err(_) => ZipList::Malformed,
    }
}

/// What the zip-code file gave, from its contents.
///
/// `contents` is `None` where no file was named or the file could not be
/// read.
pub fn considered_zips(contents: Option<&str>) -> (list: ZipList)
    ensures
        list@ == zip_list_in(
            match contents {
                Some(text) => Some(text@),
                None => None,
            },
        ),
{
    match contents {
        Some(text) => zip_list_from(read_string_array(text)),
        None => ZipList::NoFile,
    }
}

impl ZipList {
    /// Whether the file was there and did not hold a list of codes.
    pub fn is_malformed(&self) -> (malformed: bool)
        ensures
            malformed == (self@ is Malformed),
    {
        match self {
            ZipList::Malformed => true,
            _ => false,
        }
    }

    /// The allowlist to poll with.
    pub fn into_filter(self) -> (zips: Vec<String>)
        ensures
            zips_view(zips@) == filter_of(self@),
    {
        match self {
            ZipList::Listed(zips) => zips,
            _ => {
                let none: Vec<String> = Vec::new();
                assert(zips_view(none@) =~= Seq::<Seq<char>>::empty());
                none
            },
        }
    }
}

} // verus!
