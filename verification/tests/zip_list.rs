use vaccine_notifier::endpoint::{code_endpoint, endpoint_url};
use vaccine_notifier::zips::{considered_zips, zip_list_from, ZipList};

fn filter(contents: Option<&str>) -> Vec<String> {
    considered_zips(contents).into_filter()
}

#[test]
fn no_file_means_no_filter() {
    let list = considered_zips(None);
    assert!(matches!(list, ZipList::NoFile));
    assert!(!list.is_malformed());
    assert!(list.into_filter().is_empty());
}

#[test]
fn array_of_strings_is_the_list() {
    let list = considered_zips(Some("[\"90210\", \"10001\"]"));
    assert!(!list.is_malformed());
    assert_eq!(list.into_filter(), vec!["90210".to_string(), "10001".to_string()]);
}

#[test]
fn empty_array_is_an_empty_list_and_well_formed() {
    let list = considered_zips(Some("[]"));
    assert!(matches!(list, ZipList::Listed(_)));
    assert!(!list.is_malformed());
    assert!(list.into_filter().is_empty());
}

#[test]
fn malformed_file_means_no_filter_and_is_told() {
    for text in ["", "not json", "[\"90210\"", "[90210]", "{\"zips\": [\"90210\"]}", "\"90210\""] {
        let list = considered_zips(Some(text));
        assert!(list.is_malformed());
        assert!(matches!(list, ZipList::Malformed));
        assert!(list.into_filter().is_empty());
    }
}

#[test]
fn array_with_one_wrong_element_is_malformed_as_a_whole() {
    let list = considered_zips(Some("[\"90210\", 10001]"));
    assert!(list.is_malformed());
    assert_eq!(list.into_filter(), Vec::<String>::new());
}

#[test]
fn escapes_in_strings_are_read() {
    assert_eq!(filter(Some("[\"a\\u0041\\n\"]")), vec!["aA\n".to_string()]);
}

#[test]
fn zip_list_from_a_read_that_succeeded() {
    let read = serde_json::from_str::<Vec<String>>("[\"1\", \"2\"]");
    match zip_list_from(read) {
        ZipList::Listed(zips) => assert_eq!(zips, vec!["1".to_string(), "2".to_string()]),
        other => panic!("expected a list, got {:?}", other),
    }
    let given: Result<Vec<String>, serde_json::Error> = Ok(vec![]);
    assert!(matches!(zip_list_from(given), ZipList::Listed(_)));
}

#[test]
fn zip_list_from_a_read_that_failed() {
    let read = serde_json::from_str::<Vec<String>>("[1]");
    assert!(read.is_err());
    assert!(matches!(zip_list_from(read), ZipList::Malformed));
}

#[test]
fn into_filter_of_each_kind() {
    assert!(ZipList::NoFile.into_filter().is_empty());
    assert!(ZipList::Malformed.into_filter().is_empty());
    assert_eq!(ZipList::Listed(vec!["9".to_string()]).into_filter(), vec!["9".to_string()]);
}

#[test]
fn endpoint_puts_the_region_in_upper_case() {
    assert_eq!(endpoint_url("ca"), "https://www.vaccinespotter.org/api/v0/states/CA.json");
    assert_eq!(endpoint_url("Mn"), "https://www.vaccinespotter.org/api/v0/states/MN.json");
    assert_eq!(endpoint_url("NY"), "https://www.vaccinespotter.org/api/v0/states/NY.json");
}

#[test]
fn code_endpoint_takes_the_code_as_it_is() {
    assert_eq!(code_endpoint("CA"), "https://www.vaccinespotter.org/api/v0/states/CA.json");
    assert_eq!(code_endpoint("ca"), "https://www.vaccinespotter.org/api/v0/states/ca.json");
    assert_eq!(code_endpoint(""), "https://www.vaccinespotter.org/api/v0/states/.json");
}
