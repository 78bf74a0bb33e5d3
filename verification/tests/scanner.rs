use light_poller::error::RunError;
use light_poller::scanner::{find_light, inspect, name_matches, Advertisement};
use light_poller::text::contains_text;

fn named(name: &str) -> Advertisement {
    Advertisement::Received { local_name: Some(name.to_string()) }
}

fn nameless() -> Advertisement {
    Advertisement::Received { local_name: None }
}

#[test]
fn substring_is_found_anywhere_in_the_text() {
    assert!(contains_text("choicemmed-1234", "choicemmed"));
    assert!(contains_text("my choicemmed", "choicemmed"));
    assert!(contains_text("a choicemmed b", "choicemmed"));
    assert!(contains_text("choicemmed", "choicemmed"));
}

#[test]
fn substring_is_not_found_where_it_is_absent() {
    assert!(!contains_text("otherdevice", "choicemmed"));
    assert!(!contains_text("choicemme", "choicemmed"));
    assert!(!contains_text("choice mmed", "choicemmed"));
    assert!(!contains_text("", "choicemmed"));
}

#[test]
fn empty_text_stands_in_every_text() {
    assert!(contains_text("anything", ""));
    assert!(contains_text("", ""));
}

#[test]
fn substring_search_counts_characters_not_bytes() {
    assert!(contains_text("gerät-ü1", "ät-ü"));
    assert!(!contains_text("gerat", "ä"));
    assert!(contains_text("灯光choicemmed", "choicemmed"));
}

#[test]
fn name_matching_ignores_the_case_of_the_advertised_name() {
    assert!(name_matches("ChoiceMMedLight", "choicemmed"));
    assert!(name_matches("CHOICEMMED", "choicemmed"));
    assert!(name_matches("choicemmed", "choicemmed"));
}

#[test]
fn name_matching_takes_the_target_as_it_stands() {
    assert!(!name_matches("ChoiceMMed", "ChoiceMMed"));
    assert!(!name_matches("choicemmed", "CHOICEMMED"));
}

#[test]
fn name_matching_rejects_other_names() {
    assert!(!name_matches("OtherDevice", "choicemmed"));
    assert!(!name_matches("", "choicemmed"));
}

#[test]
fn inspect_tells_the_three_kinds_of_advertisement_apart() {
    assert_eq!(inspect(&named("ChoiceMMed-1234"), "choicemmed"), Ok(true));
    assert_eq!(inspect(&named("OtherDevice"), "choicemmed"), Ok(false));
    assert_eq!(inspect(&nameless(), "choicemmed"), Ok(false));
    assert_eq!(inspect(&nameless(), ""), Ok(false));
    assert_eq!(inspect(&Advertisement::Unavailable, "choicemmed"), Err(RunError::ScanProperty));
}

#[test]
fn find_light_returns_the_first_match() {
    let advertisements = vec![
        named("OtherDevice"),
        named("ChoiceMMed-1234"),
        named("choicemmed-5678"),
    ];
    assert_eq!(find_light(&advertisements, "choicemmed"), Ok(Some(1)));
}

#[test]
fn find_light_returns_none_without_a_match() {
    let advertisements = vec![named("OtherDevice"), nameless(), named("Lamp")];
    assert_eq!(find_light(&advertisements, "choicemmed"), Ok(None));
}

#[test]
fn find_light_returns_none_on_an_empty_list() {
    let advertisements: Vec<Advertisement> = Vec::new();
    assert_eq!(find_light(&advertisements, "choicemmed"), Ok(None));
}

#[test]
fn find_light_fails_on_unavailable_properties_before_a_match() {
    let advertisements = vec![
        named("OtherDevice"),
        Advertisement::Unavailable,
        named("ChoiceMMed-1234"),
    ];
    assert_eq!(find_light(&advertisements, "choicemmed"), Err(RunError::ScanProperty));
}

#[test]
fn find_light_does_not_look_past_the_first_match() {
    let advertisements = vec![
        named("ChoiceMMed-1234"),
        Advertisement::Unavailable,
    ];
    assert_eq!(find_light(&advertisements, "choicemmed"), Ok(Some(0)));
}

#[test]
fn find_light_skips_peripherals_without_a_name() {
    let advertisements = vec![nameless(), named("xChoiceMMedx")];
    assert_eq!(find_light(&advertisements, "choicemmed"), Ok(Some(1)));
}
