use birdie::text::{clone_strings, contains_one_of, first_containing, lowercase_all};

fn strings(items: &[&str]) -> Vec<String> {
    items.iter().map(|s| s.to_string()).collect()
}

#[test]
fn lowercase_all_lowers_each_string() {
    assert_eq!(
        lowercase_all(&strings(&["Google Meet", "TEAMS", "reunión", "ÉCOLE", ""])),
        strings(&["google meet", "teams", "reunión", "école", ""])
    );
    assert!(lowercase_all(&Vec::new()).is_empty());
}

#[test]
fn first_containing_finds_the_first_text_from_the_start_given() {
    let names = strings(&["google meet", "microsoft teams", "discord", "google chat"]);
    assert_eq!(first_containing(&names, "teams", 0), Some(1));
    assert_eq!(first_containing(&names, "google", 0), Some(0));
    assert_eq!(first_containing(&names, "google", 1), Some(3));
    assert_eq!(first_containing(&names, "google", 3), Some(3));
    assert_eq!(first_containing(&names, "google", 4), None);
    assert_eq!(first_containing(&names, "google", 9), None);
    assert_eq!(first_containing(&names, "", 2), Some(2));
    assert_eq!(first_containing(&names, "zoom", 0), None);
    assert_eq!(first_containing(&Vec::new(), "", 0), None);
}

#[test]
fn first_containing_compares_the_texts_as_they_are() {
    let names = strings(&["Google Meet", "Microsoft Teams"]);
    assert_eq!(first_containing(&names, "teams", 0), None);
    assert_eq!(first_containing(&names, "Teams", 0), Some(1));
}

#[test]
fn contains_one_of_looks_for_each_needle() {
    let needles = strings(&["teams", "microsoft teams"]);
    assert!(contains_one_of("chat | microsoft teams", &needles));
    assert!(contains_one_of("teams", &needles));
    assert!(!contains_one_of("team", &needles));
    assert!(!contains_one_of("TEAMS", &needles));
    assert!(!contains_one_of("teams", &Vec::new()));
    assert!(contains_one_of("anything", &strings(&["zoom", ""])));
}

#[test]
fn clone_strings_copies_each_string() {
    let items = strings(&["Meet", "Google Meet"]);
    assert_eq!(clone_strings(&items), items);
    assert!(clone_strings(&Vec::new()).is_empty());
}
