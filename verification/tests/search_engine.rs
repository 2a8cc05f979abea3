use passctl::entry::Entry;
use passctl::search::search;

fn entry(id: &str) -> Entry {
    Entry { identifier: id.to_string(), last_modified: None }
}

fn snapshot() -> Vec<Entry> {
    vec![entry("email/work"), entry("email/personal"), entry("bank/checking")]
}

fn identifiers(list: &[Entry]) -> Vec<String> {
    list.iter().map(|e| e.identifier.clone()).collect()
}

#[test]
fn query_email_returns_both_email_entries_in_order() {
    let index = snapshot();
    let r = search(&index, &"email".to_string());
    assert_eq!(identifiers(&r), vec!["email/work".to_string(), "email/personal".to_string()]);
}

#[test]
fn query_is_case_insensitive() {
    let index = snapshot();
    let r = search(&index, &"EMAIL".to_string());
    assert_eq!(identifiers(&r), vec!["email/work".to_string(), "email/personal".to_string()]);
    let r = search(&index, &"Email".to_string());
    assert_eq!(identifiers(&r), vec!["email/work".to_string(), "email/personal".to_string()]);
    let r = search(&index, &"BANK".to_string());
    assert_eq!(identifiers(&r), vec!["bank/checking".to_string()]);
}

#[test]
fn query_without_match_returns_empty_list() {
    let index = snapshot();
    let r = search(&index, &"xyz".to_string());
    assert!(r.is_empty());
}

#[test]
fn empty_query_returns_whole_snapshot() {
    let index = snapshot();
    let r = search(&index, &String::new());
    assert_eq!(identifiers(&r), identifiers(&index));
}

#[test]
fn empty_snapshot_yields_empty_result() {
    let index: Vec<Entry> = Vec::new();
    let r = search(&index, &"anything".to_string());
    assert!(r.is_empty());
    let r = search(&index, &String::new());
    assert!(r.is_empty());
}

#[test]
fn result_is_subset_preserving_relative_order() {
    let index = vec![
        entry("a/key"),
        entry("b/other"),
        entry("c/key2"),
        entry("d/unrelated"),
        entry("e/KEY3"),
    ];
    let r = search(&index, &"key".to_string());
    assert_eq!(
        identifiers(&r),
        vec!["a/key".to_string(), "c/key2".to_string(), "e/KEY3".to_string()]
    );
    // every result comes from the snapshot
    for e in &r {
        assert!(index.iter().any(|x| x.identifier == e.identifier));
    }
}

#[test]
fn search_is_deterministic() {
    let index = snapshot();
    let q = "e".to_string();
    let r1 = search(&index, &q);
    let r2 = search(&index, &q);
    assert_eq!(identifiers(&r1), identifiers(&r2));
    assert_eq!(r1.len(), r2.len());
}

#[test]
fn search_does_not_change_its_inputs() {
    let index = snapshot();
    let q = "email".to_string();
    let _ = search(&index, &q);
    assert_eq!(identifiers(&index).len(), 3);
    assert_eq!(q, "email");
}

#[test]
fn substring_matches_anywhere_in_identifier() {
    let index = snapshot();
    let r = search(&index, &"check".to_string());
    assert_eq!(identifiers(&r), vec!["bank/checking".to_string()]);
    let r = search(&index, &"/".to_string());
    assert_eq!(r.len(), 3);
    let r = search(&index, &"email/work".to_string());
    assert_eq!(identifiers(&r), vec!["email/work".to_string()]);
}
