use passctl::controller::{App, InputField, Modal};
use passctl::entry::{ChangeEvent, Entry};

fn entry(id: &str) -> Entry {
    Entry { identifier: id.to_string(), last_modified: None }
}

fn stamped(id: &str, t: u64) -> Entry {
    Entry { identifier: id.to_string(), last_modified: Some(t) }
}

fn shown(app: &App) -> Vec<String> {
    app.results.iter().map(|e| e.identifier.clone()).collect()
}

#[test]
fn quiet_tick_changes_nothing() {
    let mut app = App::new();
    app.load_index(vec![entry("a"), entry("b")]);
    app.on_event(None);
    assert_eq!(shown(&app), vec!["a".to_string(), "b".to_string()]);
    assert!(app.errors.is_empty());
}

#[test]
fn watcher_error_keeps_last_good_snapshot() {
    let mut app = App::new();
    app.load_index(vec![entry("a"), entry("b")]);
    app.on_event(Some(ChangeEvent::WatchFailed("inotify overflow".to_string())));
    assert_eq!(shown(&app), vec!["a".to_string(), "b".to_string()]);
    assert_eq!(app.errors, vec!["inotify overflow".to_string()]);
}

#[test]
fn external_add_appears_in_the_list() {
    let mut app = App::new();
    app.load_index(vec![entry("a")]);
    app.on_event(Some(ChangeEvent::EntryAdded(entry("b"))));
    assert_eq!(shown(&app), vec!["a".to_string(), "b".to_string()]);
}

#[test]
fn re_reported_add_merges_without_duplicate() {
    let mut app = App::new();
    app.load_index(vec![entry("a")]);
    app.on_event(Some(ChangeEvent::EntryAdded(entry("b"))));
    app.on_event(Some(ChangeEvent::EntryAdded(entry("b"))));
    assert_eq!(shown(&app), vec!["a".to_string(), "b".to_string()]);
}

#[test]
fn external_change_replaces_metadata_in_place() {
    let mut app = App::new();
    app.load_index(vec![entry("a"), entry("b")]);
    app.on_event(Some(ChangeEvent::EntryChanged(stamped("a", 1700000000))));
    assert_eq!(shown(&app), vec!["a".to_string(), "b".to_string()]);
    assert_eq!(app.results[0].last_modified, Some(1700000000));
}

#[test]
fn external_removal_leaves_the_list_without_the_entry() {
    let mut app = App::new();
    app.load_index(vec![entry("a"), entry("b"), entry("c")]);
    app.down();
    app.down();
    app.on_event(Some(ChangeEvent::EntryRemoved("c".to_string())));
    assert_eq!(shown(&app), vec!["a".to_string(), "b".to_string()]);
    // the cursor is clamped back into the shrunk list
    assert_eq!(app.cursor, 1);
}

#[test]
fn load_index_merges_repeated_identifiers() {
    let mut app = App::new();
    app.load_index(vec![entry("a"), stamped("a", 42), entry("b")]);
    assert_eq!(shown(&app), vec!["a".to_string(), "b".to_string()]);
    assert_eq!(app.results[0].last_modified, Some(42));
}

#[test]
fn query_edit_filters_and_resets_selection() {
    let mut app = App::new();
    app.load_index(vec![entry("email/work"), entry("bank/checking")]);
    app.down();
    assert_eq!(app.cursor, 1);
    app.input(InputField::SearchBox, "bank".to_string());
    assert_eq!(shown(&app), vec!["bank/checking".to_string()]);
    assert_eq!(app.cursor, 0);
    assert_eq!(app.get_value_from_input(InputField::SearchBox), Some("bank".to_string()));
    // clearing the query brings the whole snapshot back
    app.input(InputField::SearchBox, String::new());
    assert_eq!(shown(&app).len(), 2);
}

#[test]
fn cursor_clamps_at_both_ends() {
    let mut app = App::new();
    app.load_index(vec![entry("a"), entry("b")]);
    app.up();
    assert_eq!(app.cursor, 0);
    app.down();
    app.down();
    assert_eq!(app.cursor, 1);
    app.down();
    assert_eq!(app.cursor, 1);
}

#[test]
fn errors_stack_and_dismiss_in_order() {
    let mut app = App::new();
    app.errorbox("first".to_string());
    app.errorbox("second".to_string());
    assert_eq!(app.errors, vec!["first".to_string(), "second".to_string()]);
    app.dismiss_error();
    assert_eq!(app.errors, vec!["first".to_string()]);
    app.dismiss_error();
    assert!(app.errors.is_empty());
    app.dismiss_error();
    assert!(app.errors.is_empty());
}

#[test]
fn dialog_fields_answer_only_while_their_dialog_is_open() {
    let mut app = App::new();
    assert_eq!(app.get_value_from_input(InputField::EditBox), None);
    assert_eq!(app.get_value_from_input(InputField::NewPathInput), None);
    assert_eq!(app.get_value_from_input(InputField::NewPasswordInput), None);
    assert_eq!(app.get_value_from_input(InputField::KeyIdInput), None);
    app.create();
    app.input(InputField::NewPathInput, "p".to_string());
    app.input(InputField::NewPasswordInput, "s".to_string());
    assert_eq!(app.get_value_from_input(InputField::NewPathInput), Some("p".to_string()));
    assert_eq!(app.get_value_from_input(InputField::NewPasswordInput), Some("s".to_string()));
    // text for a closed dialog is dropped
    app.cancel();
    assert!(matches!(app.modal, Modal::Idle));
    app.input(InputField::EditBox, "ignored".to_string());
    assert!(matches!(app.modal, Modal::Idle));
}

#[test]
fn workflows_do_not_stack() {
    let mut app = App::new();
    app.load_index(vec![entry("a")]);
    app.create();
    assert!(matches!(app.modal, Modal::Create { .. }));
    // a second workflow cannot open over the first
    app.delete();
    assert!(matches!(app.modal, Modal::Create { .. }));
    assert!(app.open().is_none());
    app.view_signers(vec![]);
    assert!(matches!(app.modal, Modal::Create { .. }));
}

#[test]
fn change_event_for_unknown_entry_adds_it() {
    let mut app = App::new();
    app.load_index(vec![entry("a")]);
    app.on_event(Some(ChangeEvent::EntryChanged(stamped("new/one", 7))));
    assert_eq!(shown(&app), vec!["a".to_string(), "new/one".to_string()]);
}

#[test]
fn delete_with_empty_list_does_nothing() {
    let mut app = App::new();
    app.delete();
    assert!(matches!(app.modal, Modal::Idle));
    assert!(app.do_delete().is_none());
}
