use passctl::controller::{copy_fetched, App, InputField, Modal};
use passctl::entry::Entry;

fn entry(id: &str) -> Entry {
    Entry { identifier: id.to_string(), last_modified: None }
}

fn loaded_app() -> App {
    let mut app = App::new();
    app.load_index(vec![entry("email/work"), entry("email/personal"), entry("bank/checking")]);
    app
}

fn shown(app: &App) -> Vec<String> {
    app.results.iter().map(|e| e.identifier.clone()).collect()
}

#[test]
fn delete_needs_confirmation_and_removes_entry_from_list() {
    let mut app = loaded_app();
    app.down();
    assert_eq!(app.cursor, 1);

    app.delete();
    assert!(matches!(app.modal, Modal::DeleteConfirm { .. }));
    // nothing left the list yet: the destructive call waits for "Yes"
    assert_eq!(shown(&app).len(), 3);

    let target = app.do_delete().expect("a delete was awaiting confirmation");
    assert_eq!(target, "email/personal");
    app.delete_done(Ok(()));

    assert!(matches!(app.modal, Modal::Idle));
    assert_eq!(shown(&app), vec!["email/work".to_string(), "bank/checking".to_string()]);
    assert!(!shown(&app).contains(&"email/personal".to_string()));
}

#[test]
fn repeated_delete_of_absent_entry_is_a_no_op() {
    let mut app = loaded_app();
    app.delete();
    let target = app.do_delete().unwrap();
    assert_eq!(target, "email/work");
    app.delete_done(Ok(()));
    assert_eq!(shown(&app).len(), 2);

    // the entry is gone; a second removal of the same identifier
    // changes nothing
    app.on_event(Some(passctl::entry::ChangeEvent::EntryRemoved("email/work".to_string())));
    assert_eq!(shown(&app), vec!["email/personal".to_string(), "bank/checking".to_string()]);
}

#[test]
fn cancelled_delete_mutates_nothing() {
    let mut app = loaded_app();
    app.delete();
    assert!(matches!(app.modal, Modal::DeleteConfirm { .. }));
    app.cancel();
    assert!(matches!(app.modal, Modal::Idle));
    assert_eq!(shown(&app).len(), 3);
    // after the dismissal no delete is awaiting confirmation
    assert!(app.do_delete().is_none());
}

#[test]
fn failed_delete_keeps_list_and_surfaces_error() {
    let mut app = loaded_app();
    app.delete();
    assert!(app.do_delete().is_some());
    app.delete_done(Err("delete failed".to_string()));
    assert_eq!(shown(&app).len(), 3);
    assert_eq!(app.errors, vec!["delete failed".to_string()]);
    assert!(matches!(app.modal, Modal::Idle));
}

#[test]
fn create_rejects_empty_identifier() {
    let mut app = loaded_app();
    app.create();
    assert!(matches!(app.modal, Modal::Create { .. }));
    app.input(InputField::NewPasswordInput, "hunter2".to_string());
    // identifier still empty: no store call, prompt stays open
    assert!(app.create_save().is_none());
    assert!(matches!(app.modal, Modal::Create { .. }));
}

#[test]
fn create_rejects_empty_secret() {
    let mut app = loaded_app();
    app.create();
    app.input(InputField::NewPathInput, "web/shop".to_string());
    assert!(app.create_save().is_none());
    assert!(matches!(app.modal, Modal::Create { .. }));
}

#[test]
fn create_with_both_fields_commits_and_shows_entry() {
    let mut app = loaded_app();
    app.create();
    app.input(InputField::NewPathInput, "web/shop".to_string());
    app.input(InputField::NewPasswordInput, "hunter2".to_string());
    let (path, secret) = app.create_save().expect("both fields are filled");
    assert_eq!(path, "web/shop");
    assert_eq!(secret, "hunter2");
    app.create_done(path, Ok(()));
    assert!(matches!(app.modal, Modal::Idle));
    assert!(shown(&app).contains(&"web/shop".to_string()));
}

#[test]
fn failed_create_keeps_prompt_open_for_retry() {
    let mut app = loaded_app();
    app.create();
    app.input(InputField::NewPathInput, "web/shop".to_string());
    app.input(InputField::NewPasswordInput, "hunter2".to_string());
    let (path, _secret) = app.create_save().unwrap();
    app.create_done(path, Err("store rejected the file".to_string()));
    assert!(matches!(app.modal, Modal::Create { .. }));
    assert_eq!(app.errors, vec!["store rejected the file".to_string()]);
    assert!(!shown(&app).contains(&"web/shop".to_string()));
}

#[test]
fn open_generate_save_updates_once_with_generated_secret() {
    let mut app = loaded_app();
    app.down();
    app.down();
    let mut updates: Vec<(String, String)> = Vec::new();

    let target = app.open().expect("an entry is selected");
    assert_eq!(target, "bank/checking");
    app.open_fetched(target, Ok("old-secret".to_string()));
    assert!(matches!(app.modal, Modal::Edit { .. }));

    let wanted = app.generate().expect("the edit dialog is open");
    assert_eq!(wanted, 24);
    let fresh: String = "q".repeat(wanted);
    app.generated(fresh.clone());

    if let Some((identifier, secret)) = app.save() {
        updates.push((identifier, secret));
        app.update_done(Ok(()));
    }

    assert_eq!(updates.len(), 1);
    assert_eq!(updates[0].0, "bank/checking");
    assert_eq!(updates[0].1, fresh);
    assert_eq!(updates[0].1.chars().count(), 24);
    assert!(matches!(app.modal, Modal::Idle));
}

#[test]
fn open_generate_cancel_updates_nothing() {
    let mut app = loaded_app();
    app.down();
    app.down();
    let mut updates: Vec<(String, String)> = Vec::new();

    let target = app.open().unwrap();
    app.open_fetched(target, Ok("old-secret".to_string()));
    let wanted = app.generate().unwrap();
    app.generated("w".repeat(wanted));
    app.cancel();

    if let Some(pair) = app.save() {
        updates.push(pair);
    }
    assert_eq!(updates.len(), 0);
    assert!(matches!(app.modal, Modal::Idle));
}

#[test]
fn open_aborts_with_error_when_decryption_fails() {
    let mut app = loaded_app();
    let target = app.open().unwrap();
    app.open_fetched(target, Err("gpg: decryption failed".to_string()));
    assert!(matches!(app.modal, Modal::Idle));
    assert_eq!(app.errors, vec!["gpg: decryption failed".to_string()]);
    assert!(app.save().is_none());
}

#[test]
fn failed_update_surfaces_error_and_ends_workflow() {
    let mut app = loaded_app();
    let target = app.open().unwrap();
    app.open_fetched(target, Ok("old".to_string()));
    app.input(InputField::EditBox, "new".to_string());
    let (identifier, secret) = app.save().unwrap();
    assert_eq!(identifier, "email/work");
    assert_eq!(secret, "new");
    app.update_done(Err("write failed".to_string()));
    assert!(matches!(app.modal, Modal::Idle));
    assert_eq!(app.errors, vec!["write failed".to_string()]);
}

#[test]
fn open_requires_a_selection() {
    let mut app = App::new();
    assert!(app.open().is_none());
    app.load_index(vec![entry("solo")]);
    app.input(InputField::SearchBox, "nothing-matches-this".to_string());
    assert!(app.open().is_none());
}

#[test]
fn copy_hands_over_the_selected_identifier() {
    let app = loaded_app();
    assert_eq!(app.copy(), Some("email/work".to_string()));
    let empty = App::new();
    assert_eq!(empty.copy(), None);
}

#[test]
fn copy_of_undecryptable_secret_is_a_silent_no_op() {
    assert_eq!(copy_fetched(Ok("s3cret".to_string())), Some("s3cret".to_string()));
    assert_eq!(copy_fetched(Err("gpg failure".to_string())), None);
}

#[test]
fn generate_is_refused_outside_edit_and_create() {
    let app = loaded_app();
    assert!(app.generate().is_none());
}
