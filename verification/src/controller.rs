//! The interactive controller: one value that owns all mutable state of
//! the session — the index snapshot, the query, the filtered results,
//! the cursor, the workflow in progress and the error surface — and one
//! method per operator action.
//!
//! Store and clipboard calls are performed by the surrounding program:
//! a method either returns the plain values such a call needs, or takes
//! the call's outcome as an argument. Every state change in between is
//! verified, so no workflow can leave the view inconsistent, whatever
//! the collaborators answer.

use vstd::prelude::*;
use crate::entry::{ChangeEvent, Entry, Signer};
use crate::index::{
    has_id, lemma_remove_unique, lemma_upsert_unique, remove_entry, spec_load, spec_remove,
    spec_upsert, unique_ids, upsert_entry,
};
use crate::search::{search, spec_search};
use crate::signers::{remove_signer, spec_remove_signer};

verus! {

/// The length of a freshly generated secret.
pub const GENERATED_SECRET_LEN: usize = 24;

/// The workflow the operator is in the middle of, if any. Each one is
/// a short-lived state machine that ends back in `Idle`.
#[derive(Debug)]
pub enum Modal {
    /// No workflow in progress.
    Idle,
    /// Waiting for the operator to confirm the delete of this entry.
    DeleteConfirm { identifier: String },
    /// The open/edit dialog: the entry being edited and the secret
    /// buffer as currently displayed.
    Edit { identifier: String, buffer: String },
    /// The create prompt with its two input fields.
    Create { path: String, secret: String },
    /// The signer management dialog: the displayed signer set, the
    /// cursor into it, and the sub-workflow in progress.
    Signers { signers: Vec<Signer>, cursor: usize, sub: SignerModal },
}

/// The sub-workflow inside the signer dialog.
#[derive(Debug)]
pub enum SignerModal {
    /// Browsing the signer list.
    Browsing,
    /// Waiting for the operator to confirm removal of the selected
    /// signer.
    RemoveConfirm,
    /// The add prompt with its key-identifier field.
    AddPrompt { key_id: String },
}

/// The named input fields of the interactive surface.
#[derive(Clone, Copy, Debug)]
pub enum InputField {
    SearchBox,
    EditBox,
    NewPathInput,
    NewPasswordInput,
    KeyIdInput,
}

/// A cursor clamped into a list of the given length: unchanged while it
/// fits, moved to the last position when the list shrank under it, and
/// zero on an empty list.
pub open spec fn spec_clamp(c: int, len: int) -> int {
    if len == 0 {
        0
    } else if c < len {
        c
    } else {
        len - 1
    }
}

fn clamp(c: usize, len: usize) -> (r: usize)
    ensures
        r as int == spec_clamp(c as int, len as int),
{
    if len == 0 {
        0
    } else if c < len {
        c
    } else {
        len - 1
    }
}

/// The controller state.
pub struct App {
    /// The current index snapshot: identifiers and metadata, never
    /// secrets.
    pub index: Vec<Entry>,
    /// The search box content.
    pub query: String,
    /// The filtered result list the operator sees.
    pub results: Vec<Entry>,
    /// The cursor into `results`.
    pub cursor: usize,
    /// The workflow in progress.
    pub modal: Modal,
    /// The dismissible error surface, oldest first.
    pub errors: Vec<String>,
}

impl App {
    /// The controller's invariant: identifiers are unique in the
    /// snapshot, the result list is exactly the search of the snapshot
    /// for the current query, and every cursor points into its list.
    pub open spec fn wf(self) -> bool {
        &&& unique_ids(self.index@)
        &&& self.results@ == spec_search(self.index@, self.query@)
        &&& (if self.results@.len() == 0 {
            self.cursor == 0
        } else {
            self.cursor < self.results@.len()
        })
        &&& (self.modal matches Modal::Signers { signers, cursor, .. } ==> (if signers@.len()
            == 0 {
            cursor == 0
        } else {
            cursor < signers@.len()
        }))
    }

    /// A fresh controller: empty snapshot, empty query, nothing
    /// selected, no workflow, no errors.
    pub fn new() -> (a: App)
        ensures
            a.wf(),
            a.index@.len() == 0,
            a.query@.len() == 0,
            a.results@.len() == 0,
            a.cursor == 0,
            a.modal is Idle,
            a.errors@.len() == 0,
    {
        let a = App {
            index: Vec::new(),
            query: String::new(),
            results: Vec::new(),
            cursor: 0,
            modal: Modal::Idle,
            errors: Vec::new(),
        };
        proof {
            reveal(Seq::filter);
        }
        a
    }

    /// Replaces the snapshot wholesale, as the store hands it over at
    /// start-up. Entries repeating an identifier are merged, so the
    /// snapshot invariant holds whatever was handed in; a list without
    /// repetitions is taken as it is.
    pub fn load_index(&mut self, entries: Vec<Entry>)
        requires
            old(self).wf(),
        ensures
            final(self).wf(),
            final(self).index@ == spec_load(entries@),
            unique_ids(entries@) ==> final(self).index@ == entries@,
            final(self).query == old(self).query,
            final(self).modal == old(self).modal,
            final(self).errors == old(self).errors,
            final(self).results@ == spec_search(final(self).index@, old(self).query@),
            final(self).cursor == 0,
    {
        let mut index: Vec<Entry> = Vec::new();
        let mut i: usize = 0;
        while i < entries.len()
            invariant
                i <= entries@.len(),
                unique_ids(index@),
                index@ == spec_load(entries@.subrange(0, i as int)),
                unique_ids(entries@) ==> index@ == entries@.subrange(0, i as int),
            decreases entries@.len() - i,
        {
            let next = upsert_entry(&index, &entries[i]);
            proof {
                lemma_upsert_unique(index@, entries@[i as int]);
                assert(entries@.subrange(0, (i + 1) as int).drop_last() =~= entries@.subrange(
                    0,
                    i as int,
                ));
                assert(entries@.subrange(0, (i + 1) as int).last() == entries@[i as int]);
                if unique_ids(entries@) {
                    assert forall|k: int| 0 <= k < i implies #[trigger] index@[k].identifier@
                        != entries@[i as int].identifier@ by {
                        assert(index@[k] == entries@[k]);
                    }
                    assert(!has_id(index@, entries@[i as int].identifier@));
                    assert(entries@.subrange(0, (i + 1) as int) =~= entries@.subrange(
                        0,
                        i as int,
                    ).push(entries@[i as int]));
                }
            }
            index = next;
            i = i + 1;
        }
        proof {
            assert(entries@.subrange(0, entries@.len() as int) =~= entries@);
        }
        self.index = index;
        self.results = search(&self.index, &self.query);
        self.cursor = 0;
    }

    /// Moves the selection one result down, staying on the last result
    /// when already there.
    pub fn down(&mut self)
        requires
            old(self).wf(),
        ensures
            final(self).wf(),
            final(self).cursor == (if old(self).cursor + 1 < old(self).results@.len() {
                old(self).cursor + 1
            } else {
                old(self).cursor as int
            }),
            final(self).index == old(self).index,
            final(self).query == old(self).query,
            final(self).results == old(self).results,
            final(self).modal == old(self).modal,
            final(self).errors == old(self).errors,
    {
        let len = self.results.len();
        if len > 0 && self.cursor < len - 1 {
            self.cursor = self.cursor + 1;
        }
    }

    /// Moves the selection one result up, staying on the first result
    /// when already there.
    pub fn up(&mut self)
        requires
            old(self).wf(),
        ensures
            final(self).wf(),
            final(self).cursor == (if old(self).cursor > 0 {
                old(self).cursor - 1
            } else {
                0
            }),
            final(self).index == old(self).index,
            final(self).query == old(self).query,
            final(self).results == old(self).results,
            final(self).modal == old(self).modal,
            final(self).errors == old(self).errors,
    {
        if self.cursor > 0 {
            self.cursor = self.cursor - 1;
        }
    }

    /// Surfaces a recoverable error to the operator without touching
    /// any other state.
    pub fn errorbox(&mut self, message: String)
        requires
            old(self).wf(),
        ensures
            final(self).wf(),
            final(self).errors@ == old(self).errors@.push(message),
            final(self).index == old(self).index,
            final(self).query == old(self).query,
            final(self).results == old(self).results,
            final(self).cursor == old(self).cursor,
            final(self).modal == old(self).modal,
    {
        self.errors.push(message);
    }

    /// Dismisses the most recent error, if any.
    pub fn dismiss_error(&mut self)
        requires
            old(self).wf(),
        ensures
            final(self).wf(),
            final(self).errors@ == (if old(self).errors@.len() > 0 {
                old(self).errors@.drop_last()
            } else {
                old(self).errors@
            }),
            final(self).index == old(self).index,
            final(self).query == old(self).query,
            final(self).results == old(self).results,
            final(self).cursor == old(self).cursor,
            final(self).modal == old(self).modal,
    {
        if self.errors.len() > 0 {
            self.errors.pop();
        }
    }

    /// The identifier whose secret should be fetched and placed on the
    /// clipboard: the selected entry's, or nothing when the result list
    /// is empty.
    pub fn copy(&self) -> (r: Option<String>)
        requires
            self.wf(),
        ensures
            r == (if self.results@.len() > 0 {
                Some(self.results@[self.cursor as int].identifier)
            } else {
                None::<String>
            }),
    {
        if self.results.len() > 0 {
            Some(self.results[self.cursor].identifier.clone())
        } else {
            None
        }
    }
}

/// What reaches the clipboard once the store has answered a copy
/// request: the decrypted secret on success, and nothing at all on a
/// decryption failure — a failed copy is a silent no-op.
pub fn copy_fetched(fetched: Result<String, String>) -> (r: Option<String>)
    ensures
        r == (match fetched {
            Ok(secret) => Some(secret),
            Err(_) => None::<String>,
        }),
{
    match fetched {
        Ok(secret) => Some(secret),
        Err(_) => None,
    }
}

impl App {
    /// Starts the delete workflow: with a selected entry and no other
    /// workflow open, asks the operator to confirm the delete of that
    /// entry. The destructive store call is never requested before
    /// `do_delete` sees the confirmation.
    pub fn delete(&mut self)
        requires
            old(self).wf(),
        ensures
            final(self).wf(),
            final(self).modal == (if old(self).modal is Idle && old(self).results@.len() > 0 {
                (Modal::DeleteConfirm {
                    identifier: old(self).results@[old(self).cursor as int].identifier,
                })
            } else {
                old(self).modal
            }),
            final(self).index == old(self).index,
            final(self).query == old(self).query,
            final(self).results == old(self).results,
            final(self).cursor == old(self).cursor,
            final(self).errors == old(self).errors,
    {
        let idle = match self.modal {
            Modal::Idle => true,
            _ => false,
        };
        if idle && self.results.len() > 0 {
            let identifier = self.results[self.cursor].identifier.clone();
            self.modal = Modal::DeleteConfirm { identifier };
        }
    }

    /// The operator answered "Yes" to the delete confirmation: the
    /// identifier whose file the store should now delete, or nothing
    /// when no delete was awaiting confirmation.
    pub fn do_delete(&self) -> (r: Option<String>)
        requires
            self.wf(),
        ensures
            r == (match self.modal {
                Modal::DeleteConfirm { identifier } => Some(identifier),
                _ => None::<String>,
            }),
    {
        match &self.modal {
            Modal::DeleteConfirm { identifier } => Some(identifier.clone()),
            _ => None,
        }
    }

    /// The store answered the delete request. On success the entry
    /// leaves the snapshot and the visible list immediately; on failure
    /// the error is surfaced and the last-good snapshot stays. Either
    /// way the workflow ends.
    pub fn delete_done(&mut self, outcome: Result<(), String>)
        requires
            old(self).wf(),
        ensures
            final(self).wf(),
            final(self).query == old(self).query,
            (match old(self).modal {
                Modal::DeleteConfirm { identifier } => {
                    &&& final(self).modal is Idle
                    &&& (match outcome {
                        Ok(_) => {
                            &&& final(self).index@ == spec_remove(old(self).index@, identifier@)
                            &&& final(self).results@ == spec_search(
                                final(self).index@,
                                old(self).query@,
                            )
                            &&& final(self).cursor == spec_clamp(
                                old(self).cursor as int,
                                final(self).results@.len() as int,
                            )
                            &&& final(self).errors == old(self).errors
                        },
                        Err(message) => {
                            &&& final(self).index == old(self).index
                            &&& final(self).results == old(self).results
                            &&& final(self).cursor == old(self).cursor
                            &&& final(self).errors@ == old(self).errors@.push(message)
                        },
                    })
                },
                _ => *final(self) == *old(self),
            }),
    {
        let target = match &self.modal {
            Modal::DeleteConfirm { identifier } => Some(identifier.clone()),
            _ => None,
        };
        match target {
            Some(identifier) => {
                self.modal = Modal::Idle;
                match outcome {
                    Ok(_) => {
                        proof {
                            lemma_remove_unique(self.index@, identifier@);
                        }
                        self.index = remove_entry(&self.index, &identifier);
                        self.results = search(&self.index, &self.query);
                        self.cursor = clamp(self.cursor, self.results.len());
                    },
                    Err(message) => {
                        self.errors.push(message);
                    },
                }
            },
            None => {},
        }
    }

    /// Starts the open/edit workflow: the identifier whose secret the
    /// store should decrypt, when an entry is selected and no workflow
    /// is open; nothing otherwise.
    pub fn open(&self) -> (r: Option<String>)
        requires
            self.wf(),
        ensures
            r == (if self.modal is Idle && self.results@.len() > 0 {
                Some(self.results@[self.cursor as int].identifier)
            } else {
                None::<String>
            }),
    {
        let idle = match self.modal {
            Modal::Idle => true,
            _ => false,
        };
        if idle && self.results.len() > 0 {
            Some(self.results[self.cursor].identifier.clone())
        } else {
            None
        }
    }

    /// The store answered the decrypt request that `open` asked for.
    /// On success the edit dialog opens with the secret in its buffer;
    /// on failure the workflow aborts with a surfaced error and no
    /// other state change.
    pub fn open_fetched(&mut self, identifier: String, fetched: Result<String, String>)
        requires
            old(self).wf(),
        ensures
            final(self).wf(),
            final(self).index == old(self).index,
            final(self).query == old(self).query,
            final(self).results == old(self).results,
            final(self).cursor == old(self).cursor,
            (if old(self).modal is Idle {
                match fetched {
                    Ok(secret) => {
                        &&& final(self).modal == (Modal::Edit { identifier, buffer: secret })
                        &&& final(self).errors == old(self).errors
                    },
                    Err(message) => {
                        &&& final(self).modal is Idle
                        &&& final(self).errors@ == old(self).errors@.push(message)
                    },
                }
            } else {
                *final(self) == *old(self)
            }),
    {
        let idle = match self.modal {
            Modal::Idle => true,
            _ => false,
        };
        if idle {
            match fetched {
                Ok(secret) => {
                    self.modal = Modal::Edit { identifier, buffer: secret };
                },
                Err(message) => {
                    self.errors.push(message);
                },
            }
        }
    }

    /// The operator pressed "Save" in the edit dialog: the identifier
    /// and the buffer content the store should now write, or nothing
    /// when no edit dialog is open.
    pub fn save(&self) -> (r: Option<(String, String)>)
        requires
            self.wf(),
        ensures
            r == (match self.modal {
                Modal::Edit { identifier, buffer } => Some((identifier, buffer)),
                _ => None::<(String, String)>,
            }),
    {
        match &self.modal {
            Modal::Edit { identifier, buffer } => Some((identifier.clone(), buffer.clone())),
            _ => None,
        }
    }

    /// The store answered the update that `save` asked for. The edit
    /// workflow ends either way; a failure is surfaced, and the prior
    /// secret stays authoritative in the store, so the snapshot is
    /// untouched.
    pub fn update_done(&mut self, outcome: Result<(), String>)
        requires
            old(self).wf(),
        ensures
            final(self).wf(),
            final(self).index == old(self).index,
            final(self).query == old(self).query,
            final(self).results == old(self).results,
            final(self).cursor == old(self).cursor,
            (if old(self).modal is Edit {
                &&& final(self).modal is Idle
                &&& final(self).errors@ == (match outcome {
                    Ok(_) => old(self).errors@,
                    Err(message) => old(self).errors@.push(message),
                })
            } else {
                *final(self) == *old(self)
            }),
    {
        let editing = match self.modal {
            Modal::Edit { .. } => true,
            _ => false,
        };
        if editing {
            self.modal = Modal::Idle;
            match outcome {
                Ok(_) => {},
                Err(message) => {
                    self.errors.push(message);
                },
            }
        }
    }

    /// The operator pressed "Generate": the length of the random
    /// secret the collaborator should produce, when an edit dialog or
    /// the create prompt is open to receive it.
    pub fn generate(&self) -> (r: Option<usize>)
        requires
            self.wf(),
        ensures
            r == (if self.modal is Edit || self.modal is Create {
                Some(GENERATED_SECRET_LEN)
            } else {
                None::<usize>
            }),
    {
        match &self.modal {
            Modal::Edit { .. } => Some(GENERATED_SECRET_LEN),
            Modal::Create { .. } => Some(GENERATED_SECRET_LEN),
            _ => None,
        }
    }

    /// The freshly generated secret arrives: it replaces the edit
    /// buffer, or the secret field of the create prompt. Nothing is
    /// committed before the operator saves.
    pub fn generated(&mut self, secret: String)
        requires
            old(self).wf(),
        ensures
            final(self).wf(),
            final(self).index == old(self).index,
            final(self).query == old(self).query,
            final(self).results == old(self).results,
            final(self).cursor == old(self).cursor,
            final(self).errors == old(self).errors,
            final(self).modal == (match old(self).modal {
                Modal::Edit { identifier, .. } => (Modal::Edit { identifier, buffer: secret }),
                Modal::Create { path, .. } => (Modal::Create { path, secret }),
                _ => old(self).modal,
            }),
    {
        let kept = match &self.modal {
            Modal::Edit { identifier, .. } => Some((true, identifier.clone())),
            Modal::Create { path, .. } => Some((false, path.clone())),
            _ => None,
        };
        match kept {
            Some((editing, name)) => {
                if editing {
                    self.modal = Modal::Edit { identifier: name, buffer: secret };
                } else {
                    self.modal = Modal::Create { path: name, secret };
                }
            },
            None => {},
        }
    }

    /// Opens the create prompt with both fields empty, when no other
    /// workflow is open.
    pub fn create(&mut self)
        requires
            old(self).wf(),
        ensures
            final(self).wf(),
            final(self).index == old(self).index,
            final(self).query == old(self).query,
            final(self).results == old(self).results,
            final(self).cursor == old(self).cursor,
            final(self).errors == old(self).errors,
            (if old(self).modal is Idle {
                final(self).modal matches Modal::Create { path, secret } && path@
                    == Seq::<char>::empty() && secret@ == Seq::<char>::empty()
            } else {
                final(self).modal == old(self).modal
            }),
    {
        let idle = match self.modal {
            Modal::Idle => true,
            _ => false,
        };
        if idle {
            self.modal = Modal::Create { path: String::new(), secret: String::new() };
        }
    }

    /// The operator pressed "Save" in the create prompt: the path and
    /// secret the store should write to a new password file — or
    /// nothing, with the prompt left open, when either field is empty.
    /// No store call ever happens for an empty identifier or secret.
    pub fn create_save(&self) -> (r: Option<(String, String)>)
        requires
            self.wf(),
        ensures
            r == (match self.modal {
                Modal::Create { path, secret } => if path@.len() > 0 && secret@.len() > 0 {
                    Some((path, secret))
                } else {
                    None::<(String, String)>
                },
                _ => None::<(String, String)>,
            }),
    {
        match &self.modal {
            Modal::Create { path, secret } => {
                if path.as_str().is_empty() || secret.as_str().is_empty() {
                    None
                } else {
                    Some((path.clone(), secret.clone()))
                }
            },
            _ => None,
        }
    }

    /// The store answered the create that `create_save` asked for. On
    /// success the prompt closes and the new entry appears in the
    /// visible list immediately (a later watcher report of the same
    /// entry merges without a duplicate); on failure the error is
    /// surfaced and the prompt stays open for retry.
    pub fn create_done(&mut self, path: String, outcome: Result<(), String>)
        requires
            old(self).wf(),
        ensures
            final(self).wf(),
            final(self).query == old(self).query,
            (if old(self).modal is Create {
                match outcome {
                    Ok(_) => {
                        &&& final(self).modal is Idle
                        &&& final(self).index@ == (if has_id(old(self).index@, path@) {
                            old(self).index@
                        } else {
                            old(self).index@.push(
                                Entry { identifier: path, last_modified: None },
                            )
                        })
                        &&& final(self).results@ == spec_search(
                            final(self).index@,
                            old(self).query@,
                        )
                        &&& final(self).cursor == spec_clamp(
                            old(self).cursor as int,
                            final(self).results@.len() as int,
                        )
                        &&& final(self).errors == old(self).errors
                    },
                    Err(message) => {
                        &&& final(self).modal == old(self).modal
                        &&& final(self).index == old(self).index
                        &&& final(self).results == old(self).results
                        &&& final(self).cursor == old(self).cursor
                        &&& final(self).errors@ == old(self).errors@.push(message)
                    },
                }
            } else {
                *final(self) == *old(self)
            }),
    {
        let creating = match self.modal {
            Modal::Create { .. } => true,
            _ => false,
        };
        if creating {
            match outcome {
                Ok(_) => {
                    self.modal = Modal::Idle;
                    if !crate::index::contains_entry(&self.index, &path) {
                        let entry = Entry { identifier: path, last_modified: None };
                        proof {
                            assert forall|i: int, j: int|
                                0 <= i < j < self.index@.push(entry).len() implies #[trigger] self
                                .index@.push(entry)[i].identifier@ != #[trigger] self.index@.push(
                                entry,
                            )[j].identifier@ by {
                                if j < self.index@.len() {
                                } else {
                                    assert(self.index@.push(entry)[i] == self.index@[i]);
                                }
                            }
                        }
                        self.index.push(entry);
                    }
                    self.results = search(&self.index, &self.query);
                    self.cursor = clamp(self.cursor, self.results.len());
                },
                Err(message) => {
                    self.errors.push(message);
                },
            }
        }
    }
}

fn clone_signers(v: &Vec<Signer>) -> (r: Vec<Signer>)
    ensures
        r@ == v@,
{
    let mut r: Vec<Signer> = Vec::new();
    let mut i: usize = 0;
    while i < v.len()
        invariant
            i <= v@.len(),
            r@ == v@.subrange(0, i as int),
        decreases v@.len() - i,
    {
        r.push(v[i].clone());
        proof {
            assert(v@.subrange(0, (i + 1) as int) =~= v@.subrange(0, i as int).push(v@[i as int]));
        }
        i = i + 1;
    }
    proof {
        assert(v@.subrange(0, v@.len() as int) =~= v@);
    }
    r
}

impl App {
    /// Opens the signer dialog over the signer set the store reported.
    /// The caller fetches that set fresh on every entry to the
    /// workflow, so trust changes are never shown stale.
    pub fn view_signers(&mut self, all: Vec<Signer>)
        requires
            old(self).wf(),
        ensures
            final(self).wf(),
            final(self).index == old(self).index,
            final(self).query == old(self).query,
            final(self).results == old(self).results,
            final(self).cursor == old(self).cursor,
            final(self).errors == old(self).errors,
            final(self).modal == (if old(self).modal is Idle {
                (Modal::Signers { signers: all, cursor: 0, sub: SignerModal::Browsing })
            } else {
                old(self).modal
            }),
    {
        let idle = match self.modal {
            Modal::Idle => true,
            _ => false,
        };
        if idle {
            self.modal = Modal::Signers { signers: all, cursor: 0, sub: SignerModal::Browsing };
        }
    }

    /// Moves the signer selection one row down, staying on the last
    /// row when already there.
    pub fn signer_down(&mut self)
        requires
            old(self).wf(),
        ensures
            final(self).wf(),
            final(self).index == old(self).index,
            final(self).query == old(self).query,
            final(self).results == old(self).results,
            final(self).cursor == old(self).cursor,
            final(self).errors == old(self).errors,
            (match old(self).modal {
                Modal::Signers { signers, cursor, sub } => {
                    &&& final(self).modal matches Modal::Signers {
                        signers: s2,
                        cursor: c2,
                        sub: sub2,
                    }
                    &&& s2@ == signers@
                    &&& sub2 == sub
                    &&& c2 as int == (if sub is Browsing && cursor + 1 < signers@.len() {
                        cursor + 1
                    } else {
                        cursor as int
                    })
                },
                _ => final(self).modal == old(self).modal,
            }),
    {
        let step = match &self.modal {
            Modal::Signers { signers, cursor, sub: SignerModal::Browsing } => {
                let len = signers.len();
                if len > 0 && *cursor < len - 1 {
                    Some((clone_signers(signers), *cursor + 1))
                } else {
                    None
                }
            },
            _ => None,
        };
        match step {
            Some((signers, cursor)) => {
                self.modal = Modal::Signers { signers, cursor, sub: SignerModal::Browsing };
            },
            None => {},
        }
    }

    /// Moves the signer selection one row up, staying on the first row
    /// when already there.
    pub fn signer_up(&mut self)
        requires
            old(self).wf(),
        ensures
            final(self).wf(),
            final(self).index == old(self).index,
            final(self).query == old(self).query,
            final(self).results == old(self).results,
            final(self).cursor == old(self).cursor,
            final(self).errors == old(self).errors,
            (match old(self).modal {
                Modal::Signers { signers, cursor, sub } => {
                    &&& final(self).modal matches Modal::Signers {
                        signers: s2,
                        cursor: c2,
                        sub: sub2,
                    }
                    &&& s2@ == signers@
                    &&& sub2 == sub
                    &&& c2 as int == (if sub is Browsing && cursor > 0 {
                        cursor - 1
                    } else {
                        cursor as int
                    })
                },
                _ => final(self).modal == old(self).modal,
            }),
    {
        let step = match &self.modal {
            Modal::Signers { signers, cursor, sub: SignerModal::Browsing } => {
                if *cursor > 0 {
                    Some((clone_signers(signers), *cursor - 1))
                } else {
                    None
                }
            },
            _ => None,
        };
        match step {
            Some((signers, cursor)) => {
                self.modal = Modal::Signers { signers, cursor, sub: SignerModal::Browsing };
            },
            None => {},
        }
    }

    /// Asks the operator to confirm removal of the selected signer.
    /// Removal is never requested from the store before `delete_signer`
    /// sees the confirmation.
    pub fn delete_signer_verification(&mut self)
        requires
            old(self).wf(),
        ensures
            final(self).wf(),
            final(self).index == old(self).index,
            final(self).query == old(self).query,
            final(self).results == old(self).results,
            final(self).cursor == old(self).cursor,
            final(self).errors == old(self).errors,
            (match old(self).modal {
                Modal::Signers { signers, cursor, sub } => {
                    &&& final(self).modal matches Modal::Signers {
                        signers: s2,
                        cursor: c2,
                        sub: sub2,
                    }
                    &&& s2@ == signers@
                    &&& c2 == cursor
                    &&& sub2 == (if sub is Browsing && signers@.len() > 0 {
                        SignerModal::RemoveConfirm
                    } else {
                        sub
                    })
                },
                _ => final(self).modal == old(self).modal,
            }),
    {
        let step = match &self.modal {
            Modal::Signers { signers, cursor, sub: SignerModal::Browsing } => {
                if signers.len() > 0 {
                    Some((clone_signers(signers), *cursor))
                } else {
                    None
                }
            },
            _ => None,
        };
        match step {
            Some((signers, cursor)) => {
                self.modal = Modal::Signers { signers, cursor, sub: SignerModal::RemoveConfirm };
            },
            None => {},
        }
    }

    /// The operator confirmed the removal: the key identifier of the
    /// selected signer, which the store should now remove from the
    /// signers file — or nothing when no removal was awaiting
    /// confirmation.
    pub fn delete_signer(&self) -> (r: Option<String>)
        requires
            self.wf(),
        ensures
            r == (match self.modal {
                Modal::Signers { signers, cursor, sub } => (if sub is RemoveConfirm
                    && signers@.len() > 0 {
                    Some(signers@[cursor as int].key_id)
                } else {
                    None::<String>
                }),
                _ => None::<String>,
            }),
    {
        match &self.modal {
            Modal::Signers { signers, cursor, sub: SignerModal::RemoveConfirm } => {
                if signers.len() > 0 {
                    Some(signers[*cursor].key_id.clone())
                } else {
                    None
                }
            },
            _ => None,
        }
    }

    /// The store answered the removal that `delete_signer` asked for.
    /// On success the signer leaves the displayed list immediately; on
    /// failure the error is surfaced and the signer stays listed — the
    /// displayed set only changes when the store committed. Either way
    /// the dialog returns to browsing.
    pub fn delete_signer_done(&mut self, outcome: Result<(), String>)
        requires
            old(self).wf(),
        ensures
            final(self).wf(),
            final(self).index == old(self).index,
            final(self).query == old(self).query,
            final(self).results == old(self).results,
            final(self).cursor == old(self).cursor,
            (match old(self).modal {
                Modal::Signers { signers, cursor, sub } => (if sub is RemoveConfirm
                    && signers@.len() > 0 {
                    match outcome {
                        Ok(_) => {
                            &&& final(self).modal matches Modal::Signers {
                                signers: s2,
                                cursor: c2,
                                sub: sub2,
                            }
                            &&& s2@ == spec_remove_signer(
                                signers@,
                                signers@[cursor as int].key_id@,
                            )
                            &&& c2 == spec_clamp(cursor as int, s2@.len() as int)
                            &&& sub2 is Browsing
                            &&& final(self).errors == old(self).errors
                        },
                        Err(message) => {
                            &&& final(self).modal matches Modal::Signers {
                                signers: s2,
                                cursor: c2,
                                sub: sub2,
                            }
                            &&& s2@ == signers@
                            &&& c2 == cursor
                            &&& sub2 is Browsing
                            &&& final(self).errors@ == old(self).errors@.push(message)
                        },
                    }
                } else {
                    *final(self) == *old(self)
                }),
                _ => *final(self) == *old(self),
            }),
    {
        let step = match &self.modal {
            Modal::Signers { signers, cursor, sub: SignerModal::RemoveConfirm } => {
                if signers.len() > 0 {
                    Some((clone_signers(signers), *cursor))
                } else {
                    None
                }
            },
            _ => None,
        };
        match step {
            Some((signers, cursor)) => {
                match outcome {
                    Ok(_) => {
                        let key_id = signers[cursor].key_id.clone();
                        let kept = remove_signer(&signers, &key_id);
                        let new_cursor = clamp(cursor, kept.len());
                        self.modal = Modal::Signers {
                            signers: kept,
                            cursor: new_cursor,
                            sub: SignerModal::Browsing,
                        };
                    },
                    Err(message) => {
                        self.modal = Modal::Signers {
                            signers,
                            cursor,
                            sub: SignerModal::Browsing,
                        };
                        self.errors.push(message);
                    },
                }
            },
            None => {},
        }
    }

    /// Opens the add-signer prompt with an empty key-identifier field.
    pub fn add_signer_dialog(&mut self)
        requires
            old(self).wf(),
        ensures
            final(self).wf(),
            final(self).index == old(self).index,
            final(self).query == old(self).query,
            final(self).results == old(self).results,
            final(self).cursor == old(self).cursor,
            final(self).errors == old(self).errors,
            (match old(self).modal {
                Modal::Signers { signers, cursor, sub } => (if sub is Browsing {
                    &&& final(self).modal matches Modal::Signers {
                        signers: s2,
                        cursor: c2,
                        sub: sub2,
                    }
                    &&& s2@ == signers@
                    &&& c2 == cursor
                    &&& (sub2 matches SignerModal::AddPrompt { key_id } && key_id@
                        == Seq::<char>::empty())
                } else {
                    final(self).modal == old(self).modal
                }),
                _ => final(self).modal == old(self).modal,
            }),
    {
        let step = match &self.modal {
            Modal::Signers { signers, cursor, sub: SignerModal::Browsing } => {
                Some((clone_signers(signers), *cursor))
            },
            _ => None,
        };
        match step {
            Some((signers, cursor)) => {
                self.modal = Modal::Signers {
                    signers,
                    cursor,
                    sub: SignerModal::AddPrompt { key_id: String::new() },
                };
            },
            None => {},
        }
    }

    /// The operator confirmed the add prompt: the key identifier the
    /// surrounding program should resolve against the local key
    /// source, or nothing when no add prompt is open. A failed
    /// resolution is surfaced through `errorbox` and the prompt stays
    /// open.
    pub fn add_signer(&self) -> (r: Option<String>)
        requires
            self.wf(),
        ensures
            r == (match self.modal {
                Modal::Signers { signers, cursor, sub } => (match sub {
                    SignerModal::AddPrompt { key_id } => Some(key_id),
                    _ => None::<String>,
                }),
                _ => None::<String>,
            }),
    {
        match &self.modal {
            Modal::Signers { sub: SignerModal::AddPrompt { key_id }, .. } => Some(key_id.clone()),
            _ => None,
        }
    }

    /// The store answered the add that `add_signer` led to, for the
    /// resolved signer. On success the prompt closes and the signer is
    /// appended to the displayed list without a full re-list; on
    /// failure the error is surfaced, the displayed set stays unchanged
    /// and the prompt stays open for retry.
    pub fn add_signer_done(&mut self, signer: Signer, outcome: Result<(), String>)
        requires
            old(self).wf(),
        ensures
            final(self).wf(),
            final(self).index == old(self).index,
            final(self).query == old(self).query,
            final(self).results == old(self).results,
            final(self).cursor == old(self).cursor,
            (match old(self).modal {
                Modal::Signers { signers, cursor, sub } => (if sub is AddPrompt {
                    match outcome {
                        Ok(_) => {
                            &&& final(self).modal matches Modal::Signers {
                                signers: s2,
                                cursor: c2,
                                sub: sub2,
                            }
                            &&& s2@ == signers@.push(signer)
                            &&& c2 == cursor
                            &&& sub2 is Browsing
                            &&& final(self).errors == old(self).errors
                        },
                        Err(message) => {
                            &&& final(self).modal == old(self).modal
                            &&& final(self).errors@ == old(self).errors@.push(message)
                        },
                    }
                } else {
                    *final(self) == *old(self)
                }),
                _ => *final(self) == *old(self),
            }),
    {
        let step = match &self.modal {
            Modal::Signers { signers, cursor, sub: SignerModal::AddPrompt { .. } } => {
                Some((clone_signers(signers), *cursor))
            },
            _ => None,
        };
        match step {
            Some((mut signers, cursor)) => {
                match outcome {
                    Ok(_) => {
                        signers.push(signer);
                        self.modal = Modal::Signers {
                            signers,
                            cursor,
                            sub: SignerModal::Browsing,
                        };
                    },
                    Err(message) => {
                        self.errors.push(message);
                    },
                }
            },
            None => {},
        }
    }
}

impl App {
    /// Routes typed text to the named input field. Editing the search
    /// box rebuilds the visible list at once and resets the selection;
    /// the other fields belong to the workflow dialogs and receive text
    /// only while their dialog is open.
    pub fn input(&mut self, field: InputField, text: String)
        requires
            old(self).wf(),
        ensures
            final(self).wf(),
            final(self).index == old(self).index,
            final(self).errors == old(self).errors,
            (match field {
                InputField::SearchBox => {
                    &&& final(self).query == text
                    &&& final(self).results@ == spec_search(old(self).index@, text@)
                    &&& final(self).cursor == 0
                    &&& final(self).modal == old(self).modal
                },
                InputField::EditBox => {
                    &&& final(self).query == old(self).query
                    &&& final(self).results == old(self).results
                    &&& final(self).cursor == old(self).cursor
                    &&& final(self).modal == (match old(self).modal {
                        Modal::Edit { identifier, .. } => (Modal::Edit {
                            identifier,
                            buffer: text,
                        }),
                        _ => old(self).modal,
                    })
                },
                InputField::NewPathInput => {
                    &&& final(self).query == old(self).query
                    &&& final(self).results == old(self).results
                    &&& final(self).cursor == old(self).cursor
                    &&& final(self).modal == (match old(self).modal {
                        Modal::Create { secret, .. } => (Modal::Create { path: text, secret }),
                        _ => old(self).modal,
                    })
                },
                InputField::NewPasswordInput => {
                    &&& final(self).query == old(self).query
                    &&& final(self).results == old(self).results
                    &&& final(self).cursor == old(self).cursor
                    &&& final(self).modal == (match old(self).modal {
                        Modal::Create { path, .. } => (Modal::Create { path, secret: text }),
                        _ => old(self).modal,
                    })
                },
                InputField::KeyIdInput => {
                    &&& final(self).query == old(self).query
                    &&& final(self).results == old(self).results
                    &&& final(self).cursor == old(self).cursor
                    &&& (match old(self).modal {
                        Modal::Signers { signers, cursor, sub } => (if sub is AddPrompt {
                            &&& final(self).modal matches Modal::Signers {
                                signers: s2,
                                cursor: c2,
                                sub: sub2,
                            }
                            &&& s2@ == signers@
                            &&& c2 == cursor
                            &&& (sub2 matches SignerModal::AddPrompt { key_id } && key_id == text)
                        } else {
                            final(self).modal == old(self).modal
                        }),
                        _ => final(self).modal == old(self).modal,
                    })
                },
            }),
    {
        match field {
            InputField::SearchBox => {
                self.query = text;
                self.results = search(&self.index, &self.query);
                self.cursor = 0;
            },
            InputField::EditBox => {
                let kept = match &self.modal {
                    Modal::Edit { identifier, .. } => Some(identifier.clone()),
                    _ => None,
                };
                match kept {
                    Some(identifier) => {
                        self.modal = Modal::Edit { identifier, buffer: text };
                    },
                    None => {},
                }
            },
            InputField::NewPathInput => {
                let kept = match &self.modal {
                    Modal::Create { secret, .. } => Some(secret.clone()),
                    _ => None,
                };
                match kept {
                    Some(secret) => {
                        self.modal = Modal::Create { path: text, secret };
                    },
                    None => {},
                }
            },
            InputField::NewPasswordInput => {
                let kept = match &self.modal {
                    Modal::Create { path, .. } => Some(path.clone()),
                    _ => None,
                };
                match kept {
                    Some(path) => {
                        self.modal = Modal::Create { path, secret: text };
                    },
                    None => {},
                }
            },
            InputField::KeyIdInput => {
                let kept = match &self.modal {
                    Modal::Signers { signers, cursor, sub: SignerModal::AddPrompt { .. } } => {
                        Some((clone_signers(signers), *cursor))
                    },
                    _ => None,
                };
                match kept {
                    Some((signers, cursor)) => {
                        self.modal = Modal::Signers {
                            signers,
                            cursor,
                            sub: SignerModal::AddPrompt { key_id: text },
                        };
                    },
                    None => {},
                }
            },
        }
    }

    /// The current content of the named input field, or nothing when
    /// the dialog owning that field is not open.
    pub fn get_value_from_input(&self, field: InputField) -> (r: Option<String>)
        requires
            self.wf(),
        ensures
            r == (match field {
                InputField::SearchBox => Some(self.query),
                InputField::EditBox => (match self.modal {
                    Modal::Edit { buffer, .. } => Some(buffer),
                    _ => None::<String>,
                }),
                InputField::NewPathInput => (match self.modal {
                    Modal::Create { path, .. } => Some(path),
                    _ => None::<String>,
                }),
                InputField::NewPasswordInput => (match self.modal {
                    Modal::Create { secret, .. } => Some(secret),
                    _ => None::<String>,
                }),
                InputField::KeyIdInput => (match self.modal {
                    Modal::Signers { sub: SignerModal::AddPrompt { key_id }, .. } => Some(key_id),
                    _ => None::<String>,
                }),
            }),
    {
        match field {
            InputField::SearchBox => Some(self.query.clone()),
            InputField::EditBox => match &self.modal {
                Modal::Edit { buffer, .. } => Some(buffer.clone()),
                _ => None,
            },
            InputField::NewPathInput => match &self.modal {
                Modal::Create { path, .. } => Some(path.clone()),
                _ => None,
            },
            InputField::NewPasswordInput => match &self.modal {
                Modal::Create { secret, .. } => Some(secret.clone()),
                _ => None,
            },
            InputField::KeyIdInput => match &self.modal {
                Modal::Signers { sub: SignerModal::AddPrompt { key_id }, .. } => Some(
                    key_id.clone(),
                ),
                _ => None,
            },
        }
    }

    /// Dismisses the innermost open dialog: a signer sub-workflow falls
    /// back to browsing, any other open workflow ends, and with nothing
    /// open nothing changes. No store call results from a dismissal.
    pub fn cancel(&mut self)
        requires
            old(self).wf(),
        ensures
            final(self).wf(),
            final(self).index == old(self).index,
            final(self).query == old(self).query,
            final(self).results == old(self).results,
            final(self).cursor == old(self).cursor,
            final(self).errors == old(self).errors,
            (match old(self).modal {
                Modal::Signers { signers, cursor, sub } => (if sub is Browsing {
                    final(self).modal is Idle
                } else {
                    &&& final(self).modal matches Modal::Signers {
                        signers: s2,
                        cursor: c2,
                        sub: sub2,
                    }
                    &&& s2@ == signers@
                    &&& c2 == cursor
                    &&& sub2 is Browsing
                }),
                _ => final(self).modal is Idle,
            }),
    {
        let step = match &self.modal {
            Modal::Signers { signers, cursor, sub } => {
                let browsing = match sub {
                    SignerModal::Browsing => true,
                    _ => false,
                };
                if browsing {
                    None
                } else {
                    Some((clone_signers(signers), *cursor))
                }
            },
            _ => None,
        };
        match step {
            Some((signers, cursor)) => {
                self.modal = Modal::Signers { signers, cursor, sub: SignerModal::Browsing };
            },
            None => {
                self.modal = Modal::Idle;
            },
        }
    }

    /// Consumes one watcher notification, at most once per tick. An
    /// external add or change merges into the snapshot (idempotently:
    /// re-reporting a change the view already shows leaves it as it
    /// is), an external removal leaves the snapshot without the entry,
    /// and a watcher failure is surfaced while the last-good snapshot
    /// stays untouched. The visible list follows the snapshot.
    pub fn on_event(&mut self, event: Option<ChangeEvent>)
        requires
            old(self).wf(),
        ensures
            final(self).wf(),
            final(self).query == old(self).query,
            final(self).modal == old(self).modal,
            (match event {
                Option::None => *final(self) == *old(self),
                Option::Some(ev) => (match ev {
                    ChangeEvent::WatchFailed(message) => {
                        &&& final(self).index == old(self).index
                        &&& final(self).results == old(self).results
                        &&& final(self).cursor == old(self).cursor
                        &&& final(self).errors@ == old(self).errors@.push(message)
                    },
                    ChangeEvent::EntryAdded(e) => {
                        &&& final(self).index@ == spec_upsert(old(self).index@, e)
                        &&& final(self).results@ == spec_search(
                            final(self).index@,
                            old(self).query@,
                        )
                        &&& final(self).cursor == spec_clamp(
                            old(self).cursor as int,
                            final(self).results@.len() as int,
                        )
                        &&& final(self).errors == old(self).errors
                    },
                    ChangeEvent::EntryChanged(e) => {
                        &&& final(self).index@ == spec_upsert(old(self).index@, e)
                        &&& final(self).results@ == spec_search(
                            final(self).index@,
                            old(self).query@,
                        )
                        &&& final(self).cursor == spec_clamp(
                            old(self).cursor as int,
                            final(self).results@.len() as int,
                        )
                        &&& final(self).errors == old(self).errors
                    },
                    ChangeEvent::EntryRemoved(identifier) => {
                        &&& final(self).index@ == spec_remove(old(self).index@, identifier@)
                        &&& final(self).results@ == spec_search(
                            final(self).index@,
                            old(self).query@,
                        )
                        &&& final(self).cursor == spec_clamp(
                            old(self).cursor as int,
                            final(self).results@.len() as int,
                        )
                        &&& final(self).errors == old(self).errors
                    },
                }),
            }),
    {
        match event {
            Option::None => {},
            Option::Some(ev) => match ev {
                ChangeEvent::WatchFailed(message) => {
                    self.errors.push(message);
                },
                ChangeEvent::EntryAdded(e) => {
                    proof {
                        lemma_upsert_unique(self.index@, e);
                    }
                    self.index = upsert_entry(&self.index, &e);
                    self.results = search(&self.index, &self.query);
                    self.cursor = clamp(self.cursor, self.results.len());
                },
                ChangeEvent::EntryChanged(e) => {
                    proof {
                        lemma_upsert_unique(self.index@, e);
                    }
                    self.index = upsert_entry(&self.index, &e);
                    self.results = search(&self.index, &self.query);
                    self.cursor = clamp(self.cursor, self.results.len());
                },
                ChangeEvent::EntryRemoved(identifier) => {
                    proof {
                        lemma_remove_unique(self.index@, identifier@);
                    }
                    self.index = remove_entry(&self.index, &identifier);
                    self.results = search(&self.index, &self.query);
                    self.cursor = clamp(self.cursor, self.results.len());
                },
            },
        }
    }
}

} // verus!
