//! Interactive controller core for a console password manager.
//!
//! The library keeps an in-memory view of a credential store consistent
//! while a background watcher reports external changes and the operator
//! searches, edits, creates and deletes entries and trusted signers.
//! Everything here is pure state logic: the store, the clipboard and the
//! terminal are collaborators that the surrounding program drives, feeding
//! their results back into the controller.

pub mod controller;
pub mod entry;
pub mod index;
pub mod search;
pub mod signers;

pub use entry::Entry;
pub use entry::Signer;
pub use controller::App;
pub use search::search;
