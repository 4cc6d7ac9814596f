//! Core of a personal credential vault accessor.
//!
//! The vault is an encrypted database of groups and entries. This library
//! holds what decides: the quick-unlock cache, which lets a short code stand
//! in for the master passphrase for one attempt; the tree of groups and
//! entries, with search, listing and editing; the order of the steps of a
//! save; and the controllers that lead through unlocking and through a
//! session. Prompts, files, the database container and the clipboard are
//! the caller's: the controllers tell the caller what to do next and take
//! its answer as an event.
//!
//! - [`code`]: the short code derived from the master passphrase.
//! - [`cache`]: sealing the passphrase under the code, and the one attempt
//!   to recover it.
//! - [`entry`]: an entry and its fields.
//! - [`tree`]: groups, depth-first listing and search.
//! - [`vault`]: the tree together with the passphrase that opened it.
//! - [`sheet`]: what is shown of an entry, and what is copied.
//! - [`generate`]: identifiers and passwords drawn at random.
//! - [`save`]: the steps of a save and what they leave on disk.
//! - [`unlock`]: the controller of unlocking at startup.
//! - [`session`]: the controller of the menu, of creating and of editing.
//! - [`text`]: comparing and decoding text.

pub mod cache;
pub mod code;
pub mod entry;
pub mod generate;
pub mod save;
pub mod session;
pub mod sheet;
pub mod text;
pub mod tree;
pub mod unlock;
pub mod vault;
