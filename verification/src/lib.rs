//! Preferences of a bookmarking workflow: the record, partial updates and how
//! they merge, the stored form of the record, and the rows that show it.
//!
//! The library reads no file and prints nothing. A caller hands it what the
//! store answered and gets back what to write and what to show.

/// The stored form of the record, and reading it back.
pub mod codec;
/// A run of the preferences command, from the store's answers.
pub mod command;
/// The errors.
pub mod error;
/// The rows that show the record to the user.
pub mod present;
/// The record and its defaults.
pub mod record;
/// The rule that an auth token must meet.
pub mod token;
/// Partial updates and how they merge into the record.
pub mod update;
