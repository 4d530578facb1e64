//! The rules of the vocabulary store: identity and merging of Vocabulary
//! Items, captures and Undo, saved translations, the Vocabulary Log, listing
//! and export, lifecycle operations, schema upgrades and diagnostics.

pub mod record;
pub mod identity;
pub mod merge;
pub mod vocabulary_log;
pub mod translations;
pub mod capture;
pub mod capture_undo;
pub mod word_row;
pub mod outbox;
pub mod lifecycle;
pub mod schema;
pub mod stats;
pub mod diagnostics;
pub mod listing;
pub mod export;
pub mod reconcile;
