//! MoodFlow: the data layer of a mood journal.
//!
//! The library holds the user's vocabulary of moods, tags and goals with its
//! built-in defaults, the journal of mood entries with its identities and
//! validation, and the count of entries per mood.

pub mod analytics;
pub mod models;
pub mod mood;
pub mod settings;
pub mod store;
