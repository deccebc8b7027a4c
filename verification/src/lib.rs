//! Persistence and command layer of a vocabulary flashcard application.
//!
//! The library models the authoritative word-card store (a single table
//! keyed by a unique `word`), the repository operations over it, the
//! command façade that validates inputs and maps failures to a closed
//! error enumeration, and an observability handle that records leveled
//! log events for an external sink to flush.

pub mod cards;
pub mod connection;
pub mod errors;
pub mod facade;
pub mod laws;
pub mod logger;
pub mod logging;
pub mod model;
pub mod store;
pub mod text;

pub use cards::NewWordCard;
pub use cards::WordCard;
pub use errors::StoreError;
pub use logger::LogEvent;
pub use logger::LogLevel;
pub use logger::Logger;
pub use logging::LogConfig;
pub use logging::LogRotation;
pub use store::Store;
