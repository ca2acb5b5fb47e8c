//! An event-sourced registry of short links.
//!
//! The append-only log of [`Event`]s is the single source of truth. The
//! active links and their redirect counts are a projection of that log,
//! kept up to date event by event and rebuildable from the log at any time.
//! Commands append exactly one event when they succeed and none when they
//! fail; queries only read the projection.

pub mod commands;
pub mod event_store;
pub mod guarantees;
pub mod history;
pub mod model;
pub mod projection;
pub mod queries;
pub mod service;
pub mod slug_source;

pub use commands::CommandHandler;
pub use event_store::EventStore;
pub use model::{Event, ShortLink, ShortenerError, Slug, Stats, Url};
pub use projection::Projection;
pub use queries::QueryHandler;
pub use service::UrlShortenerService;
