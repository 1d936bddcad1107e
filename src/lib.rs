//! Decoding model and projection for a task database: pages of loosely typed
//! properties become flat, UI-ready task records.
pub mod calendar;
pub mod labels;
pub mod laws;
pub mod projector;
pub mod request;
pub mod schema;
