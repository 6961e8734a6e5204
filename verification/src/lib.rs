//! Client-side core of a revision-tracked configuration repository service.
//!
//! The verified library covers the data model, query and path construction,
//! request metadata for conditional long-polling, and the watch state machine
//! that turns poll outcomes into an ordered stream of change notifications.

pub mod model;
pub mod path;
pub mod request;
pub mod strfmt;
pub mod watch;
