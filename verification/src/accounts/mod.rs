//! User accounts and authentication sessions.
pub mod domain;
pub mod ports;
pub mod in_memory;
pub mod adapters;
pub mod application;
pub mod sessions;
pub mod stored;
pub mod api;
