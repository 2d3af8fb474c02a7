//! Households, their members and the rules on who may do what in them.
pub mod domain;
pub mod ports;
pub mod in_memory;
pub mod access;
pub mod application;
pub mod stored;
pub mod api;
