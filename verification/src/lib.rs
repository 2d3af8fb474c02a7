//! StockMate's household-inventory backend: the domain model, the in-memory
//! stores, and the decision logic of the application services.
pub mod config;
pub mod shared;
pub mod keyed;
pub mod text;
pub mod time;
pub mod accounts;
pub mod households;
pub mod http;
