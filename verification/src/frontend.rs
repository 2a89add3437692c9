//! The client: what it sends, what it receives, and how its screens react.

pub mod models;
pub mod requests;
pub mod responses;
pub mod ui;
