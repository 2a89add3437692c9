//! The server: accounts and contacts in SQLite, and the decisions of a client session.

pub mod db_manager;
pub mod models;
pub mod requests;
pub mod responses;
pub mod session;
