//! The client's screens and how the application reacts to them and to the server.

pub mod app;
pub mod chat;
pub mod contacts;
pub mod login;
pub mod register;
