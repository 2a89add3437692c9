//! A small chat service: a server that keeps accounts, contact lists and
//! conversation histories, and a client whose screens drive the conversation.
//! The protocol values, the decisions of both sides and the text encodings
//! they rely on are verified here.

pub mod decimal;
pub mod backend;
pub mod frontend;
