//! What the client receives: the server's responses.

use vstd::prelude::*;
use crate::frontend::requests::Message;

verus! {

/// A response of the wire protocol.
#[derive(Debug, Clone)]
pub enum Response {
    /// The request was carried out (`Ok` on the wire).
    Success,
    Error(Error),
    Contacts { contacts: Vec<String> },
    Message(Message),
    History(Vec<Message>),
}

/// The text of a refusal or failure.
#[derive(Debug, Clone)]
pub struct Error {
    pub data: String,
}

impl Error {
    pub fn new(data: String) -> (e: Self)
        ensures
            e.data == data,
    {
        Error { data }
    }
}

} // verus!
