//! What the server answers.

use vstd::prelude::*;
use crate::backend::requests::Message;

verus! {

/// A response of the wire protocol.
#[derive(Debug, Clone)]
pub enum Response {
    /// The request was carried out (`Ok` on the wire).
    Success,
    Error(Error),
    Contacts { contacts: Vec<String> },
    Message(Message),
    History(Vec<Message>),
}

/// The text of a refusal or failure.
#[derive(Debug, Clone)]
pub struct Error {
    data: String,
}

impl Error {
    pub fn new(data: String) -> (e: Self)
        ensures
            e == Error::new_spec(data),
            e.data() == data,
    {
        Error { data }
    }

    /// The error carrying `data`.
    pub closed spec fn new_spec(data: String) -> Self {
        Error { data }
    }

    /// The error carrying `data` carries `data`.
    pub proof fn lemma_new_data(data: String)
        ensures
            #[trigger] Error::new_spec(data).data() == data,
    {
    }

    /// The text this error carries.
    pub closed spec fn data(&self) -> String {
        self.data
    }

    /// The text this error carries.
    pub fn text(&self) -> (t: &String)
        ensures
            *t == self.data(),
    {
        &self.data
    }
}

} // verus!
