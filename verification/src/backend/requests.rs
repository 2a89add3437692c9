//! What a client may ask of the server.

use vstd::prelude::*;

verus! {

/// A request of the wire protocol, tagged by its kind.
#[derive(Debug, Clone)]
pub enum Requests {
    Message(Message),
    Login(Login),
    Register(Register),
    GetContacts,
    GetHistory { username: String },
    AddContact { username: String },
}

/// A chat message. From a client, `username` names the recipient; as the
/// server relays and stores it, `username` names the sender.
#[derive(Debug, Clone)]
pub struct Message {
    pub username: String,
    pub text: String,
}

/// Credentials of an existing account.
#[derive(Debug, Clone)]
pub struct Login {
    pub username: String,
    pub password: String,
}

/// Credentials for a new account.
#[derive(Debug, Clone)]
pub struct Register {
    pub username: String,
    pub password: String,
}

impl Message {
    pub fn new(username: String, text: String) -> (m: Self)
        ensures
            m.username == username,
            m.text == text,
    {
        Message { username, text }
    }
}

impl Login {
    pub fn new(username: String, password: String) -> (l: Self)
        ensures
            l.username == username,
            l.password == password,
    {
        Login { username, password }
    }
}

impl Register {
    pub fn new(username: String, password: String) -> (r: Self)
        ensures
            r.username == username,
            r.password == password,
    {
        Register { username, password }
    }
}

} // verus!
