//! The account record the server reads back from its database.

use vstd::prelude::*;

verus! {

/// A registered account: its name and the (client-hashed) password stored with it.
pub struct User {
    pub name: String,
    pub password: String,
}

impl User {
    pub fn new(name: String, password: String) -> (u: Self)
        ensures
            u.name == name,
            u.password == password,
    {
        User { name, password }
    }
}

} // verus!
