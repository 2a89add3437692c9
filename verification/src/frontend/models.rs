//! The signed-in user as the client knows it.

use vstd::prelude::*;

verus! {

/// A user of the client.
pub struct User {
    pub username: String,
    password: String,
}

impl User {
    pub fn new(username: String, password: String) -> (u: Self)
        ensures
            u.username() == username,
            u.password() == password,
    {
        User { username, password }
    }

    /// The name of this user.
    pub closed spec fn username(&self) -> String {
        self.username
    }

    /// The password this user was made with.
    pub closed spec fn password(&self) -> String {
        self.password
    }
}

} // verus!
