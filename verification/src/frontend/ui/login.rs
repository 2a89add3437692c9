//! The login screen's fields.

use vstd::prelude::*;

verus! {

/// What the user typed on the login screen.
pub struct LoginScreen {
    pub username: String,
    pub password: String,
}

impl Default for LoginScreen {
    fn default() -> (s: Self)
        ensures
            s.username@ == Seq::<char>::empty(),
            s.password@ == Seq::<char>::empty(),
    {
        LoginScreen { username: String::new(), password: String::new() }
    }
}

} // verus!
