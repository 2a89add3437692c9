//! The registration screen's fields.

use vstd::prelude::*;

verus! {

/// What the user typed on the registration screen.
pub struct RegisterScreen {
    pub username: String,
    pub password: String,
}

impl Default for RegisterScreen {
    fn default() -> (s: Self)
        ensures
            s.username@ == Seq::<char>::empty(),
            s.password@ == Seq::<char>::empty(),
    {
        RegisterScreen { username: String::new(), password: String::new() }
    }
}

} // verus!
