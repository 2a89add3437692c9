//! The contacts screen's state.

use vstd::prelude::*;

verus! {

/// The contacts screen; the contacts themselves belong to the application.
pub struct ContactsScreen {
    pub error: Option<String>,
}

impl Default for ContactsScreen {
    fn default() -> (s: Self)
        ensures
            s.error is None,
    {
        ContactsScreen { error: None }
    }
}

} // verus!
