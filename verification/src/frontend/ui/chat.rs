//! The chat screen's state.

use vstd::prelude::*;
use crate::frontend::requests::Message;

verus! {

/// The conversation with one contact: the text being typed, and the
/// screen's own message list and error.
pub struct ChatScreen {
    pub text: String,
    pub contact: String,
    pub messages: Vec<Message>,
    pub error: Option<String>,
}

impl ChatScreen {
    /// A fresh conversation screen with `contact`: nothing typed yet.
    pub fn open(contact: String) -> (s: Self)
        ensures
            s.contact == contact,
            s.text@ == Seq::<char>::empty(),
            s.messages@ == Seq::<Message>::empty(),
            s.error is None,
    {
        ChatScreen { text: String::new(), contact, messages: Vec::new(), error: None }
    }
}

} // verus!
