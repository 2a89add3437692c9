//! The client application: which screen it shows, what it knows, and how it
//! reacts to the user and to the server.
//!
//! Each frame the program around this library draws the current screen,
//! reports what the user did to the matching `*_frame` method, sends the
//! requests it returns, and, when it says so, takes the next response the
//! server sent and reports it to the matching `*_response` method.

use vstd::prelude::*;
use vstd::view::View as _;
use crate::frontend::requests::{hashed_password, Login, Message, Register, Request};
use crate::frontend::responses::Response;
use crate::frontend::ui::chat::ChatScreen;
use crate::frontend::ui::contacts::ContactsScreen;
use crate::frontend::ui::login::LoginScreen;
use crate::frontend::ui::register::RegisterScreen;

verus! {

/// The screen the application shows.
pub enum View {
    Login(LoginScreen),
    Contacts(ContactsScreen),
    Register(RegisterScreen),
    Chat(ChatScreen),
}

/// Whether `v` is the login screen with nothing typed.
pub open spec fn is_blank_login(v: View) -> bool {
    v matches View::Login(s) && s.username@ == Seq::<char>::empty() && s.password@ == Seq::<char>::empty()
}

/// Whether `v` is the registration screen with nothing typed.
pub open spec fn is_blank_register(v: View) -> bool {
    v matches View::Register(s) && s.username@ == Seq::<char>::empty() && s.password@ == Seq::<char>::empty()
}

/// Whether `v` is a fresh contacts screen.
pub open spec fn is_fresh_contacts(v: View) -> bool {
    v matches View::Contacts(s) && s.error is None
}

/// Which screens may follow `before` within one frame: the login screen
/// leads to registration or (once logged in) to the contacts, registration
/// back to login, the contacts to a chat, and a chat stays a chat.
pub open spec fn screen_may_follow(before: View, after: View) -> bool {
    match before {
        View::Login(_) => after is Login || after is Register || after is Contacts,
        View::Register(_) => after is Register || after is Login,
        View::Contacts(_) => after is Contacts || after is Chat,
        View::Chat(_) => after is Chat,
    }
}

impl Default for View {
    fn default() -> (v: Self)
        ensures
            is_blank_login(v),
    {
        View::Login(LoginScreen::default())
    }
}

/// The client application's state.
pub struct App {
    pub view: View,
    /// The user the client is logged in as (empty before login).
    pub user: String,
    pub contacts: Vec<String>,
    /// The conversation shown on the chat screen.
    pub messages: Vec<Message>,
    /// The last error the server reported.
    pub error: Option<String>,
    /// Whether the window asking for a new contact's name is open.
    pub add_window: bool,
    /// The name typed into that window.
    pub add_username: String,
}

/// What the program around the application does after a step: send these
/// requests in order, redraw at once if `repaint`, and take the next
/// response from the server if `poll`.
pub struct Frame {
    pub requests: Vec<Request>,
    pub repaint: bool,
    pub poll: bool,
}

/// Whether `r` is a login with these typed credentials.
pub open spec fn is_login_request(r: Request, username: String, password: String) -> bool {
    r matches Request::Login(l) && l.username == username && l.password@ == hashed_password(password@)
        && l.error is None
}

/// Whether `r` is a registration with these typed credentials.
pub open spec fn is_register_request(r: Request, username: String, password: String) -> bool {
    r matches Request::Register(reg) && reg.username == username && reg.password@ == hashed_password(password@)
}

/// Whether `f` sends nothing, redraws nothing and polls nothing.
pub open spec fn is_idle(f: Frame) -> bool {
    f.requests@.len() == 0 && !f.repaint && !f.poll
}

impl App {
    /// A new application on the login screen, knowing these contacts.
    pub fn new(contacts: Vec<String>) -> (app: Self)
        ensures
            is_blank_login(app.view),
            app.user@ == Seq::<char>::empty(),
            app.contacts == contacts,
            app.messages@ == Seq::<Message>::empty(),
            app.error is None,
            !app.add_window,
            app.add_username@ == Seq::<char>::empty(),
    {
        App {
            view: View::default(),
            user: String::new(),
            contacts,
            messages: Vec::new(),
            error: None,
            add_window: false,
            add_username: String::new(),
        }
    }

    /// The login screen was drawn: `submit` if the user asked to log in,
    /// `register` if it asked for the registration screen. Logging in sends
    /// the typed name with the hashed password; going to registration shows
    /// a blank registration screen at once, without taking a response.
    pub fn login_frame(&mut self, submit: bool, register: bool) -> (f: Frame)
        requires
            old(self).view is Login,
        ensures
            screen_may_follow(old(self).view, final(self).view),
            submit ==> f.requests@.len() == 1 && is_login_request(
                f.requests@[0],
                old(self).view->Login_0.username,
                old(self).view->Login_0.password,
            ),
            !submit ==> f.requests@.len() == 0,
            register ==> is_blank_register(final(self).view) && f.repaint && !f.poll,
            !register ==> final(self).view == old(self).view && !f.repaint && f.poll,
            *final(self) == (App { view: final(self).view, ..*old(self) }),
    {
        let mut requests: Vec<Request> = Vec::new();
        if submit {
            if let View::Login(login) = &self.view {
                requests.push(Request::Login(Login::new(login.username.clone(), login.password.clone())));
            }
        }
        if register {
            self.view = View::Register(RegisterScreen::default());
            return Frame { requests, repaint: true, poll: false };
        }
        Frame { requests, repaint: false, poll: true }
    }

    /// The server answered on the login screen. Acceptance signs in as the
    /// typed name, shows the contacts screen and asks for the contacts; a
    /// refusal is kept as the error to show; anything else is dropped.
    pub fn login_response(&mut self, response: Response) -> (f: Frame)
        requires
            old(self).view is Login,
        ensures
            screen_may_follow(old(self).view, final(self).view),
            response is Success ==> final(self).user == old(self).view->Login_0.username
                && is_fresh_contacts(final(self).view) && f.requests@.len() == 1
                && f.requests@[0] is GetContacts && f.repaint && !f.poll
                && *final(self) == (App { view: final(self).view, user: final(self).user, ..*old(self) }),
            response matches Response::Error(e) ==> *final(self) == (App { error: Some(e.data), ..*old(self) })
                && f.requests@.len() == 0 && f.repaint && !f.poll,
            !(response is Success || response is Error) ==> *final(self) == *old(self) && is_idle(f),
    {
        match response {
            Response::Success => {
                let name = match &self.view {
                    View::Login(login) => login.username.clone(),
                    _ => String::new(),
                };
                self.user = name;
                self.view = View::Contacts(ContactsScreen::default());
                Frame { requests: vec![Request::GetContacts], repaint: true, poll: false }
            },
            Response::Error(e) => {
                self.error = Some(e.data);
                Frame { requests: Vec::new(), repaint: true, poll: false }
            },
            _ => Frame { requests: Vec::new(), repaint: false, poll: false },
        }
    }

    /// The registration screen was drawn: `submit` if the user asked to
    /// register, `to_login` if it asked for the login screen.
    pub fn register_frame(&mut self, submit: bool, to_login: bool) -> (f: Frame)
        requires
            old(self).view is Register,
        ensures
            screen_may_follow(old(self).view, final(self).view),
            submit ==> f.requests@.len() == 1 && is_register_request(
                f.requests@[0],
                old(self).view->Register_0.username,
                old(self).view->Register_0.password,
            ),
            !submit ==> f.requests@.len() == 0,
            to_login ==> is_blank_login(final(self).view) && f.repaint && !f.poll,
            !to_login ==> final(self).view == old(self).view && !f.repaint && f.poll,
            *final(self) == (App { view: final(self).view, ..*old(self) }),
    {
        let mut requests: Vec<Request> = Vec::new();
        if submit {
            if let View::Register(register) = &self.view {
                requests.push(
                    Request::Register(Register::new(register.username.clone(), register.password.clone())),
                );
            }
        }
        if to_login {
            self.view = View::Login(LoginScreen::default());
            return Frame { requests, repaint: true, poll: false };
        }
        Frame { requests, repaint: false, poll: true }
    }

    /// A registration could not be handed to the network: the reason is
    /// kept as the error to show; nothing else changes.
    pub fn register_send_failed(&mut self, reason: String)
        ensures
            screen_may_follow(old(self).view, final(self).view),
            *final(self) == (App { error: Some(reason), ..*old(self) }),
    {
        self.error = Some(reason);
    }

    /// The server answered on the registration screen: acceptance shows a
    /// blank login screen; anything else changes nothing.
    pub fn register_response(&mut self, response: Response) -> (f: Frame)
        requires
            old(self).view is Register,
        ensures
            screen_may_follow(old(self).view, final(self).view),
            response is Success ==> is_blank_login(final(self).view) && f.requests@.len() == 0
                && f.repaint && !f.poll && *final(self) == (App { view: final(self).view, ..*old(self) }),
            !(response is Success) ==> *final(self) == *old(self) && is_idle(f),
    {
        match response {
            Response::Success => {
                self.view = View::Login(LoginScreen::default());
                Frame { requests: Vec::new(), repaint: true, poll: false }
            },
            _ => Frame { requests: Vec::new(), repaint: false, poll: false },
        }
    }

    /// The contacts screen was drawn: `selected` is the contact the user
    /// opened, if any; `add` if it asked to add a contact. Opening a contact
    /// asks for the history with it and shows its (empty) chat screen;
    /// asking to add opens the name window with an empty name.
    pub fn contacts_frame(&mut self, selected: Option<String>, add: bool) -> (f: Frame)
        requires
            old(self).view is Contacts,
        ensures
            screen_may_follow(old(self).view, final(self).view),
            (selected matches Some(c) ==> f.requests@.len() == 1
                && f.requests@[0] == (Request::GetHistory { username: c }) && f.repaint
                && final(self).view is Chat && final(self).view->Chat_0.contact == c),
            selected is Some ==> final(self).view->Chat_0.text@ == Seq::<char>::empty()
                && final(self).view->Chat_0.messages@ == Seq::<Message>::empty()
                && final(self).view->Chat_0.error is None,
            selected is None ==> f.requests@.len() == 0 && !f.repaint && final(self).view == old(self).view,
            add ==> final(self).add_window && final(self).add_username@ == Seq::<char>::empty(),
            !add ==> final(self).add_window == old(self).add_window
                && final(self).add_username == old(self).add_username,
            f.poll,
            *final(self) == (App {
                view: final(self).view,
                add_window: final(self).add_window,
                add_username: final(self).add_username,
                ..*old(self)
            }),
    {
        let mut requests: Vec<Request> = Vec::new();
        let mut repaint = false;
        if let Some(contact) = selected {
            requests.push(Request::GetHistory { username: contact.clone() });
            self.view = View::Chat(ChatScreen::open(contact));
            repaint = true;
        }
        if add {
            self.add_username = String::new();
            self.add_window = true;
        }
        Frame { requests, repaint, poll: true }
    }

    /// The user confirmed the name in the add-contact window: the window
    /// closes and the server is asked to add that contact.
    pub fn find_contact(&mut self) -> (f: Frame)
        ensures
            screen_may_follow(old(self).view, final(self).view),
            f.requests@.len() == 1,
            f.requests@[0] == (Request::AddContact { username: old(self).add_username }),
            !f.repaint && !f.poll,
            *final(self) == (App { add_window: false, ..*old(self) }),
    {
        self.add_window = false;
        Frame {
            requests: vec![Request::AddContact { username: self.add_username.clone() }],
            repaint: false,
            poll: false,
        }
    }

    /// The server answered on the contacts screen: acceptance (of a new
    /// contact) asks for the contacts again, a contact list replaces the
    /// known one, a refusal is kept as the error; anything else is dropped.
    pub fn contacts_response(&mut self, response: Response) -> (f: Frame)
        ensures
            screen_may_follow(old(self).view, final(self).view),
            response is Success ==> *final(self) == *old(self) && f.requests@.len() == 1
                && f.requests@[0] is GetContacts,
            (response matches Response::Contacts { contacts } ==> *final(self) == (App { contacts, ..*old(self) })
                && f.requests@.len() == 0),
            response matches Response::Error(e) ==> *final(self) == (App { error: Some(e.data), ..*old(self) })
                && f.requests@.len() == 0,
            (response is Message || response is History) ==> *final(self) == *old(self) && f.requests@.len() == 0,
            !f.repaint && !f.poll,
    {
        match response {
            Response::Success => Frame { requests: vec![Request::GetContacts], repaint: false, poll: false },
            Response::Error(e) => {
                self.error = Some(e.data);
                Frame { requests: Vec::new(), repaint: false, poll: false }
            },
            Response::Contacts { contacts } => {
                self.contacts = contacts;
                Frame { requests: Vec::new(), repaint: false, poll: false }
            },
            _ => Frame { requests: Vec::new(), repaint: false, poll: false },
        }
    }

    /// The chat screen was drawn; `send` if the user sent the typed text.
    /// Sending shows the text at once as the user's own message, asks the
    /// server to deliver it to the contact, and clears the input.
    pub fn chat_frame(&mut self, send: bool) -> (f: Frame)
        requires
            old(self).view is Chat,
        ensures
            screen_may_follow(old(self).view, final(self).view),
            send ==> final(self).messages@ == old(self).messages@.push(
                Message { username: old(self).user, text: old(self).view->Chat_0.text },
            ),
            send ==> f.requests@.len() == 1 && f.requests@[0] == Request::Message(
                Message { username: old(self).view->Chat_0.contact, text: old(self).view->Chat_0.text },
            ),
            send ==> final(self).view is Chat && final(self).view->Chat_0.text@ == Seq::<char>::empty()
                && final(self).view->Chat_0.contact == old(self).view->Chat_0.contact
                && final(self).view->Chat_0.messages == old(self).view->Chat_0.messages
                && final(self).view->Chat_0.error == old(self).view->Chat_0.error,
            send ==> *final(self) == (App { view: final(self).view, messages: final(self).messages, ..*old(self) }),
            !send ==> *final(self) == *old(self) && f.requests@.len() == 0,
            !f.repaint && f.poll,
    {
        let mut requests: Vec<Request> = Vec::new();
        if send {
            let (contact, text) = match &self.view {
                View::Chat(chat) => (chat.contact.clone(), chat.text.clone()),
                _ => (String::new(), String::new()),
            };
            self.messages.push(Message::new(self.user.clone(), text.clone()));
            requests.push(Request::Message(Message::new(contact, text)));
            match &mut self.view {
                View::Chat(chat) => {
                    chat.text = String::new();
                },
                _ => {},
            }
        }
        Frame { requests, repaint: false, poll: true }
    }

    /// The server answered on the chat screen: a message is added to the
    /// conversation, a history replaces it, a refusal is kept as the error;
    /// anything else is dropped.
    pub fn chat_response(&mut self, response: Response) -> (f: Frame)
        ensures
            screen_may_follow(old(self).view, final(self).view),
            response matches Response::Message(m) ==> *final(self) == (App {
                messages: final(self).messages,
                ..*old(self)
            }) && final(self).messages@ == old(self).messages@.push(m),
            response matches Response::History(h) ==> *final(self) == (App { messages: h, ..*old(self) }),
            response matches Response::Error(e) ==> *final(self) == (App { error: Some(e.data), ..*old(self) }),
            (response is Success || response is Contacts) ==> *final(self) == *old(self),
            is_idle(f),
    {
        match response {
            Response::Error(e) => {
                self.error = Some(e.data);
            },
            Response::Message(message) => {
                self.messages.push(message);
            },
            Response::History(history) => {
                self.messages = history;
            },
            _ => {},
        }
        Frame { requests: Vec::new(), repaint: false, poll: false }
    }
}

} // verus!
