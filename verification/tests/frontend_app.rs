use rustchat::frontend::requests::{Login, Message, Register, Request};
use rustchat::frontend::responses::{Error, Response};
use rustchat::frontend::ui::app::{App, View};
use rustchat::frontend::ui::chat::ChatScreen;
use rustchat::frontend::ui::contacts::ContactsScreen;
use rustchat::frontend::ui::login::LoginScreen;
use rustchat::frontend::ui::register::RegisterScreen;

fn s(x: &str) -> String {
    x.to_string()
}

fn typed_login(app: &mut App, name: &str, password: &str) {
    if let View::Login(screen) = &mut app.view {
        screen.username = s(name);
        screen.password = s(password);
    }
}

#[test]
fn new_app_starts_on_blank_login() {
    let app = App::new(vec![s("x")]);
    assert!(matches!(&app.view, View::Login(l) if l.username.is_empty() && l.password.is_empty()));
    assert!(app.user.is_empty() && app.messages.is_empty() && app.error.is_none() && !app.add_window);
    assert_eq!(app.contacts, vec![s("x")]);
}

#[test]
fn login_submit_sends_hashed_credentials() {
    let mut app = App::new(vec![]);
    typed_login(&mut app, "alice", "pw");
    let f = app.login_frame(true, false);
    assert!(f.poll && !f.repaint);
    assert_eq!(f.requests.len(), 1);
    match &f.requests[0] {
        Request::Login(l) => {
            assert_eq!(l.username, "alice");
            assert_eq!(l.password, Login::new(s("alice"), s("pw")).password);
        }
        _ => panic!("not a login"),
    }
}

#[test]
fn accepted_login_shows_contacts_and_asks_for_them() {
    let mut app = App::new(vec![]);
    typed_login(&mut app, "alice", "pw");
    app.login_frame(false, false);
    let f = app.login_response(Response::Success);
    assert_eq!(app.user, "alice");
    assert!(matches!(app.view, View::Contacts(ref c) if c.error.is_none()));
    assert!(f.repaint && f.requests.len() == 1 && matches!(f.requests[0], Request::GetContacts));
}

#[test]
fn refused_login_keeps_error() {
    let mut app = App::new(vec![]);
    let f = app.login_response(Response::Error(Error::new(s("Username or password is incorrect"))));
    assert_eq!(app.error, Some(s("Username or password is incorrect")));
    assert!(matches!(app.view, View::Login(_)));
    assert!(f.repaint && f.requests.is_empty());
    let f = app.login_response(Response::History(vec![]));
    assert!(f.requests.is_empty() && !f.repaint && !f.poll);
}

#[test]
fn register_round_trip() {
    let mut app = App::new(vec![]);
    let f = app.login_frame(false, true);
    assert!(f.repaint && !f.poll);
    assert!(matches!(app.view, View::Register(ref r) if r.username.is_empty()));
    if let View::Register(r) = &mut app.view {
        r.username = s("bob");
        r.password = s("pw");
    }
    let f = app.register_frame(true, false);
    assert!(f.poll);
    match &f.requests[0] {
        Request::Register(r) => {
            assert_eq!(r.username, "bob");
            assert_eq!(r.password, Register::new(s("bob"), s("pw")).password);
        }
        _ => panic!("not a registration"),
    }
    let f = app.register_response(Response::Error(Error::new(s("User hasn't created"))));
    assert!(matches!(app.view, View::Register(_)) && !f.repaint);
    let f = app.register_response(Response::Success);
    assert!(matches!(app.view, View::Login(ref l) if l.username.is_empty()) && f.repaint);
    app.view = View::Register(RegisterScreen::default());
    app.register_frame(false, true);
    assert!(matches!(app.view, View::Login(_)));
}

#[test]
fn opening_a_contact_asks_for_history() {
    let mut app = App::new(vec![s("bob")]);
    app.view = View::Contacts(ContactsScreen::default());
    let f = app.contacts_frame(Some(s("bob")), false);
    assert!(f.repaint && f.poll);
    assert!(matches!(&f.requests[0], Request::GetHistory { username } if username == "bob"));
    assert!(matches!(&app.view, View::Chat(c) if c.contact == "bob" && c.text.is_empty()));
}

#[test]
fn adding_a_contact() {
    let mut app = App::new(vec![]);
    app.view = View::Contacts(ContactsScreen::default());
    app.add_username = s("stale");
    let f = app.contacts_frame(None, true);
    assert!(f.requests.is_empty() && app.add_window && app.add_username.is_empty());
    app.add_username = s("carol");
    let f = app.find_contact();
    assert!(!app.add_window);
    assert!(matches!(&f.requests[0], Request::AddContact { username } if username == "carol"));
    let f = app.contacts_response(Response::Success);
    assert!(matches!(f.requests[0], Request::GetContacts));
    app.contacts_response(Response::Contacts { contacts: vec![s("carol")] });
    assert_eq!(app.contacts, vec![s("carol")]);
    app.contacts_response(Response::Error(Error::new(s("Connection exists"))));
    assert_eq!(app.error, Some(s("Connection exists")));
}

#[test]
fn sending_a_chat_message() {
    let mut app = App::new(vec![]);
    app.user = s("alice");
    let mut chat = ChatScreen::open(s("bob"));
    chat.text = s("hello");
    app.view = View::Chat(chat);
    let f = app.chat_frame(true);
    assert_eq!(app.messages.len(), 1);
    assert_eq!((app.messages[0].username.as_str(), app.messages[0].text.as_str()), ("alice", "hello"));
    match &f.requests[0] {
        Request::Message(m) => assert_eq!((m.username.as_str(), m.text.as_str()), ("bob", "hello")),
        _ => panic!("not a message"),
    }
    assert!(matches!(&app.view, View::Chat(c) if c.text.is_empty() && c.contact == "bob"));
    let f = app.chat_frame(false);
    assert!(f.requests.is_empty() && f.poll);
}

#[test]
fn chat_responses() {
    let mut app = App::new(vec![]);
    app.view = View::Chat(ChatScreen::open(s("bob")));
    app.chat_response(Response::History(vec![Message::new(s("bob"), s("1")), Message::new(s("alice"), s("2"))]));
    assert_eq!(app.messages.len(), 2);
    app.chat_response(Response::Message(Message::new(s("bob"), s("3"))));
    assert_eq!(app.messages.len(), 3);
    assert_eq!(app.messages[2].text, "3");
    app.chat_response(Response::Error(Error::new(s("oops"))));
    assert_eq!(app.error, Some(s("oops")));
    app.chat_response(Response::Success);
    assert_eq!(app.messages.len(), 3);
}

#[test]
fn default_screens_are_blank() {
    assert!(matches!(View::default(), View::Login(ref l) if l.username.is_empty() && l.password.is_empty()));
    let l = LoginScreen::default();
    assert!(l.username.is_empty());
    assert!(ContactsScreen::default().error.is_none());
}

#[test]
fn failed_registration_send_is_shown() {
    let mut app = App::new(vec![s("x")]);
    app.view = View::Register(RegisterScreen::default());
    app.register_send_failed(s("sending on a closed channel"));
    assert_eq!(app.error, Some(s("sending on a closed channel")));
    assert!(matches!(app.view, View::Register(_)));
    assert_eq!(app.contacts, vec![s("x")]);
}
