use rustchat::backend::db_manager::{DbError, DbManager};
use rustchat::backend::models::User;
use rustchat::backend::requests::{Login, Message, Register, Requests};
use rustchat::backend::responses::{Error, Response};
use rustchat::backend::session::{
    add_contact, add_contact_reply, admission, contacts_reply, delivery, greet, history_envelope, history_location,
    history_reply, location_of, Admission,
    is_addressed_to, list_contacts, login_greeting, login_required, outgoing_message, register_reply,
    route, with_message, Command, Continuation,
};

fn fresh() -> DbManager {
    DbManager::build(":memory:").expect("an in-memory database opens")
}

fn error_text(r: &Response) -> Option<String> {
    match r {
        Response::Error(e) => Some(e.text().clone()),
        _ => None,
    }
}

fn s(x: &str) -> String {
    x.to_string()
}

#[test]
fn register_then_login_opens_session() {
    let db = fresh();
    let g = greet(&db, Requests::Register(Register::new(s("alice"), s("h"))));
    assert!(matches!(g.reply, Response::Success));
    assert!(matches!(g.next, Continuation::Listen));
    let g = greet(&db, Requests::Login(Login::new(s("alice"), s("h"))));
    assert!(matches!(g.reply, Response::Success));
    match g.next {
        Continuation::Authenticated(name) => assert_eq!(name, "alice"),
        other => panic!("unexpected {:?}", other),
    }
}

#[test]
fn duplicate_registration_is_answered() {
    let db = fresh();
    greet(&db, Requests::Register(Register::new(s("alice"), s("h"))));
    let g = greet(&db, Requests::Register(Register::new(s("alice"), s("other"))));
    assert_eq!(error_text(&g.reply), Some(s("User hasn't created")));
    assert!(matches!(g.next, Continuation::Listen));
}

#[test]
fn bad_login_closes_connection() {
    let db = fresh();
    let g = greet(&db, Requests::Login(Login::new(s("nobody"), s("h"))));
    assert_eq!(error_text(&g.reply), Some(s("Username or password is incorrect")));
    assert!(matches!(g.next, Continuation::Close));
}

#[test]
fn other_requests_need_login() {
    let db = fresh();
    for rq in [
        Requests::GetContacts,
        Requests::GetHistory { username: s("b") },
        Requests::AddContact { username: s("b") },
        Requests::Message(Message::new(s("b"), s("hi"))),
    ] {
        let g = greet(&db, rq);
        assert_eq!(error_text(&g.reply), Some(s("Login required")));
        assert!(matches!(g.next, Continuation::Listen));
    }
    let g = login_required();
    assert_eq!(error_text(&g.reply), Some(s("Login required")));
}

#[test]
fn replies_from_outcomes() {
    assert!(matches!(register_reply(&Ok(())), Response::Success));
    assert_eq!(error_text(&register_reply(&Err(DbError::NoRows))), Some(s("User hasn't created")));
    let g = login_greeting(Ok(User::new(s("zed"), s("p"))));
    assert!(matches!(g.next, Continuation::Authenticated(ref n) if n == "zed"));
    assert!(matches!(login_greeting(Err(DbError::NoRows)).next, Continuation::Close));
}

#[test]
fn routing_of_logged_in_requests() {
    match route(Requests::Message(Message::new(s("bob"), s("hello")))) {
        Command::Relay { to, text } => assert_eq!((to.as_str(), text.as_str()), ("bob", "hello")),
        other => panic!("unexpected {:?}", other),
    }
    assert!(matches!(route(Requests::GetContacts), Command::ListContacts));
    assert!(matches!(route(Requests::AddContact { username: s("c") }), Command::AddContact(ref u) if u == "c"));
    assert!(matches!(route(Requests::GetHistory { username: s("c") }), Command::ReadHistory(ref u) if u == "c"));
    assert!(matches!(route(Requests::Login(Login::new(s("a"), s("b")))), Command::Ignore));
    assert!(matches!(route(Requests::Register(Register::new(s("a"), s("b")))), Command::Ignore));
}

#[test]
fn relayed_message_is_signed_by_sender() {
    let m = outgoing_message(&s("alice"), s("hi bob"));
    assert_eq!((m.username.as_str(), m.text.as_str()), ("alice", "hi bob"));
    let (to, resp) = delivery(&s("alice"), s("bob"), m.clone(), Ok(()));
    assert_eq!(to, "bob");
    match resp {
        Response::Message(got) => assert_eq!((got.username.as_str(), got.text.as_str()), ("alice", "hi bob")),
        other => panic!("unexpected {:?}", other),
    }
    let (to, resp) = delivery(&s("alice"), s("bob"), m, Err(s("no history")));
    assert_eq!(to, "alice");
    assert_eq!(error_text(&resp), Some(s("no history")));
}

#[test]
fn history_grows_at_the_end() {
    let h = with_message(vec![Message::new(s("a"), s("1"))], Message::new(s("b"), s("2")));
    assert_eq!(h.len(), 2);
    assert_eq!(h[1].text, "2");
}

#[test]
fn replies_to_own_requests() {
    assert!(matches!(contacts_reply(Ok(vec![s("x")])), Response::Contacts { ref contacts } if contacts == &vec![s("x")]));
    assert_eq!(error_text(&contacts_reply(Err(DbError::UnexpectedColumn))), Some(s("Invalid column type")));
    assert!(matches!(add_contact_reply(Ok(true)), Response::Success));
    assert_eq!(error_text(&add_contact_reply(Err(s("Connection exists")))), Some(s("Connection exists")));
    assert!(matches!(history_reply(Ok(vec![])), Response::History(ref h) if h.is_empty()));
    assert_eq!(error_text(&history_reply(Err(s("gone")))), Some(s("gone")));
}

#[test]
fn session_requests_against_database() {
    let db = fresh();
    for name in ["a", "b"] {
        db.add_user(s(name), s("1")).unwrap();
    }
    let (to, resp) = add_contact(&db, &s("a"), &s("b"));
    assert_eq!(to, "a");
    assert!(matches!(resp, Response::Success));
    let (to, resp) = add_contact(&db, &s("a"), &s("b"));
    assert_eq!(to, "a");
    assert_eq!(error_text(&resp), Some(s("Connection exists")));
    let (to, resp) = list_contacts(&db, &s("b"));
    assert_eq!(to, "b");
    assert!(matches!(resp, Response::Contacts { ref contacts } if contacts == &vec![s("a")]));
    assert_eq!(history_location(&db, &s("b"), &s("a")), Ok(s("1")));
    assert_eq!(history_location(&db, &s("a"), &s("nobody")), Err(s("Query returned no rows")));
}

#[test]
fn responses_reach_only_their_addressee() {
    assert!(is_addressed_to(&s("bob"), &s("bob")));
    assert!(!is_addressed_to(&s("bob"), &s("Bob")));
    assert!(!is_addressed_to(&s("bob"), &s("bobby")));
}

#[test]
fn error_keeps_its_text() {
    assert_eq!(Error::new(s("why")).text(), "why");
}

#[test]
fn admission_keeps_credentials() {
    match admission(Requests::Register(Register::new(s("u"), s("p")))) {
        Admission::Register { username, password } => assert_eq!((username.as_str(), password.as_str()), ("u", "p")),
        other => panic!("unexpected {:?}", other),
    }
    match admission(Requests::Login(Login::new(s("u"), s("p")))) {
        Admission::Login { username, password } => assert_eq!((username.as_str(), password.as_str()), ("u", "p")),
        other => panic!("unexpected {:?}", other),
    }
    assert!(matches!(admission(Requests::GetContacts), Admission::Refuse));
}

#[test]
fn history_locations_and_envelopes() {
    assert_eq!(location_of(Ok(12)), Ok(s("12")));
    assert_eq!(location_of(Err(DbError::NoRows)), Err(s("Query returned no rows")));
    let (to, resp) = history_envelope(&s("a"), Ok(vec![Message::new(s("b"), s("x"))]));
    assert_eq!(to, "a");
    assert!(matches!(resp, Response::History(ref h) if h.len() == 1));
    let (to, resp) = history_envelope(&s("a"), Err(s("gone")));
    assert_eq!(to, "a");
    assert_eq!(error_text(&resp), Some(s("gone")));
}
