//! The decisions of a client's session on the server.
//!
//! A session first waits for the client to register or log in; once logged
//! in, it serves the client's requests and relays its messages. The socket,
//! the broadcast channel and the history files are handled by the program
//! around this library: it hands each request to these functions and carries
//! out what they return.

use vstd::prelude::*;
use crate::backend::db_manager::{DbManager, DbError, db_error_text, history_file_name};
use crate::backend::models::User;
use crate::backend::requests::{Message, Requests};
use crate::backend::responses::{Error, Response};
use crate::decimal::signed_decimal;

verus! {

/// Whether `r` is an error response carrying `text`.
pub open spec fn is_error_reply(r: Response, text: Seq<char>) -> bool {
    r matches Response::Error(reason) && reason.data()@ == text
}

/// The refusal of a request that needs a logged-in session.
pub open spec fn login_required_text() -> Seq<char> {
    "Login required"@
}

/// The answer to a registration the database did not accept.
pub open spec fn not_created_text() -> Seq<char> {
    "User hasn't created"@
}

/// The answer to credentials that match no account.
pub open spec fn bad_credentials_text() -> Seq<char> {
    "Username or password is incorrect"@
}

/// What a session does after answering a request that came before login.
#[derive(Debug, Clone)]
pub enum Continuation {
    /// Keep waiting for a registration or a login.
    Listen,
    /// The client is logged in as this user: serve its requests from now on.
    Authenticated(String),
    /// Close the connection.
    Close,
}

/// The answer to a request that came before login, and what follows it.
#[derive(Debug, Clone)]
pub struct Greeting {
    pub reply: Response,
    pub next: Continuation,
}

fn error_reply(text: &str) -> (r: Response)
    ensures
        is_error_reply(r, text@),
{
    Response::Error(Error::new(String::from_str(text)))
}

/// The answer to a registration, from what the database made of it.
pub fn register_reply(created: &Result<(), DbError>) -> (r: Response)
    ensures
        created is Ok ==> r is Success,
        created is Err ==> is_error_reply(r, not_created_text()),
{
    match created {
        Ok(()) => Response::Success,
        Err(_) => {
            proof { reveal_strlit("User hasn't created"); }
            error_reply("User hasn't created")
        },
    }
}

/// The answer to a login, from the account the database found for the
/// credentials: a found account opens the session as that user; otherwise
/// the connection closes after the refusal.
pub fn login_greeting(found: Result<User, DbError>) -> (g: Greeting)
    ensures
        found matches Ok(u) ==> g.reply is Success && g.next == Continuation::Authenticated(u.name),
        found is Err ==> is_error_reply(g.reply, bad_credentials_text()) && g.next is Close,
{
    match found {
        Ok(user) => Greeting { reply: Response::Success, next: Continuation::Authenticated(user.name) },
        Err(_) => {
            proof { reveal_strlit("Username or password is incorrect"); }
            Greeting { reply: error_reply("Username or password is incorrect"), next: Continuation::Close }
        },
    }
}

/// The answer to any other request before login.
pub fn login_required() -> (g: Greeting)
    ensures
        is_error_reply(g.reply, login_required_text()),
        g.next is Listen,
{
    proof { reveal_strlit("Login required"); }
    Greeting { reply: error_reply("Login required"), next: Continuation::Listen }
}

/// What a request that came before login asks of the server.
#[derive(Debug, Clone)]
pub enum Admission {
    /// Create the account with these credentials.
    Register { username: String, password: String },
    /// Open the session of the account with these credentials.
    Login { username: String, password: String },
    /// Nothing the server does before login.
    Refuse,
}

/// What a request that came before login asks: the credentials of a
/// registration or login, unchanged; any other request is refused.
pub fn admission(request: Requests) -> (a: Admission)
    ensures
        (request matches Requests::Register(r) ==> a == (Admission::Register { username: r.username, password: r.password })),
        (request matches Requests::Login(l) ==> a == (Admission::Login { username: l.username, password: l.password })),
        !(request is Register || request is Login) ==> a is Refuse,
{
    match request {
        Requests::Register(r) => Admission::Register { username: r.username, password: r.password },
        Requests::Login(l) => Admission::Login { username: l.username, password: l.password },
        _ => Admission::Refuse,
    }
}

/// Serves a request that came before login: a registration creates the
/// account (`DbManager::add_user` with the credentials `admission` gives),
/// a login checks the credentials (`DbManager::login_user`, then
/// `login_greeting`), anything else is refused.
pub fn greet(db: &DbManager, request: Requests) -> (g: Greeting)
    ensures
        request is Register ==> g.next is Listen
            && (g.reply is Success || is_error_reply(g.reply, not_created_text())),
        request is Login ==> (g.reply is Success && g.next is Authenticated)
            || (is_error_reply(g.reply, bad_credentials_text()) && g.next is Close),
        !(request is Register || request is Login) ==> is_error_reply(g.reply, login_required_text())
            && g.next is Listen,
{
    match admission(request) {
        Admission::Register { username, password } => {
            let created = db.add_user(username, password);
            Greeting { reply: register_reply(&created), next: Continuation::Listen }
        },
        Admission::Login { username, password } => login_greeting(db.login_user(username, password)),
        Admission::Refuse => login_required(),
    }
}

/// What a logged-in session does with a request.
#[derive(Debug, Clone)]
pub enum Command {
    /// Store and relay a message with this text to this user.
    Relay { to: String, text: String },
    /// Send the session's user its contacts.
    ListContacts,
    /// Make this user a contact of the session's user.
    AddContact(String),
    /// Send the session's user its history with this user.
    ReadHistory(String),
    /// Nothing: registrations and logins have no meaning once logged in.
    Ignore,
}

/// What a logged-in session does with `request`.
pub fn route(request: Requests) -> (c: Command)
    ensures
        (request matches Requests::Message(m) ==> c == (Command::Relay { to: m.username, text: m.text })),
        request is GetContacts ==> c is ListContacts,
        (request matches Requests::AddContact { username } ==> c == Command::AddContact(username)),
        (request matches Requests::GetHistory { username } ==> c == Command::ReadHistory(username)),
        (request is Login || request is Register) ==> c is Ignore,
{
    match request {
        Requests::Message(m) => Command::Relay { to: m.username, text: m.text },
        Requests::GetContacts => Command::ListContacts,
        Requests::AddContact { username } => Command::AddContact(username),
        Requests::GetHistory { username } => Command::ReadHistory(username),
        Requests::Login(_) | Requests::Register(_) => Command::Ignore,
    }
}

/// The message a session relays and stores: it is signed with the
/// session's user, whatever the client named as recipient.
pub fn outgoing_message(sender: &String, text: String) -> (m: Message)
    ensures
        m.username == *sender,
        m.text == text,
{
    Message::new(sender.clone(), text)
}

/// A conversation's history once `message` has been stored: it comes last.
pub fn with_message(history: Vec<Message>, message: Message) -> (h: Vec<Message>)
    ensures
        h@ == history@.push(message),
{
    let mut history = history;
    history.push(message);
    history
}

/// Where a relayed message goes: to the recipient once stored; if it could
/// not be stored, the error goes back to the sender instead.
pub open spec fn delivery_spec(sender: String, to: String, message: Message, stored: Result<(), String>) -> (String, Response) {
    match stored {
        Ok(()) => (to, Response::Message(message)),
        Err(e) => (sender, Response::Error(Error::new_spec(e))),
    }
}

/// Where a relayed message goes.
pub fn delivery(sender: &String, to: String, message: Message, stored: Result<(), String>) -> (d: (String, Response))
    ensures
        d == delivery_spec(*sender, to, message, stored),
{
    match stored {
        Ok(()) => (to, Response::Message(message)),
        Err(e) => (sender.clone(), Response::Error(Error::new(e))),
    }
}

/// A relayed message reaches the user the client named, signed with the
/// session's user and carrying the client's text; when it cannot be stored,
/// only the sender hears of it, with the reason.
pub proof fn lemma_relay_reaches_recipient_signed(sender: String, to: String, text: String, failure: String)
    ensures
        delivery_spec(sender, to, Message { username: sender, text }, Ok(()))
            == (to, Response::Message(Message { username: sender, text })),
        delivery_spec(sender, to, Message { username: sender, text }, Err(failure)).0 == sender,
        is_error_reply(delivery_spec(sender, to, Message { username: sender, text }, Err(failure)).1, failure@),
{
    Error::lemma_new_data(failure);
}

/// The answer to a request for contacts.
pub fn contacts_reply(found: Result<Vec<String>, DbError>) -> (r: Response)
    ensures
        (found matches Ok(v) ==> r == (Response::Contacts { contacts: v })),
        found matches Err(e) ==> is_error_reply(r, db_error_text(e)),
{
    match found {
        Ok(contacts) => Response::Contacts { contacts },
        Err(e) => Response::Error(Error::new(e.describe())),
    }
}

/// The answer to a request to add a contact.
pub fn add_contact_reply(added: Result<bool, String>) -> (r: Response)
    ensures
        added is Ok ==> r is Success,
        added matches Err(e) ==> is_error_reply(r, e@),
{
    match added {
        Ok(_) => Response::Success,
        Err(e) => Response::Error(Error::new(e)),
    }
}

/// The answer to a request for a conversation's history.
pub fn history_reply(read: Result<Vec<Message>, String>) -> (r: Response)
    ensures
        read matches Ok(h) ==> r == Response::History(h),
        read matches Err(e) ==> is_error_reply(r, e@),
{
    match read {
        Ok(history) => Response::History(history),
        Err(e) => Response::Error(Error::new(e)),
    }
}

/// The contacts of the session's user, addressed to that user.
pub fn list_contacts(db: &DbManager, username: &String) -> (d: (String, Response))
    ensures
        d.0 == *username,
        d.1 is Contacts || d.1 is Error,
{
    let found = db.get_connections(username.clone());
    (username.clone(), contacts_reply(found))
}

/// Makes `other` a contact of the session's user; the answer is addressed to that user.
pub fn add_contact(db: &DbManager, username: &String, other: &String) -> (d: (String, Response))
    ensures
        d.0 == *username,
        d.1 is Success || d.1 is Error,
{
    let added = db.add_connection(username.as_str(), other.as_str());
    (username.clone(), add_contact_reply(added))
}

/// The history file an id lookup names: the decimal text of the id, or the
/// text of the lookup's error (no file when the users are not connected).
pub open spec fn location_spec(id: Result<i32, DbError>) -> Result<Seq<char>, Seq<char>> {
    match id {
        Ok(n) => Ok(signed_decimal(n as int)),
        Err(e) => Err(db_error_text(e)),
    }
}

/// The history file an id lookup names.
pub fn location_of(id: Result<i32, DbError>) -> (r: Result<String, String>)
    ensures
        match r {
            Ok(name) => location_spec(id) == Ok::<Seq<char>, Seq<char>>(name@),
            Err(text) => location_spec(id) == Err::<Seq<char>, Seq<char>>(text@),
        },
{
    match id {
        Ok(n) => Ok(history_file_name(n)),
        Err(e) => Err(e.describe()),
    }
}

/// The file that holds the conversation between the session's user and
/// `other` (`DbManager::history_id`, then `location_of`), or the text of why
/// there is none.
pub fn history_location(db: &DbManager, username: &String, other: &String) -> (r: Result<String, String>)
    ensures
        r matches Ok(name) ==> exists|id: i32| name@ == signed_decimal(id as int),
{
    location_of(db.history_id(username.as_str(), other.as_str()))
}

/// The answer to a request for a conversation's history, addressed to the
/// session's user.
pub fn history_envelope(username: &String, read: Result<Vec<Message>, String>) -> (d: (String, Response))
    ensures
        d.0 == *username,
        (read matches Ok(h) ==> d.1 == Response::History(h)),
        read matches Err(e) ==> is_error_reply(d.1, e@),
{
    (username.clone(), history_reply(read))
}

/// Whether a session of `s` may send `d`: everything it sends is addressed
/// to `s`, except a relayed message, which is signed by `s`.
pub open spec fn sent_by_session(s: String, d: (String, Response)) -> bool {
    d.0 == s || (d.1 matches Response::Message(m) && m.username == s)
}

/// A session only ever addresses its own user, except when it relays a
/// message, and a relayed message always carries the session's user as its
/// sender: a client cannot speak under another user's name.
pub proof fn lemma_session_speaks_for_its_user(
    s: String,
    to: String,
    text: String,
    stored: Result<(), String>,
    contacts: Response,
    added: Response,
    history: Response,
)
    ensures
        sent_by_session(s, delivery_spec(s, to, Message { username: s, text }, stored)),
        sent_by_session(s, (s, contacts)),
        sent_by_session(s, (s, added)),
        sent_by_session(s, (s, history)),
{
}

/// What the writer of `username`'s connection writes, in order, of the
/// responses put on the broadcast channel: those addressed to `username`.
pub open spec fn written_to(username: Seq<char>, sent: Seq<(String, Response)>) -> Seq<Response>
    decreases sent.len(),
{
    if sent.len() == 0 {
        Seq::empty()
    } else {
        let rest = written_to(username, sent.drop_last());
        if sent.last().0@ == username {
            rest.push(sent.last().1)
        } else {
            rest
        }
    }
}

/// The responses addressed to `username` among `sent`, in order.
pub open spec fn addressed_to(username: Seq<char>, sent: Seq<(String, Response)>) -> Seq<(String, Response)> {
    sent.filter(for_user(username))
}

/// Whether a response is addressed to `username`.
pub open spec fn for_user(username: Seq<char>) -> spec_fn((String, Response)) -> bool {
    |d: (String, Response)| d.0@ == username
}

proof fn lemma_written_is_addressed(username: Seq<char>, sent: Seq<(String, Response)>)
    ensures
        written_to(username, sent) == addressed_to(username, sent).map_values(|d: (String, Response)| d.1),
    decreases sent.len(),
{
    reveal_with_fuel(Seq::filter, 1);
    let second = |d: (String, Response)| d.1;
    if sent.len() > 0 {
        lemma_written_is_addressed(username, sent.drop_last());
        let rest = sent.drop_last().filter(for_user(username));
        if sent.last().0@ == username {
            assert(addressed_to(username, sent) == rest.push(sent.last()));
        } else {
            assert(addressed_to(username, sent) == rest);
        }
        assert(written_to(username, sent) =~= addressed_to(username, sent).map_values(second));
    } else {
        assert(addressed_to(username, sent) =~= Seq::<(String, Response)>::empty());
        assert(written_to(username, sent) =~= addressed_to(username, sent).map_values(second));
    }
}

/// What a connection writes depends only on the responses addressed to its
/// user: responses for other users never reach it nor change what it writes.
pub proof fn lemma_writer_sees_only_its_user(
    username: Seq<char>,
    sent1: Seq<(String, Response)>,
    sent2: Seq<(String, Response)>,
)
    requires
        addressed_to(username, sent1) == addressed_to(username, sent2),
    ensures
        written_to(username, sent1) == written_to(username, sent2),
{
    lemma_written_is_addressed(username, sent1);
    lemma_written_is_addressed(username, sent2);
}

/// Whether a response addressed to `recipient` is written to the session of `username`.
pub fn is_addressed_to(recipient: &String, username: &String) -> (b: bool)
    ensures
        b <==> recipient@ == username@,
{
    *recipient == *username
}

} // verus!
