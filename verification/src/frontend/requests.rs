//! What the client sends. Passwords leave the client only as the decimal
//! text of their `DefaultHasher` digest.

use vstd::prelude::*;
use std::collections::hash_map::DefaultHasher;
use std::hash::{Hash, Hasher};
use vstd::std_specs::hash::DefaultHasherAdditionalSpecFns;
use crate::decimal::{
    decimal, decimal_value, is_digit, lemma_decimal_injective, lemma_decimal_shape, lemma_decimal_value,
    lemma_u64_decimal_len, u64_to_decimal,
};

verus! {

/// A request of the wire protocol, tagged by its kind.
pub enum Request {
    Message(Message),
    Login(Login),
    Register(Register),
    GetContacts,
    GetHistory { username: String },
    AddContact { username: String },
}

/// A chat message: to the server `username` names the recipient; from the
/// server it names the sender.
#[derive(Debug, Clone)]
pub struct Message {
    pub username: String,
    pub text: String,
}

/// Credentials of an existing account. `error` is the client's own note of
/// the last refusal and is not sent.
#[derive(Clone)]
pub struct Login {
    pub username: String,
    pub password: String,
    pub error: Option<String>,
}

/// Credentials for a new account.
#[derive(Debug, Clone)]
pub struct Register {
    pub username: String,
    pub password: String,
}

/// The writes that hashing a string with `Hash::hash` adds to a
/// `DefaultHasher` that has seen `before`.
pub uninterp spec fn hash_writes(before: Seq<Seq<u8>>, s: Seq<char>) -> Seq<Seq<u8>>;

/// `<String as std::hash::Hash>::hash` into a `DefaultHasher`. Claimed: the
/// writes it performs are a function of the hasher's earlier writes and of
/// the string's characters (named `hash_writes`); which bytes they are is
/// left unsaid.
#[verifier::external_body]
fn hash_string(s: &String, hasher: &mut DefaultHasher)
    ensures
        final(hasher)@ == hash_writes(old(hasher)@, s@),
{
    s.hash(hasher)
}

/// The digest a fresh `DefaultHasher` gives of `password`.
pub open spec fn password_digest(password: Seq<char>) -> u64 {
    DefaultHasher::spec_finish(hash_writes(Seq::empty(), password))
}

/// The text a password is sent as: the decimal text of its digest.
pub open spec fn hashed_password(password: Seq<char>) -> Seq<char> {
    decimal(password_digest(password) as nat)
}

fn hash_text(password: &String) -> (h: String)
    ensures
        h@ == hashed_password(password@),
{
    let mut hasher = DefaultHasher::new();
    hash_string(password, &mut hasher);
    u64_to_decimal(hasher.finish())
}

/// Two passwords are sent as the same text exactly when their digests agree:
/// the server, comparing texts, compares digests.
pub proof fn lemma_same_text_same_digest(p: Seq<char>, q: Seq<char>)
    ensures
        hashed_password(p) == hashed_password(q) <==> password_digest(p) == password_digest(q),
{
    if hashed_password(p) == hashed_password(q) {
        lemma_decimal_injective(password_digest(p) as nat, password_digest(q) as nat);
    }
}

/// A password is sent as 1 to 20 decimal digits, without a leading zero
/// unless it is `0`, and they read back as its digest.
pub proof fn lemma_hashed_password_shape(p: Seq<char>)
    ensures
        1 <= hashed_password(p).len() <= 20,
        forall|k: int| 0 <= k < hashed_password(p).len() ==> is_digit(#[trigger] hashed_password(p)[k]),
        hashed_password(p)[0] == '0' ==> password_digest(p) == 0,
        decimal_value(hashed_password(p)) == password_digest(p),
{
    lemma_decimal_shape(password_digest(p) as nat);
    lemma_u64_decimal_len(password_digest(p));
    lemma_decimal_value(password_digest(p) as nat);
}

/// A login with the password an account was registered with presents the
/// very text the registration stored.
pub proof fn lemma_login_presents_registered_text(registered: Register, login: Login, typed: Seq<char>)
    requires
        registered.password@ == hashed_password(typed),
        login.password@ == hashed_password(typed),
    ensures
        login.password@ == registered.password@,
{
}

impl Message {
    pub fn new(username: String, text: String) -> (m: Self)
        ensures
            m.username == username,
            m.text == text,
    {
        Message { username, text }
    }
}

impl Login {
    /// Credentials with the password replaced by the text of its digest.
    pub fn new(username: String, password: String) -> (l: Self)
        ensures
            l.username == username,
            l.password@ == hashed_password(password@),
            l.error is None,
    {
        let password = hash_text(&password);
        Login { username, password, error: None }
    }

    /// Replaces the password by the text of its digest.
    pub fn hash_password(&mut self)
        ensures
            final(self).username == old(self).username,
            final(self).error == old(self).error,
            final(self).password@ == hashed_password(old(self).password@),
    {
        self.password = hash_text(&self.password);
    }
}

impl Default for Login {
    fn default() -> (l: Self)
        ensures
            l.username@ == Seq::<char>::empty(),
            l.password@ == Seq::<char>::empty(),
            l.error is None,
    {
        Login { username: String::new(), password: String::new(), error: None }
    }
}

impl Register {
    /// Credentials with the password replaced by the text of its digest.
    pub fn new(username: String, password: String) -> (r: Self)
        ensures
            r.username == username,
            r.password@ == hashed_password(password@),
    {
        let password = hash_text(&password);
        Register { username, password }
    }
}

} // verus!
