use std::collections::hash_map::DefaultHasher;
use std::hash::{Hash, Hasher};

use rustchat::frontend::models::User;
use rustchat::frontend::requests::{Login, Message, Register};

fn digest_text(password: &str) -> String {
    let mut hasher = DefaultHasher::new();
    password.to_string().hash(&mut hasher);
    hasher.finish().to_string()
}

#[test]
fn login_sends_hashed_password() {
    let login = Login::new("alice".to_string(), "secret".to_string());
    assert_eq!(login.username, "alice");
    assert_eq!(login.password, digest_text("secret"));
    assert_ne!(login.password, "secret");
    assert!(login.error.is_none());
}

#[test]
fn register_sends_hashed_password() {
    let register = Register::new("bob".to_string(), "hunter2".to_string());
    assert_eq!(register.username, "bob");
    assert_eq!(register.password, digest_text("hunter2"));
}

#[test]
fn login_presents_the_text_registration_stored() {
    let register = Register::new("carol".to_string(), "p@ss word".to_string());
    let login = Login::new("carol".to_string(), "p@ss word".to_string());
    assert_eq!(register.password, login.password);
    let other = Login::new("carol".to_string(), "p@ss Word".to_string());
    assert_ne!(register.password, other.password);
}

#[test]
fn hash_password_equals_new() {
    let mut login = Login { username: "dave".to_string(), password: "pw".to_string(), error: Some("old".to_string()) };
    login.hash_password();
    assert_eq!(login.password, Login::new("dave".to_string(), "pw".to_string()).password);
    assert_eq!(login.username, "dave");
    assert_eq!(login.error, Some("old".to_string()));
}

#[test]
fn empty_password_is_hashed_too() {
    let login = Login::new(String::new(), String::new());
    assert_eq!(login.password, digest_text(""));
    assert!(login.password.chars().all(|c| c.is_ascii_digit()));
}

#[test]
fn default_login_is_blank() {
    let login = Login::default();
    assert!(login.username.is_empty() && login.password.is_empty() && login.error.is_none());
}

#[test]
fn message_and_user_constructors() {
    let m = Message::new("erin".to_string(), "hi".to_string());
    assert_eq!((m.username.as_str(), m.text.as_str()), ("erin", "hi"));
    let u = User::new("frank".to_string(), "x".to_string());
    assert_eq!(u.username, "frank");
}

#[test]
fn hashed_password_reads_back_as_digest() {
    for pw in ["", "a", "secret", "a much longer pass phrase"] {
        let login = Login::new(s_of(pw), s_of(pw));
        assert!(!login.password.is_empty() && login.password.len() <= 20);
        assert!(login.password.chars().all(|c| c.is_ascii_digit()));
        let mut hasher = DefaultHasher::new();
        pw.to_string().hash(&mut hasher);
        assert_eq!(login.password.parse::<u64>().unwrap(), hasher.finish());
    }
}

fn s_of(x: &str) -> String {
    x.to_string()
}
