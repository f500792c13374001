use socks5_proxy::auth::{init, AuthMode};

fn check(configuration: &str, login: &str, password: &str) -> bool {
    let auth = init(configuration).expect("a well-formed configuration");
    auth.check_auth(login.to_string(), password.to_string())
}

#[test]
fn empty_configuration_needs_no_authentication() {
    let auth = init("").expect("the empty configuration is well-formed");
    assert!(matches!(auth.mode, AuthMode::NoAuth));
    assert!(auth.credentials.is_empty());
    assert!(auth.check_auth("anyone".to_string(), "anything".to_string()));
    assert!(auth.check_auth(String::new(), String::new()));
}

#[test]
fn configuration_with_pairs_asks_for_login_and_password() {
    let auth = init("alice:secret;bob:hunter2").expect("two well-formed entries");
    assert!(matches!(auth.mode, AuthMode::LoginPassword));
    assert_eq!(auth.credentials.len(), 2);
    assert!(auth.check_auth("alice".to_string(), "secret".to_string()));
    assert!(auth.check_auth("bob".to_string(), "hunter2".to_string()));
}

#[test]
fn unknown_login_is_denied() {
    assert!(!check("alice:secret;bob:hunter2", "carol", "secret"));
    assert!(!check("alice:secret", "", ""));
}

#[test]
fn wrong_password_is_denied() {
    assert!(!check("alice:secret;bob:hunter2", "alice", "hunter2"));
    assert!(!check("alice:secret", "alice", ""));
    assert!(!check("alice:secret", "alice", "secret "));
}

#[test]
fn logins_and_passwords_are_case_sensitive() {
    assert!(check("Alice:Secret", "Alice", "Secret"));
    assert!(!check("Alice:Secret", "alice", "Secret"));
    assert!(!check("Alice:Secret", "Alice", "secret"));
}

#[test]
fn single_entry_configuration() {
    let auth = init("root:toor").expect("one well-formed entry");
    assert!(matches!(auth.mode, AuthMode::LoginPassword));
    assert_eq!(auth.credentials.len(), 1);
    assert!(auth.check_auth("root".to_string(), "toor".to_string()));
}

#[test]
fn later_entry_replaces_earlier_one() {
    let auth = init("alice:old;alice:new").expect("two well-formed entries");
    assert_eq!(auth.credentials.len(), 1);
    assert!(auth.check_auth("alice".to_string(), "new".to_string()));
    assert!(!auth.check_auth("alice".to_string(), "old".to_string()));
}

#[test]
fn text_after_a_second_colon_is_not_read() {
    assert!(check("alice:secret:extra", "alice", "secret"));
    assert!(!check("alice:secret:extra", "alice", "secret:extra"));
    assert!(!check("alice:secret:extra", "alice", "extra"));
}

#[test]
fn empty_login_and_password_are_pairs_too() {
    assert!(check(":", "", ""));
    assert!(check("alice:", "alice", ""));
    assert!(check(":secret", "", "secret"));
    assert!(!check(":secret", "", ""));
}

#[test]
fn entry_without_colon_spoils_the_configuration() {
    assert!(init("alice").is_none());
    assert!(init("alice:secret;bob").is_none());
    assert!(init("bob;alice:secret").is_none());
    assert!(init("alice:secret;").is_none());
    assert!(init(";alice:secret").is_none());
    assert!(init(";").is_none());
    assert!(init(" ").is_none());
}

#[test]
fn logins_outside_ascii() {
    assert!(check("zoë:pässwörd;ユーザー:パスワード", "zoë", "pässwörd"));
    assert!(check("zoë:pässwörd;ユーザー:パスワード", "ユーザー", "パスワード"));
    assert!(!check("zoë:pässwörd", "zoe", "pässwörd"));
}
