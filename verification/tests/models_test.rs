use web_auth::models::{
    clone_optional, contains_char, LoginForm, RegisterForm, SessionUser, Timestamp, User,
    Violation, MIN_PASSWORD_CHARS, MIN_USERNAME_CHARS,
};

fn form(email: &str, username: &str, password: &str, confirm: &str) -> RegisterForm {
    RegisterForm {
        email: email.to_string(),
        username: username.to_string(),
        password: password.to_string(),
        password_confirm: confirm.to_string(),
        first_name: None,
        last_name: None,
    }
}

fn stored(first: Option<&str>, last: Option<&str>) -> User {
    User {
        id: "id-1".to_string(),
        email: "a@x.com".to_string(),
        username: "alice".to_string(),
        password_hash: "hash".to_string(),
        first_name: first.map(|s| s.to_string()),
        last_name: last.map(|s| s.to_string()),
        avatar_url: Some("/a.png".to_string()),
        is_active: true,
        created_at: Timestamp { secs: 10, nanos: 20 },
        updated_at: Timestamp { secs: 30, nanos: 40 },
    }
}

#[test]
fn valid_form_passes() {
    assert_eq!(form("a@x.com", "alice", "secret1", "secret1").validate(), Ok(()));
    assert!(form("a@x.com", "alice", "secret1", "secret1").violations().is_empty());
}

#[test]
fn shortest_valid_fields_pass() {
    assert_eq!(form("@", "abc", "123456", "123456").validate(), Ok(()));
    assert_eq!(MIN_USERNAME_CHARS, 3);
    assert_eq!(MIN_PASSWORD_CHARS, 6);
}

#[test]
fn empty_email_is_required() {
    assert_eq!(
        form("", "alice", "secret1", "secret1").validate(),
        Err(vec!["Email is required".to_string()])
    );
}

#[test]
fn email_without_at_is_invalid() {
    assert_eq!(
        form("a.x.com", "alice", "secret1", "secret1").validate(),
        Err(vec!["Please enter a valid email address".to_string()])
    );
}

#[test]
fn empty_username_is_required() {
    assert_eq!(
        form("a@x.com", "", "secret1", "secret1").validate(),
        Err(vec!["Username is required".to_string()])
    );
}

#[test]
fn short_username_is_rejected() {
    assert_eq!(
        form("a@x.com", "al", "secret1", "secret1").validate(),
        Err(vec!["Username must be at least 3 characters long".to_string()])
    );
}

#[test]
fn empty_password_is_required_and_differs_from_confirmation() {
    assert_eq!(
        form("a@x.com", "alice", "", "secret1").validate(),
        Err(vec!["Password is required".to_string(), "Passwords do not match".to_string()])
    );
}

#[test]
fn empty_password_with_empty_confirmation() {
    assert_eq!(
        form("a@x.com", "alice", "", "").validate(),
        Err(vec!["Password is required".to_string()])
    );
}

#[test]
fn short_password_is_rejected() {
    assert_eq!(
        form("a@x.com", "alice", "12345", "12345").validate(),
        Err(vec!["Password must be at least 6 characters long".to_string()])
    );
}

#[test]
fn mismatch_alone_is_the_only_sentence() {
    assert_eq!(
        form("a@x.com", "alice", "secret1", "secret2").validate(),
        Err(vec!["Passwords do not match".to_string()])
    );
}

#[test]
fn every_violation_is_collected_in_order() {
    let bad = form("", "", "", "x");
    assert_eq!(
        bad.violations(),
        vec![
            Violation::EmailRequired,
            Violation::UsernameRequired,
            Violation::PasswordRequired,
            Violation::PasswordMismatch,
        ]
    );
    assert_eq!(
        bad.validate(),
        Err(vec![
            "Email is required".to_string(),
            "Username is required".to_string(),
            "Password is required".to_string(),
            "Passwords do not match".to_string(),
        ])
    );
    let other = form("nope", "ab", "12345", "54321");
    assert_eq!(
        other.violations(),
        vec![
            Violation::EmailInvalid,
            Violation::UsernameTooShort,
            Violation::PasswordTooShort,
            Violation::PasswordMismatch,
        ]
    );
}

#[test]
fn mismatch_is_last_whatever_else_is_wrong() {
    let bad = form("", "alice", "secret1", "other");
    let found = bad.violations();
    assert_eq!(found, vec![Violation::EmailRequired, Violation::PasswordMismatch]);
    assert_eq!(found.iter().filter(|v| **v == Violation::PasswordMismatch).count(), 1);
}

#[test]
fn lengths_are_counted_in_characters() {
    assert_eq!(
        form("a@x.com", "\u{e9}\u{e9}", "secret1", "secret1").validate(),
        Err(vec!["Username must be at least 3 characters long".to_string()])
    );
    assert_eq!(form("a@x.com", "\u{e9}\u{e9}\u{e9}", "secret1", "secret1").validate(), Ok(()));
    assert_eq!(
        form("a@x.com", "alice", "\u{4e2d}\u{6587}\u{5bc6}", "\u{4e2d}\u{6587}\u{5bc6}").validate(),
        Err(vec!["Password must be at least 6 characters long".to_string()])
    );
}

#[test]
fn violation_text_is_its_sentence() {
    assert_eq!(Violation::EmailRequired.text(), "Email is required");
    assert_eq!(Violation::EmailInvalid.text(), "Please enter a valid email address");
    assert_eq!(Violation::UsernameRequired.text(), "Username is required");
    assert_eq!(Violation::UsernameTooShort.text(), "Username must be at least 3 characters long");
    assert_eq!(Violation::PasswordRequired.text(), "Password is required");
    assert_eq!(Violation::PasswordTooShort.text(), "Password must be at least 6 characters long");
    assert_eq!(Violation::PasswordMismatch.text(), "Passwords do not match");
}

#[test]
fn contains_char_finds_the_character() {
    assert!(contains_char("a@b", '@'));
    assert!(contains_char("@", '@'));
    assert!(contains_char("ab@", '@'));
    assert!(!contains_char("", '@'));
    assert!(!contains_char("abc", '@'));
    assert!(contains_char("\u{e9}@", '@'));
}

#[test]
fn full_name_prefers_both_names() {
    assert_eq!(stored(Some("Ada"), Some("Lovelace")).full_name(), "Ada Lovelace");
}

#[test]
fn full_name_falls_back_in_order() {
    assert_eq!(stored(Some("Ada"), None).full_name(), "Ada");
    assert_eq!(stored(None, Some("Lovelace")).full_name(), "Lovelace");
    assert_eq!(stored(None, None).full_name(), "alice");
}

#[test]
fn full_name_keeps_empty_names() {
    assert_eq!(stored(Some(""), Some("")).full_name(), " ");
}

#[test]
fn session_user_is_projected_from_user() {
    let identity = SessionUser::from(stored(Some("Ada"), Some("Lovelace")));
    assert_eq!(
        identity,
        SessionUser {
            id: "id-1".to_string(),
            email: "a@x.com".to_string(),
            username: "alice".to_string(),
            full_name: "Ada Lovelace".to_string(),
            avatar_url: Some("/a.png".to_string()),
        }
    );
    let plain = SessionUser::from(stored(None, None));
    assert_eq!(plain.full_name, "alice");
    assert_eq!(plain.id, "id-1");
}

#[test]
fn assemble_builds_a_fresh_account() {
    let now = Timestamp { secs: 1_700_000_000, nanos: 5 };
    let user = User::assemble(
        "id-9".to_string(),
        "b@x.com".to_string(),
        "bob".to_string(),
        "h".to_string(),
        now,
    );
    assert_eq!(
        user,
        User {
            id: "id-9".to_string(),
            email: "b@x.com".to_string(),
            username: "bob".to_string(),
            password_hash: "h".to_string(),
            first_name: None,
            last_name: None,
            avatar_url: None,
            is_active: true,
            created_at: now,
            updated_at: now,
        }
    );
}

#[test]
fn new_user_gets_a_uuid_and_the_current_time() {
    let user = User::new("b@x.com".to_string(), "bob".to_string(), "h".to_string());
    assert_eq!(user.email, "b@x.com");
    assert_eq!(user.username, "bob");
    assert_eq!(user.password_hash, "h");
    assert_eq!(user.first_name, None);
    assert_eq!(user.last_name, None);
    assert_eq!(user.avatar_url, None);
    assert!(user.is_active);
    assert_eq!(user.created_at, user.updated_at);
    assert!(user.created_at.nanos < 1_000_000_000);
    assert!(user.created_at.secs > 1_600_000_000);
    let id: Vec<char> = user.id.chars().collect();
    assert_eq!(id.len(), 36);
    for (i, c) in id.iter().enumerate() {
        if i == 8 || i == 13 || i == 18 || i == 23 {
            assert_eq!(*c, '-');
        } else {
            assert!(matches!(*c, '0'..='9' | 'a'..='f'));
        }
    }
    assert_eq!(id[14], '4');
}

#[test]
fn new_users_get_distinct_ids() {
    let a = User::new("a@x.com".to_string(), "a".to_string(), "h".to_string());
    let b = User::new("a@x.com".to_string(), "a".to_string(), "h".to_string());
    assert_ne!(a.id, b.id);
}

#[test]
fn record_flag_zero_is_inactive() {
    let t = Timestamp { secs: 1, nanos: 2 };
    let u = Timestamp { secs: 3, nanos: 4 };
    let user = User::from_record(
        "id".to_string(),
        "a@x.com".to_string(),
        "alice".to_string(),
        "h".to_string(),
        Some("Ada".to_string()),
        None,
        Some("/p.png".to_string()),
        0,
        t,
        u,
    );
    assert!(!user.is_active);
    assert_eq!(user.first_name, Some("Ada".to_string()));
    assert_eq!(user.last_name, None);
    assert_eq!(user.avatar_url, Some("/p.png".to_string()));
    assert_eq!(user.created_at, t);
    assert_eq!(user.updated_at, u);
    assert_eq!(user.id, "id");
}

#[test]
fn record_flag_nonzero_is_active() {
    let t = Timestamp { secs: 1, nanos: 2 };
    for flag in [1i64, 2, -1] {
        let user = User::from_record(
            "id".to_string(),
            "a@x.com".to_string(),
            "alice".to_string(),
            "h".to_string(),
            None,
            None,
            None,
            flag,
            t,
            t,
        );
        assert!(user.is_active);
    }
}

#[test]
fn clone_optional_copies() {
    assert_eq!(clone_optional(&Some("x".to_string())), Some("x".to_string()));
    assert_eq!(clone_optional(&None), None);
}

#[test]
fn login_form_holds_its_fields() {
    let login = LoginForm {
        email: "a@x.com".to_string(),
        password: "secret1".to_string(),
        remember_me: Some(true),
    };
    assert_eq!(login.clone(), login);
    assert_eq!(login.remember_me, Some(true));
}

#[test]
fn forms_are_shown_again_without_passwords() {
    let mut filled = form("a@x.com", "alice", "secret1", "secret2");
    filled.first_name = Some("Ada".to_string());
    let shown = filled.without_passwords();
    assert_eq!(
        shown,
        RegisterForm {
            email: "a@x.com".to_string(),
            username: "alice".to_string(),
            password: String::new(),
            password_confirm: String::new(),
            first_name: Some("Ada".to_string()),
            last_name: None,
        }
    );
    let login = LoginForm {
        email: "a@x.com".to_string(),
        password: "secret1".to_string(),
        remember_me: Some(false),
    };
    assert_eq!(
        login.without_password(),
        LoginForm { email: "a@x.com".to_string(), password: String::new(), remember_me: Some(false) }
    );
}

#[test]
fn login_form_is_complete_with_both_fields() {
    let filled = |email: &str, password: &str| LoginForm {
        email: email.to_string(),
        password: password.to_string(),
        remember_me: None,
    };
    assert!(filled("a@x.com", "secret1").is_complete());
    assert!(filled("a", "b").is_complete());
    assert!(!filled("", "secret1").is_complete());
    assert!(!filled("a@x.com", "").is_complete());
    assert!(!filled("", "").is_complete());
}
