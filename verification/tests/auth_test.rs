use web_auth::auth::{login_user, logout, AuthUser, OptionalAuthUser, Session};
use web_auth::error::{clone_strings, prefixed, single, AuthError, Taken};
use web_auth::models::SessionUser;

fn alice() -> SessionUser {
    SessionUser {
        id: "id-1".to_string(),
        email: "a@x.com".to_string(),
        username: "alice".to_string(),
        full_name: "Ada Lovelace".to_string(),
        avatar_url: None,
    }
}

fn bob() -> SessionUser {
    SessionUser {
        id: "id-2".to_string(),
        email: "b@x.com".to_string(),
        username: "bob".to_string(),
        full_name: "bob".to_string(),
        avatar_url: Some("/b.png".to_string()),
    }
}

#[test]
fn anonymous_session_is_unauthorized() {
    let session = Session::anonymous();
    assert_eq!(session.user, None);
    assert_eq!(AuthUser::from_session(&session), Err(AuthError::Unauthorized));
    assert_eq!(OptionalAuthUser::from_session(&session), OptionalAuthUser(None));
}

#[test]
fn session_with_identity_resolves_to_it() {
    let session = Session { user: Some(alice()) };
    assert_eq!(AuthUser::from_session(&session), Ok(AuthUser(alice())));
    assert_eq!(OptionalAuthUser::from_session(&session), OptionalAuthUser(Some(alice())));
}

#[test]
fn login_replaces_the_identity() {
    let mut session = Session::anonymous();
    login_user(&mut session, alice());
    assert_eq!(session.user, Some(alice()));
    login_user(&mut session, bob());
    assert_eq!(session.user, Some(bob()));
    assert_eq!(AuthUser::from_session(&session), Ok(AuthUser(bob())));
}

#[test]
fn logout_clears_the_session() {
    let mut session = Session { user: Some(alice()) };
    let location = logout(&mut session);
    assert_eq!(location, "/login?msg=logged_out");
    assert_eq!(session, Session::anonymous());
    assert_eq!(AuthUser::from_session(&session), Err(AuthError::Unauthorized));
    assert_eq!(OptionalAuthUser::from_session(&session), OptionalAuthUser(None));
}

#[test]
fn logout_of_an_anonymous_session_is_the_same() {
    let mut session = Session::anonymous();
    assert_eq!(logout(&mut session), "/login?msg=logged_out");
    assert_eq!(session, Session::anonymous());
    assert_eq!(logout(&mut session), "/login?msg=logged_out");
    assert_eq!(session, Session::anonymous());
}

#[test]
fn duplicate_is_equal() {
    assert_eq!(alice().duplicate(), alice());
    assert_eq!(bob().duplicate(), bob());
}

#[test]
fn messages_of_each_error() {
    assert_eq!(
        AuthError::ValidationFailed(vec!["a".to_string(), "b".to_string()]).messages(),
        vec!["a".to_string(), "b".to_string()]
    );
    assert_eq!(
        AuthError::Conflict(Taken::Email).messages(),
        vec!["Email address is already registered".to_string()]
    );
    assert_eq!(
        AuthError::Conflict(Taken::Username).messages(),
        vec!["Username is already taken".to_string()]
    );
    assert_eq!(
        AuthError::Conflict(Taken::EmailOrUsername).messages(),
        vec!["Email address or username is already registered".to_string()]
    );
    assert_eq!(
        AuthError::AuthenticationFailed.messages(),
        vec!["Invalid email or password".to_string()]
    );
    assert_eq!(AuthError::Unauthorized.messages(), vec!["Not authenticated".to_string()]);
}

#[test]
fn internal_failures_show_one_fixed_sentence() {
    let sentence = vec!["Something went wrong on our side. Please try again later.".to_string()];
    assert_eq!(AuthError::StorageError("disk full".to_string()).messages(), sentence);
    assert_eq!(AuthError::StorageError(String::new()).messages(), sentence);
    assert_eq!(
        AuthError::CryptoError("Invalid hash: $2b$12$abc".to_string()).messages(),
        sentence
    );
    assert_eq!(AuthError::EncodingError("Session storage error: x".to_string()).messages(), sentence);
    for shown in AuthError::CryptoError("Invalid hash: $2b$12$abc".to_string()).messages() {
        assert!(!shown.contains("$2b$"));
        assert!(!shown.contains("Invalid hash"));
    }
}

#[test]
fn taken_text_is_its_sentence() {
    assert_eq!(Taken::Email.text(), "Email address is already registered");
    assert_eq!(Taken::Username.text(), "Username is already taken");
    assert_eq!(Taken::EmailOrUsername.text(), "Email address or username is already registered");
}

#[test]
fn string_helpers() {
    assert_eq!(prefixed("ab", "cd"), "abcd");
    assert_eq!(prefixed("", ""), "");
    assert_eq!(single("x".to_string()), vec!["x".to_string()]);
    assert_eq!(
        clone_strings(&vec!["a".to_string(), "b".to_string()]),
        vec!["a".to_string(), "b".to_string()]
    );
    assert_eq!(clone_strings(&Vec::new()), Vec::<String>::new());
}
