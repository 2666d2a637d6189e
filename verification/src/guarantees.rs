//! What holds of the handlers taken together.

use crate::auth::{logged_in, logged_out, resolve_optional, resolve_required};
use crate::database::{created_from, is_candidate, password_verdict};
use crate::error::{failed_login_message, internal_failure_message, AuthErrorView, Taken};
use crate::handlers::{
    login_allows, login_rejection, register_allows, register_rejection, LoginActionView,
    LoginEventView, RegisterActionView, RegisterEventView,
};
use crate::models::{
    zero_or_one, LoginFormView, RegisterFormView, SessionUserView, UserView, Violation,
};
use vstd::prelude::*;

verus! {

/// A registration asks for an account to be stored only where the form is
/// valid and neither count found the email or the username taken, and the
/// account is then one made from that form.
pub proof fn lemma_only_valid_forms_are_stored(
    form: RegisterFormView,
    event: RegisterEventView,
    user: UserView,
)
    requires
        register_allows(form, event, RegisterActionView::Insert(user)),
    ensures
        form.is_valid(),
        event matches RegisterEventView::UsernameCounted(count) && count <= 0,
        created_from(form, user),
{
}

/// Whoever has registered can log in. Take the account that a registration
/// asked to be stored. A login with the same email and password, to which
/// the lookup hands that account, asks for an identity to be established;
/// the identity has the account's id, and a session that it has logged into
/// resolves to it.
pub proof fn lemma_registered_user_can_log_in(
    form: RegisterFormView,
    event: RegisterEventView,
    user: UserView,
    login: LoginFormView,
    action: LoginActionView,
    session: Option<SessionUserView>,
)
    requires
        register_allows(form, event, RegisterActionView::Insert(user)),
        login.email == form.email,
        login.password == form.password,
        login_allows(login, LoginEventView::UserFetched(Some(user)), action),
    ensures
        action == LoginActionView::Establish(SessionUserView::of(user)),
        SessionUserView::of(user).id == user.id,
        resolve_required(logged_in(session, SessionUserView::of(user))) == Ok::<
            SessionUserView,
            AuthErrorView,
        >(SessionUserView::of(user)),
        resolve_optional(logged_in(session, SessionUserView::of(user))) == Some(
            SessionUserView::of(user),
        ),
{
    lemma_only_valid_forms_are_stored(form, event, user);
    assert(form.email_violation() is None && form.password_violation() is None) by {
        assert(form.violations().len() >= zero_or_one(form.email_violation()).len()
            + zero_or_one(form.password_violation()).len());
    }
}

/// A registration under an email that is already stored stores nothing,
/// whatever the username; where the form is valid it ends with a conflict.
pub proof fn lemma_taken_email_is_a_conflict(
    form: RegisterFormView,
    count: i64,
    action: RegisterActionView,
)
    requires
        count > 0,
        register_allows(form, RegisterEventView::EmailCounted(count), action),
    ensures
        action is Reject,
        form.is_valid() ==> action == register_rejection(
            form,
            AuthErrorView::Conflict(Taken::Email),
        ),
{
}

/// A registration under a username that is already stored stores nothing;
/// where the form is valid it ends with a conflict.
pub proof fn lemma_taken_username_is_a_conflict(
    form: RegisterFormView,
    count: i64,
    action: RegisterActionView,
)
    requires
        count > 0,
        register_allows(form, RegisterEventView::UsernameCounted(count), action),
    ensures
        action is Reject,
        form.is_valid() ==> action == register_rejection(
            form,
            AuthErrorView::Conflict(Taken::Username),
        ),
{
}

/// A form whose confirmation differs from its password is rejected at every
/// step with the sentences for all its violations. Whatever the other fields
/// hold, the mismatch is the last of them and occurs once; where the other
/// fields are in order it is the only one.
pub proof fn lemma_mismatch_is_reported(
    form: RegisterFormView,
    event: RegisterEventView,
    action: RegisterActionView,
)
    requires
        form.password != form.password_confirm,
        register_allows(form, event, action),
    ensures
        action == register_rejection(form, AuthErrorView::ValidationFailed(form.messages())),
        form.messages().len() == form.violations().len(),
        form.violations().len() >= 1,
        form.violations().last() == Violation::PasswordMismatch,
        form.messages().last() == "Passwords do not match"@,
        forall|i: int|
            0 <= i < form.violations().len() - 1 ==> #[trigger] form.violations()[i]
                != Violation::PasswordMismatch,
        (form.email_violation() is None && form.username_violation() is None
            && form.password_violation() is None) ==> form.messages()
            == seq!["Passwords do not match"@],
{
    let others = zero_or_one(form.email_violation()) + zero_or_one(form.username_violation())
        + zero_or_one(form.password_violation());
    assert(form.violations() =~= others.push(Violation::PasswordMismatch));
    assert forall|i: int| 0 <= i < others.len() implies #[trigger] others[i]
        != Violation::PasswordMismatch by {}
    if form.email_violation() is None && form.username_violation() is None
        && form.password_violation() is None {
        assert(form.messages() =~= seq!["Passwords do not match"@]);
    }
}

/// A login with a stored email and a wrong password ends exactly as a login
/// with an email that is not stored: with the same rejection, and so with
/// the same sentence.
pub proof fn lemma_failed_logins_look_alike(
    form: LoginFormView,
    user: UserView,
    wrong_password: LoginActionView,
    unknown_email: LoginActionView,
)
    requires
        is_candidate(Some(user), form.email),
        password_verdict(form.password, user.password_hash) == Some(false),
        login_allows(form, LoginEventView::UserFetched(Some(user)), wrong_password),
        login_allows(form, LoginEventView::UserFetched(None), unknown_email),
    ensures
        wrong_password == unknown_email,
        wrong_password == login_rejection(form, AuthErrorView::AuthenticationFailed),
        AuthErrorView::AuthenticationFailed.messages() == seq![failed_login_message()],
{
}

/// A login without an email or without a password is rejected as any failed
/// login is, whatever the step: nothing is looked up for it and no identity
/// is established.
pub proof fn lemma_incomplete_login_is_rejected(
    form: LoginFormView,
    event: LoginEventView,
    action: LoginActionView,
)
    requires
        form.email.len() == 0 || form.password.len() == 0,
        login_allows(form, event, action),
    ensures
        action == login_rejection(form, AuthErrorView::AuthenticationFailed),
{
}

/// What a failure of the storage layer, the hashing scheme or the session
/// store says of itself never reaches the visitor: whatever the cause, and
/// whichever of the three failed, the one sentence shown is the same.
pub proof fn lemma_internal_failures_show_one_sentence(cause: Seq<char>)
    ensures
        AuthErrorView::StorageError(cause).messages() == seq![internal_failure_message()],
        AuthErrorView::CryptoError(cause).messages() == seq![internal_failure_message()],
        AuthErrorView::EncodingError(cause).messages() == seq![internal_failure_message()],
{
}

/// Every rejection of a registration carries the form to show again: the
/// submitted email, username and names, and neither the password nor its
/// confirmation.
pub proof fn lemma_rejected_registration_shows_no_password(
    form: RegisterFormView,
    event: RegisterEventView,
    error: AuthErrorView,
    shown: RegisterFormView,
)
    requires
        register_allows(form, event, RegisterActionView::Reject(error, shown)),
    ensures
        shown.email == form.email,
        shown.username == form.username,
        shown.first_name == form.first_name,
        shown.last_name == form.last_name,
        shown.password.len() == 0,
        shown.password_confirm.len() == 0,
{
}

/// Every rejection of a login carries the form to show again: the submitted
/// email, and not the password.
pub proof fn lemma_rejected_login_shows_no_password(
    form: LoginFormView,
    event: LoginEventView,
    error: AuthErrorView,
    shown: LoginFormView,
)
    requires
        login_allows(form, event, LoginActionView::Reject(error, shown)),
    ensures
        shown.email == form.email,
        shown.remember_me == form.remember_me,
        shown.password.len() == 0,
{
}

/// A session that was logged out resolves to nobody, whoever it carried: a
/// request that must be authenticated is refused, and one that may be
/// anonymous is.
pub proof fn lemma_logged_out_session_is_anonymous(session: Option<SessionUserView>)
    ensures
        resolve_optional(logged_out(session)) is None,
        resolve_required(logged_out(session)) == Err::<SessionUserView, AuthErrorView>(
            AuthErrorView::Unauthorized,
        ),
        logged_out(logged_out(session)) == logged_out(session),
{
}

} // verus!
