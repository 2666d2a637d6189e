//! The ways in which a request can fail, and what the visitor is told.

use vstd::prelude::*;

verus! {

/// What a registration found taken.
#[derive(Debug, Clone, Copy, PartialEq, Eq)]
pub enum Taken {
    /// An account is stored under the email.
    Email,
    /// An account is stored under the username.
    Username,
    /// The storage layer refused the account as a duplicate, without saying
    /// of which of the two.
    EmailOrUsername,
}

/// Why a request was turned down. The text that a failure of the storage
/// layer, the hashing scheme or the session store carries is its cause, kept
/// for a log; the visitor is never shown it.
#[derive(Debug, Clone, PartialEq, Eq)]
pub enum AuthError {
    /// The submitted fields break one or more rules; one sentence for each.
    ValidationFailed(Vec<String>),
    /// The email or the username belongs to another account.
    Conflict(Taken),
    /// No active account matches the email and password.
    AuthenticationFailed,
    /// The session carries no identity.
    Unauthorized,
    /// The storage layer failed.
    StorageError(String),
    /// The password hashing scheme failed.
    CryptoError(String),
    /// The identity could not be written to the session.
    EncodingError(String),
}

/// What an `AuthError` holds, with every string as its sequence of
/// characters.
pub enum AuthErrorView {
    ValidationFailed(Seq<Seq<char>>),
    Conflict(Taken),
    AuthenticationFailed,
    Unauthorized,
    StorageError(Seq<char>),
    CryptoError(Seq<char>),
    EncodingError(Seq<char>),
}

impl View for AuthError {
    type V = AuthErrorView;

    open spec fn view(&self) -> AuthErrorView {
        match self {
            AuthError::ValidationFailed(messages) => AuthErrorView::ValidationFailed(
                messages.deep_view(),
            ),
            AuthError::Conflict(taken) => AuthErrorView::Conflict(*taken),
            AuthError::AuthenticationFailed => AuthErrorView::AuthenticationFailed,
            AuthError::Unauthorized => AuthErrorView::Unauthorized,
            AuthError::StorageError(cause) => AuthErrorView::StorageError(cause@),
            AuthError::CryptoError(cause) => AuthErrorView::CryptoError(cause@),
            AuthError::EncodingError(cause) => AuthErrorView::EncodingError(cause@),
        }
    }
}

impl DeepView for AuthError {
    type V = AuthErrorView;

    open spec fn deep_view(&self) -> AuthErrorView {
        self@
    }
}

impl Taken {
    /// The sentence shown to the visitor.
    pub open spec fn message(self) -> Seq<char> {
        match self {
            Taken::Email => "Email address is already registered"@,
            Taken::Username => "Username is already taken"@,
            Taken::EmailOrUsername => "Email address or username is already registered"@,
        }
    }

    /// The sentence shown to the visitor.
    pub fn text(&self) -> (text: String)
        ensures
            text@ == self.message(),
    {
        match self {
            Taken::Email => "Email address is already registered".to_string(),
            Taken::Username => "Username is already taken".to_string(),
            Taken::EmailOrUsername => "Email address or username is already registered".to_string(),
        }
    }
}

/// The one sentence shown for every failure of the storage layer, the
/// hashing scheme and the session store.
pub open spec fn internal_failure_message() -> Seq<char> {
    "Something went wrong on our side. Please try again later."@
}

/// The one sentence shown for every failed login.
pub open spec fn failed_login_message() -> Seq<char> {
    "Invalid email or password"@
}

impl AuthErrorView {
    /// The sentences shown to the visitor: one for each violation of a
    /// rejected form, the same sentence for every failed login, and the same
    /// sentence for every internal failure, whatever its cause.
    pub open spec fn messages(self) -> Seq<Seq<char>> {
        match self {
            AuthErrorView::ValidationFailed(messages) => messages,
            AuthErrorView::Conflict(taken) => seq![taken.message()],
            AuthErrorView::AuthenticationFailed => seq![failed_login_message()],
            AuthErrorView::Unauthorized => seq!["Not authenticated"@],
            AuthErrorView::StorageError(_) => seq![internal_failure_message()],
            AuthErrorView::CryptoError(_) => seq![internal_failure_message()],
            AuthErrorView::EncodingError(_) => seq![internal_failure_message()],
        }
    }
}

/// A copy of a list of strings.
pub fn clone_strings(list: &Vec<String>) -> (copy: Vec<String>)
    ensures
        copy.deep_view() == list.deep_view(),
{
    let mut copy: Vec<String> = Vec::new();
    let mut i: usize = 0;
    while i < list.len()
        invariant
            i <= list.len(),
            copy.len() == i,
            forall|j: int| 0 <= j < i ==> (#[trigger] copy@[j])@ == list@[j]@,
        decreases list.len() - i,
    {
        copy.push(list[i].clone());
        i = i + 1;
    }
    assert(copy.deep_view() =~= list.deep_view());
    copy
}

/// The list that holds `text` and nothing else.
pub fn single(text: String) -> (list: Vec<String>)
    ensures
        list.deep_view() == seq![text@],
{
    let mut list: Vec<String> = Vec::new();
    list.push(text);
    assert(list.deep_view() =~= seq![text@]);
    list
}

/// `prefix` followed by `text`.
pub fn prefixed(prefix: &str, text: &str) -> (joined: String)
    ensures
        joined@ == prefix@ + text@,
{
    let mut joined = prefix.to_string();
    joined.append(text);
    joined
}

impl AuthError {
    /// The sentences shown to the visitor.
    pub fn messages(&self) -> (list: Vec<String>)
        ensures
            list.deep_view() == self@.messages(),
    {
        match self {
            AuthError::ValidationFailed(messages) => clone_strings(messages),
            AuthError::Conflict(taken) => single(taken.text()),
            AuthError::AuthenticationFailed => single("Invalid email or password".to_string()),
            AuthError::Unauthorized => single("Not authenticated".to_string()),
            AuthError::StorageError(_) => single(
                "Something went wrong on our side. Please try again later.".to_string(),
            ),
            AuthError::CryptoError(_) => single(
                "Something went wrong on our side. Please try again later.".to_string(),
            ),
            AuthError::EncodingError(_) => single(
                "Something went wrong on our side. Please try again later.".to_string(),
            ),
        }
    }
}

} // verus!
