//! The decisions of the request handlers. A handler that needs the storage
//! layer or the session store is a step function: the caller performs the
//! action that a step returns and comes back with what happened. What a
//! failure of those layers says of itself goes into the error, for a log,
//! and never into a sentence for the visitor.

use crate::auth::{resolve_required, AuthUser, OptionalAuthUser, Session};
use crate::database::{
    authenticate_user, create_user, created_from, email_exists, is_candidate, password_verdict,
    username_exists,
};
use crate::error::{prefixed, AuthError, AuthErrorView, Taken};
use crate::models::{
    LoginForm, LoginFormView, RegisterForm, RegisterFormView, SessionUser, SessionUserView, User,
    UserView,
};
use vstd::prelude::*;

verus! {

/// The notice that a page was asked to show, as the query string names it.
#[derive(Debug, Clone, PartialEq, Eq)]
pub struct QueryMessage {
    pub msg: Option<String>,
}

impl View for QueryMessage {
    type V = Option<Seq<char>>;

    open spec fn view(&self) -> Option<Seq<char>> {
        self.msg.deep_view()
    }
}

/// The answer to a request for a form page.
#[derive(Debug, Clone, PartialEq, Eq)]
pub enum PageReply {
    /// Send the visitor to this location.
    Redirect(String),
    /// Show the form, with this notice if there is one.
    Show(Option<String>),
}

/// What a `PageReply` holds.
pub enum PageReplyView {
    Redirect(Seq<char>),
    Show(Option<Seq<char>>),
}

impl View for PageReply {
    type V = PageReplyView;

    open spec fn view(&self) -> PageReplyView {
        match self {
            PageReply::Redirect(location) => PageReplyView::Redirect(location@),
            PageReply::Show(notice) => PageReplyView::Show(notice.deep_view()),
        }
    }
}

/// A page that only a logged-in visitor sees.
#[derive(Debug, Clone, PartialEq, Eq)]
pub struct ProtectedPage {
    pub title: String,
    pub active: String,
    pub user: SessionUser,
}

/// What a `ProtectedPage` holds.
pub struct ProtectedPageView {
    pub title: Seq<char>,
    pub active: Seq<char>,
    pub user: SessionUserView,
}

impl View for ProtectedPage {
    type V = ProtectedPageView;

    open spec fn view(&self) -> ProtectedPageView {
        ProtectedPageView { title: self.title@, active: self.active@, user: self.user@ }
    }
}

/// Why the identity could not be written to the session.
#[derive(Debug, Clone, PartialEq, Eq)]
pub enum SessionFailure {
    /// The identity could not be serialized.
    Serialization(String),
    /// The session store refused the entry.
    Storage(String),
}

/// What a `SessionFailure` holds.
pub enum SessionFailureView {
    Serialization(Seq<char>),
    Storage(Seq<char>),
}

impl View for SessionFailure {
    type V = SessionFailureView;

    open spec fn view(&self) -> SessionFailureView {
        match self {
            SessionFailure::Serialization(detail) => SessionFailureView::Serialization(detail@),
            SessionFailure::Storage(detail) => SessionFailureView::Storage(detail@),
        }
    }
}

impl SessionFailureView {
    /// The cause of the failure in words, for a log.
    pub open spec fn text(self) -> Seq<char> {
        match self {
            SessionFailureView::Serialization(detail) => "Session serialization error: "@ + detail,
            SessionFailureView::Storage(detail) => "Session storage error: "@ + detail,
        }
    }
}

impl SessionFailure {
    /// The cause of the failure in words, for a log.
    pub fn text(&self) -> (text: String)
        ensures
            text@ == self@.text(),
    {
        match self {
            SessionFailure::Serialization(detail) => prefixed(
                "Session serialization error: ",
                detail.as_str(),
            ),
            SessionFailure::Storage(detail) => prefixed("Session storage error: ", detail.as_str()),
        }
    }
}

/// Why the storage layer did not insert an account, with what it said of
/// the failure.
#[derive(Debug, Clone, PartialEq, Eq)]
pub enum InsertFailure {
    /// An account with the same email or username is already stored.
    Duplicate(String),
    /// Anything else.
    Other(String),
}

/// What an `InsertFailure` holds.
pub enum InsertFailureView {
    Duplicate(Seq<char>),
    Other(Seq<char>),
}

impl View for InsertFailure {
    type V = InsertFailureView;

    open spec fn view(&self) -> InsertFailureView {
        match self {
            InsertFailure::Duplicate(detail) => InsertFailureView::Duplicate(detail@),
            InsertFailure::Other(detail) => InsertFailureView::Other(detail@),
        }
    }
}

/// What happened since the last step of a login.
#[derive(Debug, Clone, PartialEq, Eq)]
pub enum LoginEvent {
    /// The form was submitted.
    Submitted,
    /// The lookup by email found this row, or none.
    UserFetched(Option<User>),
    /// The lookup failed.
    LookupFailed(String),
    /// The identity was written to the session.
    SessionStored,
    /// The identity could not be written to the session.
    SessionFailed(SessionFailure),
}

/// What a `LoginEvent` holds.
pub enum LoginEventView {
    Submitted,
    UserFetched(Option<UserView>),
    LookupFailed(Seq<char>),
    SessionStored,
    SessionFailed(SessionFailureView),
}

impl View for LoginEvent {
    type V = LoginEventView;

    open spec fn view(&self) -> LoginEventView {
        match self {
            LoginEvent::Submitted => LoginEventView::Submitted,
            LoginEvent::UserFetched(row) => LoginEventView::UserFetched(row.deep_view()),
            LoginEvent::LookupFailed(detail) => LoginEventView::LookupFailed(detail@),
            LoginEvent::SessionStored => LoginEventView::SessionStored,
            LoginEvent::SessionFailed(failure) => LoginEventView::SessionFailed(failure@),
        }
    }
}

/// What to do next in a login.
#[derive(Debug, Clone, PartialEq, Eq)]
pub enum LoginAction {
    /// Look up the account stored under this email.
    FetchUser(String),
    /// Write this identity to the session.
    Establish(SessionUser),
    /// Done: send the visitor to this location.
    Redirect(String),
    /// Done: show this form again with the sentences of this error.
    Reject(AuthError, LoginForm),
}

/// What a `LoginAction` holds.
pub enum LoginActionView {
    FetchUser(Seq<char>),
    Establish(SessionUserView),
    Redirect(Seq<char>),
    Reject(AuthErrorView, LoginFormView),
}

impl View for LoginAction {
    type V = LoginActionView;

    open spec fn view(&self) -> LoginActionView {
        match self {
            LoginAction::FetchUser(email) => LoginActionView::FetchUser(email@),
            LoginAction::Establish(identity) => LoginActionView::Establish(identity@),
            LoginAction::Redirect(location) => LoginActionView::Redirect(location@),
            LoginAction::Reject(error, shown) => LoginActionView::Reject(error@, shown@),
        }
    }
}

/// What happened since the last step of a registration.
#[derive(Debug, Clone, PartialEq, Eq)]
pub enum RegisterEvent {
    /// The form was submitted.
    Submitted,
    /// So many accounts are stored under the form's email.
    EmailCounted(i64),
    /// So many accounts are stored under the form's username.
    UsernameCounted(i64),
    /// A count failed.
    CountFailed(String),
    /// The account was stored.
    Inserted,
    /// The account was not stored.
    InsertFailed(InsertFailure),
}

/// What a `RegisterEvent` holds.
pub enum RegisterEventView {
    Submitted,
    EmailCounted(i64),
    UsernameCounted(i64),
    CountFailed(Seq<char>),
    Inserted,
    InsertFailed(InsertFailureView),
}

impl View for RegisterEvent {
    type V = RegisterEventView;

    open spec fn view(&self) -> RegisterEventView {
        match self {
            RegisterEvent::Submitted => RegisterEventView::Submitted,
            RegisterEvent::EmailCounted(count) => RegisterEventView::EmailCounted(*count),
            RegisterEvent::UsernameCounted(count) => RegisterEventView::UsernameCounted(*count),
            RegisterEvent::CountFailed(detail) => RegisterEventView::CountFailed(detail@),
            RegisterEvent::Inserted => RegisterEventView::Inserted,
            RegisterEvent::InsertFailed(failure) => RegisterEventView::InsertFailed(failure@),
        }
    }
}

/// What to do next in a registration.
#[derive(Debug, Clone, PartialEq, Eq)]
pub enum RegisterAction {
    /// Count the accounts stored under this email.
    CountEmail(String),
    /// Count the accounts stored under this username.
    CountUsername(String),
    /// Store this account.
    Insert(User),
    /// Done: send the visitor to this location.
    Redirect(String),
    /// Done: show this form again with the sentences of this error.
    Reject(AuthError, RegisterForm),
}

/// What a `RegisterAction` holds.
pub enum RegisterActionView {
    CountEmail(Seq<char>),
    CountUsername(Seq<char>),
    Insert(UserView),
    Redirect(Seq<char>),
    Reject(AuthErrorView, RegisterFormView),
}

impl View for RegisterAction {
    type V = RegisterActionView;

    open spec fn view(&self) -> RegisterActionView {
        match self {
            RegisterAction::CountEmail(email) => RegisterActionView::CountEmail(email@),
            RegisterAction::CountUsername(username) => RegisterActionView::CountUsername(
                username@,
            ),
            RegisterAction::Insert(user) => RegisterActionView::Insert(user@),
            RegisterAction::Redirect(location) => RegisterActionView::Redirect(location@),
            RegisterAction::Reject(error, shown) => RegisterActionView::Reject(error@, shown@),
        }
    }
}

/// The landing page of a logged-in visitor.
pub open spec fn dashboard_location() -> Seq<char> {
    "/dashboard"@
}

/// Where a visitor is sent after registering.
pub open spec fn registered_location() -> Seq<char> {
    "/login?msg=registration_success"@
}

/// The answer to a request for the login page: a logged-in visitor is sent
/// to the landing page, anyone else sees the form with the notice asked for.
pub fn login_page(query: QueryMessage, user: OptionalAuthUser) -> (reply: PageReply)
    ensures
        reply@ == (match user@ {
            Some(_) => PageReplyView::Redirect(dashboard_location()),
            None => PageReplyView::Show(query@),
        }),
{
    match user.0 {
        Some(_) => PageReply::Redirect("/dashboard".to_string()),
        None => PageReply::Show(query.msg),
    }
}

/// The answer to a request for the registration page: a logged-in visitor
/// is sent to the landing page, anyone else sees the empty form.
pub fn register_page(user: OptionalAuthUser) -> (reply: PageReply)
    ensures
        reply@ == (match user@ {
            Some(_) => PageReplyView::Redirect(dashboard_location()),
            None => PageReplyView::Show(None),
        }),
{
    match user.0 {
        Some(_) => PageReply::Redirect("/dashboard".to_string()),
        None => PageReply::Show(None),
    }
}

/// A protected page for the identity of the session; `Unauthorized` where
/// the session carries none.
fn protected_page(session: &Session, title: &str, active: &str) -> (page: Result<
    ProtectedPage,
    AuthError,
>)
    ensures
        match resolve_required(session@) {
            Ok(identity) => page matches Ok(shown) && shown@ == (ProtectedPageView {
                title: title@,
                active: active@,
                user: identity,
            }),
            Err(refusal) => page matches Err(error) && error@ == refusal,
        },
{
    match AuthUser::from_session(session) {
        Ok(user) => Ok(
            ProtectedPage { title: title.to_string(), active: active.to_string(), user: user.0 },
        ),
        Err(error) => Err(error),
    }
}

/// The dashboard, for the identity of the session; `Unauthorized` where the
/// session carries none.
pub fn dashboard_page(session: &Session) -> (page: Result<ProtectedPage, AuthError>)
    ensures
        match resolve_required(session@) {
            Ok(identity) => page matches Ok(shown) && shown@ == (ProtectedPageView {
                title: "Dashboard"@,
                active: "dashboard"@,
                user: identity,
            }),
            Err(refusal) => page matches Err(error) && error@ == refusal,
        },
{
    protected_page(session, "Dashboard", "dashboard")
}

/// The profile page, for the identity of the session; `Unauthorized` where
/// the session carries none.
pub fn profile_page(session: &Session) -> (page: Result<ProtectedPage, AuthError>)
    ensures
        match resolve_required(session@) {
            Ok(identity) => page matches Ok(shown) && shown@ == (ProtectedPageView {
                title: "Profile Settings"@,
                active: "profile"@,
                user: identity,
            }),
            Err(refusal) => page matches Err(error) && error@ == refusal,
        },
{
    protected_page(session, "Profile Settings", "profile")
}

/// The rejection of a login: the error, and the form to show again, which
/// is the submitted one without its password.
pub open spec fn login_rejection(form: LoginFormView, error: AuthErrorView) -> LoginActionView {
    LoginActionView::Reject(error, form.without_password())
}

/// The step of a login once the credentials are decided: the identity to
/// establish for the account found, the one rejection that every failed
/// login gets, or the rejection for the failure.
pub open spec fn login_conclusion(
    form: LoginFormView,
    found: Result<Option<UserView>, AuthErrorView>,
) -> LoginActionView {
    match found {
        Ok(Some(user)) => LoginActionView::Establish(SessionUserView::of(user)),
        Ok(None) => login_rejection(form, AuthErrorView::AuthenticationFailed),
        Err(error) => login_rejection(form, error),
    }
}

/// The rejection of a login with `error`.
fn reject_login(form: &LoginForm, error: AuthError) -> (action: LoginAction)
    ensures
        action@ == login_rejection(form@, error@),
{
    LoginAction::Reject(error, form.without_password())
}

/// The step of a login once the credentials are decided.
pub fn login_conclude(form: &LoginForm, found: Result<Option<User>, AuthError>) -> (action:
    LoginAction)
    ensures
        action@ == login_conclusion(
            form@,
            match found {
                Ok(Some(user)) => Ok(Some(user@)),
                Ok(None) => Ok(None),
                Err(error) => Err(error@),
            },
        ),
{
    match found {
        Ok(Some(user)) => LoginAction::Establish(SessionUser::from(user)),
        Ok(None) => reject_login(form, AuthError::AuthenticationFailed),
        Err(error) => reject_login(form, error),
    }
}

/// Whether `action` is a step that the login of an anonymous visitor may
/// take on `event`. A form without an email or without a password is
/// rejected at every step as any failed login is, before anything is looked
/// up. For a complete form every step is determined, but for the cause that a
/// hashing failure carries: it is the text of the hashing scheme's error.
pub open spec fn login_allows(
    form: LoginFormView,
    event: LoginEventView,
    action: LoginActionView,
) -> bool {
    if !form.is_complete() {
        action == login_rejection(form, AuthErrorView::AuthenticationFailed)
    } else {
        match event {
            LoginEventView::Submitted => action == LoginActionView::FetchUser(form.email),
            LoginEventView::UserFetched(row) => {
                if !is_candidate(row, form.email) {
                    action == login_conclusion(form, Ok(None))
                } else {
                    match password_verdict(form.password, row->0.password_hash) {
                        Some(true) => action == login_conclusion(form, Ok(row)),
                        Some(false) => action == login_conclusion(form, Ok(None)),
                        None => action matches LoginActionView::Reject(
                            AuthErrorView::CryptoError(_),
                            shown,
                        ) && shown == form.without_password(),
                    }
                }
            },
            LoginEventView::LookupFailed(cause) => action == login_rejection(
                form,
                AuthErrorView::StorageError(cause),
            ),
            LoginEventView::SessionStored => action == LoginActionView::Redirect(
                dashboard_location(),
            ),
            LoginEventView::SessionFailed(failure) => action == login_rejection(
                form,
                AuthErrorView::EncodingError(failure.text()),
            ),
        }
    }
}

/// One step of a login. `user` is the identity that the request arrived
/// with: a visitor who is already logged in is sent to the landing page and
/// the form is not looked at. For anyone else: a form without an email or
/// without a password is rejected without a lookup; on submission the step
/// asks for the account stored under the email; on the row found it checks
/// the password and either asks for the identity to be established or
/// rejects; once the identity is in the session it sends the visitor to the
/// landing page. Every failure ends the login with a rejection.
pub fn login_submit(user: &OptionalAuthUser, form: &LoginForm, event: LoginEvent) -> (action:
    LoginAction)
    ensures
        user@ is Some ==> action@ == LoginActionView::Redirect(dashboard_location()),
        user@ is None ==> login_allows(form@, event@, action@),
{
    if user.0.is_some() {
        return LoginAction::Redirect("/dashboard".to_string());
    }
    if !form.is_complete() {
        return reject_login(form, AuthError::AuthenticationFailed);
    }
    match event {
        LoginEvent::Submitted => LoginAction::FetchUser(form.email.clone()),
        LoginEvent::UserFetched(row) => {
            let found = authenticate_user(row, form.email.as_str(), form.password.as_str());
            login_conclude(form, found)
        },
        LoginEvent::LookupFailed(cause) => reject_login(form, AuthError::StorageError(cause)),
        LoginEvent::SessionStored => LoginAction::Redirect("/dashboard".to_string()),
        LoginEvent::SessionFailed(failure) => reject_login(
            form,
            AuthError::EncodingError(failure.text()),
        ),
    }
}

/// The rejection of a registration: the error, and the form to show again,
/// which is the submitted one without its passwords.
pub open spec fn register_rejection(
    form: RegisterFormView,
    error: AuthErrorView,
) -> RegisterActionView {
    RegisterActionView::Reject(error, form.without_passwords())
}

/// The step of a registration once the account is built: store it, or the
/// rejection for the failure.
pub open spec fn register_conclusion(
    form: RegisterFormView,
    created: Result<UserView, AuthErrorView>,
) -> RegisterActionView {
    match created {
        Ok(user) => RegisterActionView::Insert(user),
        Err(error) => register_rejection(form, error),
    }
}

/// The rejection of a registration with `error`.
fn reject_registration(form: &RegisterForm, error: AuthError) -> (action: RegisterAction)
    ensures
        action@ == register_rejection(form@, error@),
{
    RegisterAction::Reject(error, form.without_passwords())
}

/// The step of a registration once the account is built.
pub fn register_conclude(form: &RegisterForm, created: Result<User, AuthError>) -> (action:
    RegisterAction)
    ensures
        action@ == register_conclusion(
            form@,
            match created {
                Ok(user) => Ok(user@),
                Err(error) => Err(error@),
            },
        ),
{
    match created {
        Ok(user) => RegisterAction::Insert(user),
        Err(error) => reject_registration(form, error),
    }
}

/// Whether `action` is a step that the registration of an anonymous visitor
/// may take on `event`. An invalid form is rejected at every step. For a
/// valid form every step is determined but the one that builds the account,
/// where the identifier, the instant and the salt of the hash are drawn and
/// the hashing may fail.
pub open spec fn register_allows(
    form: RegisterFormView,
    event: RegisterEventView,
    action: RegisterActionView,
) -> bool {
    if !form.is_valid() {
        action == register_rejection(form, AuthErrorView::ValidationFailed(form.messages()))
    } else {
        match event {
            RegisterEventView::Submitted => action == RegisterActionView::CountEmail(form.email),
            RegisterEventView::EmailCounted(count) => {
                if count > 0 {
                    action == register_rejection(form, AuthErrorView::Conflict(Taken::Email))
                } else {
                    action == RegisterActionView::CountUsername(form.username)
                }
            },
            RegisterEventView::UsernameCounted(count) => {
                if count > 0 {
                    action == register_rejection(form, AuthErrorView::Conflict(Taken::Username))
                } else {
                    match action {
                        RegisterActionView::Insert(user) => created_from(form, user),
                        RegisterActionView::Reject(AuthErrorView::CryptoError(_), shown) => shown
                            == form.without_passwords(),
                        _ => false,
                    }
                }
            },
            RegisterEventView::CountFailed(cause) => action == register_rejection(
                form,
                AuthErrorView::StorageError(cause),
            ),
            RegisterEventView::Inserted => action == RegisterActionView::Redirect(
                registered_location(),
            ),
            RegisterEventView::InsertFailed(InsertFailureView::Duplicate(_)) => action
                == register_rejection(form, AuthErrorView::Conflict(Taken::EmailOrUsername)),
            RegisterEventView::InsertFailed(InsertFailureView::Other(cause)) => action
                == register_rejection(form, AuthErrorView::StorageError(cause)),
        }
    }
}

/// One step of a registration. `user` is the identity that the request
/// arrived with: a visitor who is already logged in is sent to the landing
/// page and the form is not processed. For anyone else the form is checked
/// first, at every step. On submission the step asks for the accounts under
/// the email to be counted, then those under the username; where neither is
/// taken it builds the account and asks for it to be stored; once stored it
/// sends the visitor to the login page. A taken email or username, and every
/// failure, ends the registration with a rejection and nothing stored.
pub fn register_submit(user: &OptionalAuthUser, form: &RegisterForm, event: RegisterEvent) -> (action:
    RegisterAction)
    ensures
        user@ is Some ==> action@ == RegisterActionView::Redirect(dashboard_location()),
        user@ is None ==> register_allows(form@, event@, action@),
{
    if user.0.is_some() {
        return RegisterAction::Redirect("/dashboard".to_string());
    }
    match form.validate() {
        Err(errors) => reject_registration(form, AuthError::ValidationFailed(errors)),
        Ok(()) => {
            match event {
                RegisterEvent::Submitted => RegisterAction::CountEmail(form.email.clone()),
                RegisterEvent::EmailCounted(count) => {
                    if email_exists(count) {
                        reject_registration(form, AuthError::Conflict(Taken::Email))
                    } else {
                        RegisterAction::CountUsername(form.username.clone())
                    }
                },
                RegisterEvent::UsernameCounted(count) => {
                    if username_exists(count) {
                        reject_registration(form, AuthError::Conflict(Taken::Username))
                    } else {
                        register_conclude(form, create_user(form))
                    }
                },
                RegisterEvent::CountFailed(cause) => reject_registration(
                    form,
                    AuthError::StorageError(cause),
                ),
                RegisterEvent::Inserted => RegisterAction::Redirect(
                    "/login?msg=registration_success".to_string(),
                ),
                RegisterEvent::InsertFailed(InsertFailure::Duplicate(_)) => reject_registration(
                    form,
                    AuthError::Conflict(Taken::EmailOrUsername),
                ),
                RegisterEvent::InsertFailed(InsertFailure::Other(cause)) => reject_registration(
                    form,
                    AuthError::StorageError(cause),
                ),
            }
        },
    }
}

} // verus!
