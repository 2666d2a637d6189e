//! The data of the application: stored users, the identity carried by a
//! session, and the two submitted forms, each with its mathematical view.

use vstd::prelude::*;
use vstd::std_specs::convert::FromSpecImpl;

verus! {

/// A point in time: whole seconds since the Unix epoch and the nanoseconds
/// past that second.
#[derive(Debug, Clone, Copy, PartialEq, Eq)]
pub struct Timestamp {
    pub secs: i64,
    pub nanos: u32,
}

/// A stored account.
#[derive(Debug, Clone, PartialEq, Eq)]
pub struct User {
    pub id: String,
    pub email: String,
    pub username: String,
    pub password_hash: String,
    pub first_name: Option<String>,
    pub last_name: Option<String>,
    pub avatar_url: Option<String>,
    pub is_active: bool,
    pub created_at: Timestamp,
    pub updated_at: Timestamp,
}

/// What a `User` holds, with every string as its sequence of characters.
pub struct UserView {
    pub id: Seq<char>,
    pub email: Seq<char>,
    pub username: Seq<char>,
    pub password_hash: Seq<char>,
    pub first_name: Option<Seq<char>>,
    pub last_name: Option<Seq<char>>,
    pub avatar_url: Option<Seq<char>>,
    pub is_active: bool,
    pub created_at: Timestamp,
    pub updated_at: Timestamp,
}

impl View for User {
    type V = UserView;

    open spec fn view(&self) -> UserView {
        UserView {
            id: self.id@,
            email: self.email@,
            username: self.username@,
            password_hash: self.password_hash@,
            first_name: self.first_name.deep_view(),
            last_name: self.last_name.deep_view(),
            avatar_url: self.avatar_url.deep_view(),
            is_active: self.is_active,
            created_at: self.created_at,
            updated_at: self.updated_at,
        }
    }
}

impl DeepView for User {
    type V = UserView;

    open spec fn deep_view(&self) -> UserView {
        self@
    }
}

impl UserView {
    /// The account as it is first created: active, without names or avatar,
    /// created and updated at the same instant.
    pub open spec fn fresh(
        id: Seq<char>,
        email: Seq<char>,
        username: Seq<char>,
        password_hash: Seq<char>,
        now: Timestamp,
    ) -> UserView {
        UserView {
            id,
            email,
            username,
            password_hash,
            first_name: None,
            last_name: None,
            avatar_url: None,
            is_active: true,
            created_at: now,
            updated_at: now,
        }
    }

    /// The name shown for the account: first and last name separated by one
    /// space, else whichever of the two is present, else the username.
    pub open spec fn full_name(self) -> Seq<char> {
        match (self.first_name, self.last_name) {
            (Some(first), Some(last)) => first + seq![' '] + last,
            (Some(first), None) => first,
            (None, Some(last)) => last,
            (None, None) => self.username,
        }
    }
}

/// Whether `c` is one of `0`..`9`, `a`..`f`.
pub open spec fn is_lower_hex(c: char) -> bool {
    ('0' <= c && c <= '9') || ('a' <= c && c <= 'f')
}

/// The hyphenated lower-case text of a version 4 UUID: 36 characters in
/// groups of 8, 4, 4, 4 and 12 hexadecimal digits, the third group starting
/// with the version digit.
pub open spec fn is_uuid_v4_text(s: Seq<char>) -> bool {
    &&& s.len() == 36
    &&& forall|i: int|
        0 <= i < 36 ==> if i == 8 || i == 13 || i == 18 || i == 23 {
            #[trigger] s[i] == '-'
        } else {
            is_lower_hex(s[i])
        }
    &&& s[14] == '4'
}

/// Calls `uuid::Uuid::new_v4` and renders the result with its `Display`
/// impl. The identifier is random; the contract claims only the shape of the
/// text, which the hyphenated lower-case format and the version bits that
/// `new_v4` sets give to every outcome.
#[verifier::external_body]
fn fresh_id() -> (id: String)
    ensures
        is_uuid_v4_text(id@),
{
    uuid::Uuid::new_v4().to_string()
}

/// Calls `chrono::Utc::now` and hands the instant out as seconds and
/// nanoseconds. The contract claims only that the clock reading carries no
/// leap-second nanoseconds.
#[verifier::external_body]
fn current_time() -> (now: Timestamp)
    ensures
        now.nanos < 1_000_000_000,
{
    let now = chrono::Utc::now();
    Timestamp { secs: now.timestamp(), nanos: now.timestamp_subsec_nanos() }
}

/// A copy of an optional string.
pub fn clone_optional(value: &Option<String>) -> (copy: Option<String>)
    ensures
        copy.deep_view() == value.deep_view(),
{
    match value {
        Some(s) => Some(s.clone()),
        None => None,
    }
}

impl User {
    /// The account created from the given identifier and instant.
    pub fn assemble(
        id: String,
        email: String,
        username: String,
        password_hash: String,
        now: Timestamp,
    ) -> (user: User)
        ensures
            user@ == UserView::fresh(id@, email@, username@, password_hash@, now),
    {
        User {
            id,
            email,
            username,
            password_hash,
            first_name: None,
            last_name: None,
            avatar_url: None,
            is_active: true,
            created_at: now,
            updated_at: now,
        }
    }

    /// A new account under a freshly drawn identifier, stamped with the
    /// current time.
    pub fn new(email: String, username: String, password_hash: String) -> (user: User)
        ensures
            user@ == UserView::fresh(
                user@.id,
                email@,
                username@,
                password_hash@,
                user@.created_at,
            ),
            is_uuid_v4_text(user@.id),
            user@.created_at.nanos < 1_000_000_000,
    {
        let id = fresh_id();
        let now = current_time();
        User::assemble(id, email, username, password_hash, now)
    }

    /// The account read back from storage, where the active flag is kept as
    /// an integer that is zero for an inactive account.
    pub fn from_record(
        id: String,
        email: String,
        username: String,
        password_hash: String,
        first_name: Option<String>,
        last_name: Option<String>,
        avatar_url: Option<String>,
        is_active: i64,
        created_at: Timestamp,
        updated_at: Timestamp,
    ) -> (user: User)
        ensures
            user@ == (UserView {
                id: id@,
                email: email@,
                username: username@,
                password_hash: password_hash@,
                first_name: first_name.deep_view(),
                last_name: last_name.deep_view(),
                avatar_url: avatar_url.deep_view(),
                is_active: is_active != 0,
                created_at,
                updated_at,
            }),
    {
        User {
            id,
            email,
            username,
            password_hash,
            first_name,
            last_name,
            avatar_url,
            is_active: is_active != 0,
            created_at,
            updated_at,
        }
    }

    /// The name shown for the account.
    pub fn full_name(&self) -> (name: String)
        ensures
            name@ == self@.full_name(),
    {
        match (&self.first_name, &self.last_name) {
            (Some(first), Some(last)) => {
                let mut name = first.clone();
                name.append(" ");
                name.append(last.as_str());
                proof {
                    reveal_strlit(" ");
                    assert(" "@ =~= seq![' ']);
                }
                name
            },
            (Some(first), None) => first.clone(),
            (None, Some(last)) => last.clone(),
            (None, None) => self.username.clone(),
        }
    }
}

/// The identity that a session carries for a logged-in visitor.
#[derive(Debug, Clone, PartialEq, Eq)]
pub struct SessionUser {
    pub id: String,
    pub email: String,
    pub username: String,
    pub full_name: String,
    pub avatar_url: Option<String>,
}

/// What a `SessionUser` holds, with every string as its sequence of
/// characters.
pub struct SessionUserView {
    pub id: Seq<char>,
    pub email: Seq<char>,
    pub username: Seq<char>,
    pub full_name: Seq<char>,
    pub avatar_url: Option<Seq<char>>,
}

impl View for SessionUser {
    type V = SessionUserView;

    open spec fn view(&self) -> SessionUserView {
        SessionUserView {
            id: self.id@,
            email: self.email@,
            username: self.username@,
            full_name: self.full_name@,
            avatar_url: self.avatar_url.deep_view(),
        }
    }
}

impl DeepView for SessionUser {
    type V = SessionUserView;

    open spec fn deep_view(&self) -> SessionUserView {
        self@
    }
}

impl SessionUserView {
    /// The identity projected from an account.
    pub open spec fn of(user: UserView) -> SessionUserView {
        SessionUserView {
            id: user.id,
            email: user.email,
            username: user.username,
            full_name: user.full_name(),
            avatar_url: user.avatar_url,
        }
    }
}

impl From<User> for SessionUser {
    /// The identity projected from an account.
    fn from(user: User) -> (identity: SessionUser)
        ensures
            identity@ == SessionUserView::of(user@),
    {
        let full_name = user.full_name();
        SessionUser {
            id: user.id,
            email: user.email,
            username: user.username,
            full_name,
            avatar_url: user.avatar_url,
        }
    }
}

/// The display name is a newly built string, which no spec function can
/// name, so the contract of the conversion stands on `from` itself and
/// speaks of views.
impl FromSpecImpl<User> for SessionUser {
    open spec fn obeys_from_spec() -> bool {
        false
    }

    open spec fn from_spec(user: User) -> SessionUser {
        SessionUser {
            id: user.id,
            email: user.email,
            username: user.username,
            full_name: user.username,
            avatar_url: user.avatar_url,
        }
    }
}

/// The submitted login form.
#[derive(Debug, Clone, PartialEq, Eq)]
pub struct LoginForm {
    pub email: String,
    pub password: String,
    pub remember_me: Option<bool>,
}

/// What a `LoginForm` holds.
pub struct LoginFormView {
    pub email: Seq<char>,
    pub password: Seq<char>,
    pub remember_me: Option<bool>,
}

impl View for LoginForm {
    type V = LoginFormView;

    open spec fn view(&self) -> LoginFormView {
        LoginFormView {
            email: self.email@,
            password: self.password@,
            remember_me: self.remember_me,
        }
    }
}

impl LoginFormView {
    /// Whether both the email and the password are present.
    pub open spec fn is_complete(self) -> bool {
        self.email.len() > 0 && self.password.len() > 0
    }

    /// The form as it may be shown again: the password is left out.
    pub open spec fn without_password(self) -> LoginFormView {
        LoginFormView { password: Seq::empty(), ..self }
    }
}

impl LoginForm {
    /// Whether both the email and the password are present.
    pub fn is_complete(&self) -> (complete: bool)
        ensures
            complete == self@.is_complete(),
    {
        self.email.as_str().unicode_len() > 0 && self.password.as_str().unicode_len() > 0
    }

    /// The form as it may be shown again: the password is left out.
    pub fn without_password(&self) -> (shown: LoginForm)
        ensures
            shown@ == self@.without_password(),
    {
        LoginForm {
            email: self.email.clone(),
            password: String::new(),
            remember_me: self.remember_me,
        }
    }
}

/// One way in which a registration form can be wrong.
#[derive(Debug, Clone, Copy, PartialEq, Eq)]
pub enum Violation {
    EmailRequired,
    EmailInvalid,
    UsernameRequired,
    UsernameTooShort,
    PasswordRequired,
    PasswordTooShort,
    PasswordMismatch,
}

impl Violation {
    /// The sentence shown to the visitor for this violation.
    pub open spec fn message(self) -> Seq<char> {
        match self {
            Violation::EmailRequired => "Email is required"@,
            Violation::EmailInvalid => "Please enter a valid email address"@,
            Violation::UsernameRequired => "Username is required"@,
            Violation::UsernameTooShort => "Username must be at least 3 characters long"@,
            Violation::PasswordRequired => "Password is required"@,
            Violation::PasswordTooShort => "Password must be at least 6 characters long"@,
            Violation::PasswordMismatch => "Passwords do not match"@,
        }
    }

    /// The sentence shown to the visitor for this violation.
    pub fn text(&self) -> (text: String)
        ensures
            text@ == self.message(),
    {
        match self {
            Violation::EmailRequired => "Email is required".to_string(),
            Violation::EmailInvalid => "Please enter a valid email address".to_string(),
            Violation::UsernameRequired => "Username is required".to_string(),
            Violation::UsernameTooShort => "Username must be at least 3 characters long".to_string(),
            Violation::PasswordRequired => "Password is required".to_string(),
            Violation::PasswordTooShort => "Password must be at least 6 characters long".to_string(),
            Violation::PasswordMismatch => "Passwords do not match".to_string(),
        }
    }
}

/// The least number of characters in a username.
pub const MIN_USERNAME_CHARS: usize = 3;

/// The least number of characters in a password.
pub const MIN_PASSWORD_CHARS: usize = 6;

/// The submitted registration form.
#[derive(Debug, Clone, PartialEq, Eq)]
pub struct RegisterForm {
    pub email: String,
    pub username: String,
    pub password: String,
    pub password_confirm: String,
    pub first_name: Option<String>,
    pub last_name: Option<String>,
}

/// What a `RegisterForm` holds.
pub struct RegisterFormView {
    pub email: Seq<char>,
    pub username: Seq<char>,
    pub password: Seq<char>,
    pub password_confirm: Seq<char>,
    pub first_name: Option<Seq<char>>,
    pub last_name: Option<Seq<char>>,
}

impl View for RegisterForm {
    type V = RegisterFormView;

    open spec fn view(&self) -> RegisterFormView {
        RegisterFormView {
            email: self.email@,
            username: self.username@,
            password: self.password@,
            password_confirm: self.password_confirm@,
            first_name: self.first_name.deep_view(),
            last_name: self.last_name.deep_view(),
        }
    }
}

/// The sequence that holds the value of `found`, or nothing.
pub open spec fn zero_or_one<T>(found: Option<T>) -> Seq<T> {
    match found {
        Some(x) => seq![x],
        None => Seq::empty(),
    }
}

impl RegisterFormView {
    /// The form as it may be shown again: the email, the username and the
    /// names stay, the password and its confirmation are left out.
    pub open spec fn without_passwords(self) -> RegisterFormView {
        RegisterFormView { password: Seq::empty(), password_confirm: Seq::empty(), ..self }
    }

    /// What is wrong with the email: it is empty, or it holds no `@`.
    pub open spec fn email_violation(self) -> Option<Violation> {
        if self.email.len() == 0 {
            Some(Violation::EmailRequired)
        } else if !self.email.contains('@') {
            Some(Violation::EmailInvalid)
        } else {
            None
        }
    }

    /// What is wrong with the username: it is empty, or shorter than three
    /// characters.
    pub open spec fn username_violation(self) -> Option<Violation> {
        if self.username.len() == 0 {
            Some(Violation::UsernameRequired)
        } else if self.username.len() < MIN_USERNAME_CHARS {
            Some(Violation::UsernameTooShort)
        } else {
            None
        }
    }

    /// What is wrong with the password: it is empty, or shorter than six
    /// characters.
    pub open spec fn password_violation(self) -> Option<Violation> {
        if self.password.len() == 0 {
            Some(Violation::PasswordRequired)
        } else if self.password.len() < MIN_PASSWORD_CHARS {
            Some(Violation::PasswordTooShort)
        } else {
            None
        }
    }

    /// What is wrong with the confirmation: it differs from the password.
    pub open spec fn confirmation_violation(self) -> Option<Violation> {
        if self.password != self.password_confirm {
            Some(Violation::PasswordMismatch)
        } else {
            None
        }
    }

    /// Every violation of the form, in the order email, username, password,
    /// confirmation. No check hides another.
    pub open spec fn violations(self) -> Seq<Violation> {
        zero_or_one(self.email_violation()) + zero_or_one(self.username_violation())
            + zero_or_one(self.password_violation()) + zero_or_one(
            self.confirmation_violation(),
        )
    }

    /// Whether the form violates nothing.
    pub open spec fn is_valid(self) -> bool {
        self.violations().len() == 0
    }

    /// The sentences for the violations of the form, in their order.
    pub open spec fn messages(self) -> Seq<Seq<char>> {
        self.violations().map_values(|v: Violation| v.message())
    }
}

/// Whether `c` occurs in `s`.
pub fn contains_char(s: &str, c: char) -> (found: bool)
    ensures
        found == s@.contains(c),
{
    let mut found = false;
    for ch in it: s.chars()
        invariant
            it.seq() == s@,
            found == s@.take(it.index() as int).contains(c),
    {
        proof {
            let i = it.index() as int;
            assert(s@.take(i + 1) =~= s@.take(i).push(s@[i]));
            if s@.take(i).contains(c) {
                let j = choose|j: int| 0 <= j < i && s@.take(i)[j] == c;
                assert(s@.take(i + 1)[j] == c);
            }
            if s@[i] == c {
                assert(s@.take(i + 1)[i] == c);
            }
        }
        if ch == c {
            found = true;
        }
    }
    proof {
        assert(s@.take(s@.len() as int) =~= s@);
    }
    found
}

impl RegisterForm {
    /// The form as it may be shown again: the password and its confirmation
    /// are left out.
    pub fn without_passwords(&self) -> (shown: RegisterForm)
        ensures
            shown@ == self@.without_passwords(),
    {
        RegisterForm {
            email: self.email.clone(),
            username: self.username.clone(),
            password: String::new(),
            password_confirm: String::new(),
            first_name: clone_optional(&self.first_name),
            last_name: clone_optional(&self.last_name),
        }
    }

    /// Every violation of the form, in the order email, username, password,
    /// confirmation.
    pub fn violations(&self) -> (found: Vec<Violation>)
        ensures
            found@ == self@.violations(),
    {
        let mut found: Vec<Violation> = Vec::new();
        if self.email.as_str().unicode_len() == 0 {
            found.push(Violation::EmailRequired);
        } else if !contains_char(self.email.as_str(), '@') {
            found.push(Violation::EmailInvalid);
        }
        assert(found@ =~= zero_or_one(self@.email_violation()));
        let username_chars = self.username.as_str().unicode_len();
        if username_chars == 0 {
            found.push(Violation::UsernameRequired);
        } else if username_chars < MIN_USERNAME_CHARS {
            found.push(Violation::UsernameTooShort);
        }
        assert(found@ =~= zero_or_one(self@.email_violation()) + zero_or_one(
            self@.username_violation(),
        ));
        let password_chars = self.password.as_str().unicode_len();
        if password_chars == 0 {
            found.push(Violation::PasswordRequired);
        } else if password_chars < MIN_PASSWORD_CHARS {
            found.push(Violation::PasswordTooShort);
        }
        assert(found@ =~= zero_or_one(self@.email_violation()) + zero_or_one(
            self@.username_violation(),
        ) + zero_or_one(self@.password_violation()));
        if self.password != self.password_confirm {
            found.push(Violation::PasswordMismatch);
        }
        assert(found@ =~= self@.violations());
        found
    }

    /// Checks the form: `Ok` when it violates nothing, else the sentence for
    /// every violation.
    pub fn validate(&self) -> (checked: Result<(), Vec<String>>)
        ensures
            checked is Ok <==> self@.is_valid(),
            checked matches Err(errors) ==> errors.deep_view() == self@.messages(),
    {
        let found = self.violations();
        if found.len() == 0 {
            return Ok(());
        }
        let mut errors: Vec<String> = Vec::new();
        let mut i: usize = 0;
        while i < found.len()
            invariant
                i <= found.len(),
                errors.len() == i,
                forall|j: int| 0 <= j < i ==> (#[trigger] errors@[j])@ == found@[j].message(),
            decreases found.len() - i,
        {
            errors.push(found[i].text());
            i = i + 1;
        }
        assert(errors.deep_view() =~= self@.messages());
        Err(errors)
    }
}

} // verus!
