//! The rules of the credential store: how a password is hashed and checked,
//! what account a registration creates, and which stored account a login
//! may use. The table itself lives with the caller, who hands in what it
//! read and writes what these functions return.

use crate::error::AuthError;
use crate::models::{clone_optional, is_uuid_v4_text, RegisterForm, RegisterFormView, User, UserView};
use vstd::prelude::*;

verus! {

/// The work factor of the password hash.
pub const HASH_COST: u32 = 12;

#[verifier::external_type_specification]
#[verifier::external_body]
pub struct ExBcryptError(bcrypt::BcryptError);

/// What `bcrypt::verify` returns for a password and a stored hash:
/// `Some(true)` where the password fits the hash, `Some(false)` where it
/// does not, `None` where the hash cannot be read.
pub uninterp spec fn password_verdict(password: Seq<char>, hash: Seq<char>) -> Option<bool>;

/// The answer of a verification, without the error's content.
pub open spec fn verdict_of<E>(checked: Result<bool, E>) -> Option<bool> {
    match checked {
        Ok(fits) => Some(fits),
        Err(_) => None,
    }
}

/// Whether `hash` has the form that `bcrypt::hash` writes at work factor
/// `cost`: the scheme `2b` and the two decimal digits of the cost between
/// `$` signs, then the 22 characters of the salt and the 31 of the digest.
/// Only a cost from 4 to 31 is ever written.
pub open spec fn is_bcrypt_hash(hash: Seq<char>, cost: u32) -> bool {
    &&& 4 <= cost <= 31
    &&& hash.len() == 60
    &&& hash[0] == '$' && hash[1] == '2' && hash[2] == 'b' && hash[3] == '$'
    &&& hash[4] as int == '0' as int + cost / 10
    &&& hash[5] as int == '0' as int + cost % 10
    &&& hash[6] == '$'
}

/// Calls `bcrypt::hash`. The salt is random, so the hash is not determined
/// and the call fails where the random source does; the contract claims
/// that whatever hash comes back is written at the cost asked for and is
/// one that `bcrypt::verify` accepts for the same password.
#[verifier::external_body]
fn bcrypt_hash(password: &str, cost: u32) -> (hashed: Result<String, bcrypt::BcryptError>)
    ensures
        hashed matches Ok(hash) ==> is_bcrypt_hash(hash@, cost),
        hashed matches Ok(hash) ==> password_verdict(password@, hash@) == Some(true),
{
    bcrypt::hash(password, cost)
}

/// Calls `bcrypt::verify`, whose answer depends on the password and the
/// hash alone.
#[verifier::external_body]
fn bcrypt_verify(password: &str, hash: &str) -> (checked: Result<bool, bcrypt::BcryptError>)
    ensures
        verdict_of(checked) == password_verdict(password@, hash@),
{
    bcrypt::verify(password, hash)
}

/// The text of a `bcrypt::BcryptError`, as its `Display` impl writes it.
#[verifier::external_body]
fn bcrypt_error_text(error: &bcrypt::BcryptError) -> (text: String) {
    error.to_string()
}

/// Hashes a password at `HASH_COST`; on failure, the text of the error.
/// Whether the hashing succeeds lies with the random source that the salt
/// is drawn from.
pub fn hash_password(password: &str) -> (hashed: Result<String, String>)
    ensures
        hashed matches Ok(hash) ==> is_bcrypt_hash(hash@, HASH_COST),
        hashed matches Ok(hash) ==> password_verdict(password@, hash@) == Some(true),
{
    match bcrypt_hash(password, HASH_COST) {
        Ok(hash) => Ok(hash),
        Err(error) => Err(bcrypt_error_text(&error)),
    }
}

/// Checks a password against a stored hash; on failure, the text of the
/// error.
pub fn verify_password(password: &str, hash: &str) -> (checked: Result<bool, String>)
    ensures
        verdict_of(checked) == password_verdict(password@, hash@),
{
    match bcrypt_verify(password, hash) {
        Ok(fits) => Ok(fits),
        Err(error) => Err(bcrypt_error_text(&error)),
    }
}

/// Whether `user` is an account that registering `form` may create: it
/// carries the form's email, username and names, a well-formed identifier,
/// a hash at `HASH_COST` that accepts the form's password, and is otherwise
/// fresh.
pub open spec fn created_from(form: RegisterFormView, user: UserView) -> bool {
    &&& user == (UserView {
        first_name: form.first_name,
        last_name: form.last_name,
        ..UserView::fresh(
            user.id,
            form.email,
            form.username,
            user.password_hash,
            user.created_at,
        )
    })
    &&& is_uuid_v4_text(user.id)
    &&& is_bcrypt_hash(user.password_hash, HASH_COST)
    &&& password_verdict(form.password, user.password_hash) == Some(true)
}

/// The account to store for a registration: the password hashed, a new
/// identifier drawn, the names taken from the form. Fails only where the
/// hashing does.
pub fn create_user(form: &RegisterForm) -> (created: Result<User, AuthError>)
    ensures
        created matches Ok(user) ==> created_from(form@, user@),
        created matches Err(error) ==> error@ is CryptoError,
{
    match hash_password(form.password.as_str()) {
        Ok(hash) => {
            let mut user = User::new(form.email.clone(), form.username.clone(), hash);
            user.first_name = clone_optional(&form.first_name);
            user.last_name = clone_optional(&form.last_name);
            Ok(user)
        },
        Err(text) => Err(AuthError::CryptoError(text)),
    }
}

/// Whether a lookup by `email` that found `row` found an account that may
/// log in: an active one under that email.
pub open spec fn is_candidate(row: Option<UserView>, email: Seq<char>) -> bool {
    row matches Some(user) && user.is_active && user.email == email
}

/// What follows from the check of a candidate's password: the account where
/// the password fits, no match where it does not, and the failure where the
/// hash could not be read.
pub fn grant(user: User, checked: Result<bool, String>) -> (granted: Result<Option<User>, AuthError>)
    ensures
        match checked {
            Ok(true) => granted == Ok::<Option<User>, AuthError>(Some(user)),
            Ok(false) => granted == Ok::<Option<User>, AuthError>(None),
            Err(text) => granted == Err::<Option<User>, AuthError>(AuthError::CryptoError(text)),
        },
{
    match checked {
        Ok(true) => Ok(Some(user)),
        Ok(false) => Ok(None),
        Err(text) => Err(AuthError::CryptoError(text)),
    }
}

/// Decides a login against the row that a lookup by email found. The
/// account comes back where the row is an active account under that email
/// whose hash accepts the password. An unknown email and a wrong password
/// both give `Ok(None)`.
pub fn authenticate_user(row: Option<User>, email: &str, password: &str) -> (found: Result<
    Option<User>,
    AuthError,
>)
    ensures
        match found {
            Ok(Some(user)) => is_candidate(row.deep_view(), email@) && password_verdict(
                password@,
                user@.password_hash,
            ) == Some(true) && row == Some(user),
            Ok(None) => !is_candidate(row.deep_view(), email@) || password_verdict(
                password@,
                row.unwrap()@.password_hash,
            ) == Some(false),
            Err(error) => is_candidate(row.deep_view(), email@) && password_verdict(
                password@,
                row.unwrap()@.password_hash,
            ) is None && error@ is CryptoError,
        },
{
    match row {
        Some(user) => {
            if user.is_active && user.email == email.to_owned() {
                let checked = verify_password(password, user.password_hash.as_str());
                grant(user, checked)
            } else {
                Ok(None)
            }
        },
        None => Ok(None),
    }
}

/// Whether a count of the accounts under an email says that the email is
/// taken.
pub fn email_exists(count: i64) -> (taken: bool)
    ensures
        taken == (count > 0),
{
    count > 0
}

/// Whether a count of the accounts under a username says that the username
/// is taken.
pub fn username_exists(count: i64) -> (taken: bool)
    ensures
        taken == (count > 0),
{
    count > 0
}

} // verus!
