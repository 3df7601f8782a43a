//! Accounts: what a registration must hold, and how passwords are kept and
//! checked.

use crate::models::{RegisterRequest, User, UserResponse};
use vstd::prelude::*;
use vstd::utf8::encode_utf8;

verus! {

/// The least number of bytes of a password.
pub const MIN_PASSWORD_BYTES: usize = 6;

/// Why a registration is refused before anything is looked up.
#[derive(Debug, PartialEq, Eq)]
pub enum RegistrationError {
    /// The email, the password or the username is empty.
    MissingFields,
    /// The password has fewer than [`MIN_PASSWORD_BYTES`] bytes.
    ShortPassword,
}

/// The verdict on a registration with the given email, password and
/// username. An empty field weighs more than a short password.
pub open spec fn registration_verdict(
    email: Seq<char>,
    password: Seq<char>,
    username: Seq<char>,
) -> Result<(), RegistrationError> {
    if email.len() == 0 || password.len() == 0 || username.len() == 0 {
        Err(RegistrationError::MissingFields)
    } else if encode_utf8(password).len() < MIN_PASSWORD_BYTES {
        Err(RegistrationError::ShortPassword)
    } else {
        Ok(())
    }
}

/// Checks a registration request.
pub fn validate_registration(request: &RegisterRequest) -> (verdict: Result<(), RegistrationError>)
    ensures
        verdict == registration_verdict(request.email@, request.password@, request.username@),
{
    if request.email.as_str().is_empty() || request.password.as_str().is_empty()
        || request.username.as_str().is_empty() {
        Err(RegistrationError::MissingFields)
    } else if request.password.as_str().as_bytes().len() < MIN_PASSWORD_BYTES {
        Err(RegistrationError::ShortPassword)
    } else {
        Ok(())
    }
}

impl RegistrationError {
    /// The words in which the refusal is told to the client.
    pub fn message(&self) -> (words: String)
        ensures
            words@ == match self {
                RegistrationError::MissingFields => "Email, password, and username are required"@,
                RegistrationError::ShortPassword => "Password must be at least 6 characters"@,
            },
    {
        match self {
            RegistrationError::MissingFields => "Email, password, and username are required"
                .to_string(),
            RegistrationError::ShortPassword => "Password must be at least 6 characters".to_string(),
        }
    }
}

/// Why a registration is refused after the accounts were looked up.
#[derive(Debug, PartialEq, Eq)]
pub enum RegistrationConflict {
    /// An account with the email exists.
    EmailTaken,
    /// An account with the username exists.
    UsernameTaken,
}

/// What stands against a registration, given whether an account with its
/// email and whether one with its username exists. A taken email weighs
/// more than a taken username.
pub fn registration_conflict(email_taken: bool, username_taken: bool) -> (conflict: Option<
    RegistrationConflict,
>)
    ensures
        conflict == if email_taken {
            Some(RegistrationConflict::EmailTaken)
        } else if username_taken {
            Some(RegistrationConflict::UsernameTaken)
        } else {
            None
        },
{
    if email_taken {
        Some(RegistrationConflict::EmailTaken)
    } else if username_taken {
        Some(RegistrationConflict::UsernameTaken)
    } else {
        None
    }
}

impl RegistrationConflict {
    /// The words in which the conflict is told to the client.
    pub fn message(&self) -> (words: String)
        ensures
            words@ == match self {
                RegistrationConflict::EmailTaken => "Email already registered"@,
                RegistrationConflict::UsernameTaken => "Username already taken"@,
            },
    {
        match self {
            RegistrationConflict::EmailTaken => "Email already registered".to_string(),
            RegistrationConflict::UsernameTaken => "Username already taken".to_string(),
        }
    }
}

/// What `bcrypt` says of a password and a stored hash: whether the hash is
/// one of the password; `None` where the hash is not well formed.
pub uninterp spec fn hash_accepts(password: Seq<char>, hash: Seq<char>) -> Option<bool>;

/// Hashes `password` with a fresh random salt.
///
/// Trusted: calls `bcrypt::hash` with the crate's default cost. The salt comes
/// from the system's random source, so the hash itself has no name; `None`
/// stands for a failure of that source. What holds of every hash that comes
/// back is that it accepts the password: the hash holds the cost and the
/// salt it was made with, and `bcrypt::verify` hashes the password again
/// with these and finds the same.
#[verifier::external_body]
fn salted_hash(password: &str) -> (hash: Option<String>)
    ensures
        hash matches Some(h) ==> hash_accepts(password@, h@) == Some(true),
{
    bcrypt::hash(password, bcrypt::DEFAULT_COST).ok()
}

/// Checks `password` against `hash`.
///
/// Trusted: calls `bcrypt::verify`, which hashes the password with the cost
/// and the salt that `hash` holds and compares. The outcome depends on the
/// two texts alone, so it has a name, [`hash_accepts`].
#[verifier::external_body]
fn check_hash(password: &str, hash: &str) -> (accepted: Option<bool>)
    ensures
        accepted == hash_accepts(password@, hash@),
{
    bcrypt::verify(password, hash).ok()
}

/// The hash under which `password` is to be stored; `None` where no random
/// salt could be had. Whatever the salt, the hash accepts `password`.
pub fn hash_password(password: &str) -> (hash: Option<String>)
    ensures
        hash matches Some(h) ==> hash_accepts(password@, h@) == Some(true),
{
    salted_hash(password)
}

/// Whether `password` is the password of the account with the stored hash
/// `password_hash`. A hash that is not well formed accepts nothing.
pub fn password_matches(password: &str, password_hash: &str) -> (matches: bool)
    ensures
        matches == (hash_accepts(password@, password_hash@) == Some(true)),
{
    match check_hash(password, password_hash) {
        Some(accepted) => accepted,
        None => false,
    }
}

/// Who signs in with `password`, given the account found under the email:
/// that account where there is one and the password is its password, nobody
/// otherwise.
pub fn sign_in(found: Option<User>, password: &str) -> (user: Option<User>)
    ensures
        match found {
            Some(account) => if hash_accepts(password@, account.password_hash@) == Some(true) {
                user == Some(account)
            } else {
                user is None
            },
            None => user is None,
        },
{
    match found {
        Some(account) => {
            if password_matches(password, account.password_hash.as_str()) {
                Some(account)
            } else {
                None
            }
        },
        None => None,
    }
}

/// The account that a registration creates: the request's email, username
/// and display name under the given id, hash and time; no avatar, no bio.
pub fn new_account(request: &RegisterRequest, id: String, password_hash: String, now: String) -> (user:
    User)
    ensures
        user.id == id,
        user.email@ == request.email@,
        user.password_hash == password_hash,
        user.username@ == request.username@,
        user.display_name@ == request.display_name@,
        user.avatar_url is None,
        user.bio is None,
        user.created_at == now,
{
    User {
        id,
        email: request.email.clone(),
        password_hash,
        username: request.username.clone(),
        display_name: request.display_name.clone(),
        avatar_url: None,
        bio: None,
        created_at: now,
    }
}

/// The pattern with which users are searched for `term`: the term between
/// two wildcards. An empty term searches nothing: all users are listed.
pub fn search_pattern(term: &str) -> (pattern: Option<String>)
    ensures
        match pattern {
            Some(p) => term@.len() > 0 && p@ == "%"@ + term@ + "%"@,
            None => term@.len() == 0,
        },
{
    if term.is_empty() {
        None
    } else {
        let mut pattern = "%".to_string();
        pattern.append(term);
        pattern.append("%");
        Some(pattern)
    }
}

/// The account shown where the real one cannot be found: the given id under
/// the name of an unknown user.
pub fn unknown_user(id: &str) -> (shown: UserResponse)
    ensures
        shown.id@ == id@,
        shown.email@.len() == 0,
        shown.username@ == "Unknown"@,
        shown.display_name@ == "Unknown User"@,
        shown.avatar_url is None,
        shown.bio is None,
{
    UserResponse {
        id: id.to_string(),
        email: String::new(),
        username: "Unknown".to_string(),
        display_name: "Unknown User".to_string(),
        avatar_url: None,
        bio: None,
    }
}

} // verus!
