//! The pure decisions of the login, registration and account surface. The
//! credential store and the password hasher are external collaborators: the
//! callers look a username up and check a password hash, then hand the plain
//! outcomes (`registered`, `password_matches`) to the decision functions
//! here, which say exactly which answer the request gets.

use vstd::prelude::*;
use crate::text::{spec_decimal_signed, spec_trim, str_eq, trim};

verus! {

/// The reserved identifier of the built-in anonymous account.
pub const GUEST_USER_ID: i64 = 1;

/// One authenticated (or anonymous) account as the session layer sees it.
#[derive(Clone, Debug)]
pub struct User {
    pub id: i64,
    pub anonymous: bool,
    pub username: String,
}

impl User {
    /// The built-in anonymous account, used whenever the session carries
    /// the reserved identifier.
    pub fn guest() -> (r: User)
        ensures
            r.id == GUEST_USER_ID,
            r.anonymous,
            r.username@ == "guest"@,
    {
        User { id: GUEST_USER_ID, anonymous: true, username: String::from_str("guest") }
    }

    /// The account a credential-store record describes: never anonymous.
    pub fn from_record(id: i64, username: String) -> (r: User)
        ensures
            r.id == id,
            !r.anonymous,
            r.username@ == username@,
    {
        User { id, anonymous: false, username }
    }

    /// An account is active exactly when it is not the anonymous one.
    pub fn is_active(&self) -> (r: bool)
        ensures
            r == !self.anonymous,
    {
        !self.anonymous
    }

    /// Whether this is the anonymous account.
    pub fn is_anonymous(&self) -> (r: bool)
        ensures
            r == self.anonymous,
    {
        self.anonymous
    }

    /// An account is authenticated exactly when it is not the anonymous one.
    pub fn is_authenticated(&self) -> (r: bool)
        ensures
            r == !self.anonymous,
    {
        !self.anonymous
    }

    /// The greeting shown to a signed-in account.
    pub fn greeting(&self) -> (r: String)
        ensures
            r@ == spec_greeting(self.username@, self.id as int),
    {
        let mut out = String::from_str("Hello ");
        out.append(self.username.as_str());
        out.append(", your id is ");
        let id_text = crate::text::i64_to_decimal(self.id);
        out.append(id_text.as_str());
        out.append(" !");
        proof {
            assert(out@ =~= spec_greeting(self.username@, self.id as int));
        }
        out
    }
}

/// The greeting text for a username and identifier.
pub open spec fn spec_greeting(name: Seq<char>, id: int) -> Seq<char> {
    "Hello "@ + name + ", your id is "@ + spec_decimal_signed(id) + " !"@
}

/// How a registration request is answered, once the credential store has
/// said whether the username is taken.
#[derive(Clone, Copy, PartialEq, Eq, Structural, Debug)]
pub enum RegisterCheck {
    /// The username (after trimming) or the password is empty.
    EmptyCredentials,
    /// Another account already holds the username.
    UsernameTaken,
    /// The account may be created.
    Accepted,
}

/// The registration decision over models.
pub open spec fn spec_register_decision(
    username: Seq<char>,
    password: Seq<char>,
    username_taken: bool,
) -> RegisterCheck {
    if spec_trim(username).len() == 0 || password.len() == 0 {
        RegisterCheck::EmptyCredentials
    } else if username_taken {
        RegisterCheck::UsernameTaken
    } else {
        RegisterCheck::Accepted
    }
}

/// Decide a registration request. `username_taken` is the credential
/// store's answer for this username.
pub fn register_decision(username: &str, password: &str, username_taken: bool) -> (r: RegisterCheck)
    ensures
        r == spec_register_decision(username@, password@, username_taken),
{
    if trim(username).is_empty() || password.is_empty() {
        RegisterCheck::EmptyCredentials
    } else if username_taken {
        RegisterCheck::UsernameTaken
    } else {
        RegisterCheck::Accepted
    }
}

/// How a login request is answered, once the credential store has said
/// whether the username is registered and whether the password matched.
#[derive(Clone, Copy, PartialEq, Eq, Structural, Debug)]
pub enum LoginCheck {
    /// The username (after trimming) or the password is empty.
    EmptyCredentials,
    /// The guest account may not log in.
    GuestForbidden,
    /// No account holds this username.
    UnknownUsername,
    /// The password did not match the stored hash.
    WrongPassword,
    /// The login succeeds.
    Accepted,
}

/// The login decision over models.
pub open spec fn spec_login_decision(
    username: Seq<char>,
    password: Seq<char>,
    registered: bool,
    password_matches: bool,
) -> LoginCheck {
    if spec_trim(username).len() == 0 || password.len() == 0 {
        LoginCheck::EmptyCredentials
    } else if username == "guest"@ {
        LoginCheck::GuestForbidden
    } else if !registered {
        LoginCheck::UnknownUsername
    } else if !password_matches {
        LoginCheck::WrongPassword
    } else {
        LoginCheck::Accepted
    }
}

/// Decide a login request. `registered` and `matched` are the credential
/// store's and the password hasher's answers; `matched` is only consulted
/// for a registered, non-guest, non-empty request.
pub fn login_decision(username: &str, password: &str, registered: bool, matched: bool) -> (r:
    LoginCheck)
    ensures
        r == spec_login_decision(username@, password@, registered, matched),
{
    if trim(username).is_empty() || password.is_empty() {
        LoginCheck::EmptyCredentials
    } else if str_eq(username, "guest") {
        LoginCheck::GuestForbidden
    } else if !registered {
        LoginCheck::UnknownUsername
    } else if !matched {
        LoginCheck::WrongPassword
    } else {
        LoginCheck::Accepted
    }
}

/// Whether `password` matches the bcrypt `hash`: the password hasher's
/// (deterministic) answer, a malformed hash counting as no match.
pub uninterp spec fn password_matches(password: Seq<char>, hash: Seq<char>) -> bool;

/// Relies on bcrypt::verify: it re-hashes `password` with the salt and cost
/// carried in `hash` and compares, a pure function of the two arguments; its
/// error (a malformed hash) counts as no match.
#[verifier::external_body]
fn bcrypt_verify(password: &str, hash: &str) -> (r: bool)
    ensures
        r == password_matches(password@, hash@),
{
    bcrypt::verify(password, hash).unwrap_or(false)
}

/// Relies on bcrypt::hash with cost 10: the salt is drawn from the OS
/// randomness source, so nothing relates two calls on the same password;
/// whatever hash comes back, bcrypt::verify accepts the same password
/// against it. `None` reports a failure to draw randomness.
#[verifier::external_body]
fn bcrypt_hash(password: &str) -> (r: Option<String>)
    ensures
        r matches Some(h) ==> password_matches(password@, h@),
{
    bcrypt::hash(password, 10).ok()
}

/// What handling a registration request produced.
#[derive(Clone, PartialEq, Eq, Debug)]
pub enum RegisterOutcome {
    /// The request was rejected; the check says why.
    Rejected(RegisterCheck),
    /// The request was accepted; store this password hash for the account.
    Ready(String),
    /// The request was accepted, but the hasher could not draw randomness;
    /// nothing may be stored.
    HashUnavailable,
}

/// Handle a registration request up to the store write: decide it, and hash
/// the password for an accepted one. An accepted request yields a hash the
/// submitted password verifies against, unless the hasher's randomness
/// source fails.
pub fn prepare_registration(username: &str, password: &str, username_taken: bool) -> (r:
    RegisterOutcome)
    ensures
        ({
            let d = spec_register_decision(username@, password@, username_taken);
            match r {
                RegisterOutcome::Rejected(c) => c == d && d != RegisterCheck::Accepted,
                RegisterOutcome::Ready(h) => d == RegisterCheck::Accepted && password_matches(
                    password@,
                    h@,
                ),
                RegisterOutcome::HashUnavailable => d == RegisterCheck::Accepted,
            }
        }),
{
    match register_decision(username, password, username_taken) {
        RegisterCheck::Accepted => match bcrypt_hash(password) {
            Some(h) => RegisterOutcome::Ready(h),
            None => RegisterOutcome::HashUnavailable,
        },
        c => RegisterOutcome::Rejected(c),
    }
}

/// Decide a login request against the stored credential record: the
/// account's password hash when the username is registered, `None` when it
/// is not.
pub fn login_with_hash(username: &str, password: &str, stored_hash: Option<&str>) -> (r: LoginCheck)
    ensures
        r == spec_login_decision(
            username@,
            password@,
            stored_hash is Some,
            match stored_hash {
                Some(h) => password_matches(password@, h@),
                None => false,
            },
        ),
{
    let matched = match stored_hash {
        Some(h) => bcrypt_verify(password, h),
        None => false,
    };
    login_decision(username, password, stored_hash.is_some(), matched)
}

} // verus!
