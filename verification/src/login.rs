//! The server-side login service: one request walks from account lookup
//! through credential verification to a terminal outcome, which maps
//! one-to-one onto an HTTP response. Storage, hashing and signing
//! failures are system failures, never conflated with a rejection.

use vstd::prelude::*;
use vstd::string::*;

use crate::credentials::Credential;
use crate::credentials::CredentialError;
use crate::credentials::spec_verify;
use crate::credentials::valid_username;
use crate::text::dec_of;
use crate::token::IssueError;
use crate::token::JWT_EXPIRATION_TIME;
use crate::token::RFC3339_MAX_TIMESTAMP;
use crate::token::RFC3339_MIN_TIMESTAMP;
use crate::token::issue_at;
use crate::token::jwt_token_of;
use crate::token::now_unix;
use crate::token::rfc3339_of;

verus! {

/// A stored account in the database.
#[derive(Debug)]
pub struct Account {
    /// The identifier of this user, assigned by storage.
    pub id: u32,
    /// The credential of the user.
    pub credential: Credential,
}

impl PartialEq for Account {
    /// Equality is structural: same identifier and same credential.
    fn eq(&self, other: &Self) -> (r: bool) {
        self.id == other.id && self.credential.eq(&other.credential)
    }
}

impl vstd::std_specs::cmp::PartialEqSpecImpl for Account {
    open spec fn obeys_eq_spec() -> bool {
        true
    }

    open spec fn eq_spec(&self, other: &Self) -> bool {
        self.id == other.id && self.credential.spec_user() == other.credential.spec_user()
            && self.credential.spec_pass() == other.credential.spec_pass()
    }
}

/// The terminal outcome of one login request.
#[derive(Debug)]
pub enum LoginOutcome {
    /// The credential was valid; carries the signed session token.
    Authenticated { token: String },
    /// The password did not match the stored credential.
    Rejected,
    /// No account with the submitted username exists.
    Unknown,
    /// A storage, hashing or signing failure; surfaced to the caller only
    /// as an opaque server-side failure.
    SystemFailure { reason: String },
}

/// Errors of the root-account provisioning path.
#[derive(Debug)]
pub enum AuthError {
    /// Something went wrong with a credential.
    CredentialError { err: CredentialError },
    /// Could not match the given two credentials.
    CredentialVerifyError { err: CredentialError },
    /// The given root credentials are outdated.
    RootCredentialsOutdated,
}

/// Decides one login request as of current time `now`, given what storage
/// returned for the submitted username. No account means `Unknown`, and no
/// hashing is performed on that path; a failed password check means
/// `Rejected`; a valid credential is owed a signed token for the
/// account's identifier, expiring `JWT_EXPIRATION_TIME` seconds after
/// `now`, whenever that expiry is expressible in RFC 3339.
pub fn handle_at(
    account: Option<&Account>,
    username: &str,
    password: &str,
    secret: &[u8],
    now: i64,
) -> (r: LoginOutcome)
    ensures
        account is None ==> r is Unknown,
        account matches Some(a) ==> match spec_verify(
            a.credential.spec_user(),
            a.credential.spec_pass(),
            username@,
            password.spec_bytes(),
        ) {
            Some(false) => r is Rejected,
            Some(true) => {
                &&& r is Authenticated || r is SystemFailure
                &&& RFC3339_MIN_TIMESTAMP <= now + JWT_EXPIRATION_TIME <= RFC3339_MAX_TIMESTAMP
                    ==> r is Authenticated
                &&& r matches LoginOutcome::Authenticated { token } ==> token@ == jwt_token_of(
                    secret@,
                    dec_of(a.id as nat),
                    rfc3339_of(now + JWT_EXPIRATION_TIME),
                )
            },
            None => r is SystemFailure,
        },
{
    let a = match account {
        Some(a) => a,
        None => {
            return LoginOutcome::Unknown;
        },
    };
    match a.credential.verify(username, password) {
        Ok(true) => {
            if now > i64::MAX - (JWT_EXPIRATION_TIME as i64) {
                return LoginOutcome::SystemFailure {
                    reason: String::from_str("expiry out of range"),
                };
            }
            match issue_at(a.id, secret, now) {
                Ok(token) => LoginOutcome::Authenticated { token },
                Err(e) => {
                    let reason = match e {
                        IssueError::KeyError { reason } => reason,
                        IssueError::EncodeError { reason } => reason,
                    };
                    LoginOutcome::SystemFailure { reason }
                },
            }
        },
        Ok(false) => LoginOutcome::Rejected,
        Err(e) => {
            let reason = match e {
                CredentialError::PasswordHashError { reason } => reason,
                _ => String::new(),
            };
            LoginOutcome::SystemFailure { reason }
        },
    }
}

/// Decides one login request as of the current clock time. The token's
/// expiry depends on the clock; every other part of the outcome is as in
/// `handle_at`.
pub fn handle(account: Option<&Account>, username: &str, password: &str, secret: &[u8]) -> (r:
    LoginOutcome)
    ensures
        account is None ==> r is Unknown,
        account matches Some(a) ==> match spec_verify(
            a.credential.spec_user(),
            a.credential.spec_pass(),
            username@,
            password.spec_bytes(),
        ) {
            Some(false) => r is Rejected,
            Some(true) => r is Authenticated || r is SystemFailure,
            None => r is SystemFailure,
        },
        account matches Some(a) ==> (r matches LoginOutcome::Authenticated { token } ==> exists|
            now: int,
        |
            token@ == jwt_token_of(secret@, dec_of(a.id as nat), #[trigger] rfc3339_of(
                now + JWT_EXPIRATION_TIME,
            ))),
{
    let now = now_unix();
    handle_at(account, username, password, secret, now)
}

/// The HTTP response for a terminal login outcome: `200` with the token
/// as body, `403` for a rejected password, `404` for an unknown user, and
/// `500` with an opaque body for a system failure.
pub fn response_of(outcome: &LoginOutcome, username: &str) -> (r: (u16, String))
    ensures
        outcome matches LoginOutcome::Authenticated { token } ==> r.0 == 200 && r.1@ == token@,
        outcome is Rejected ==> r.0 == 403 && r.1@ == "Invalid password"@,
        outcome is Unknown ==> r.0 == 404 && r.1@ == "Unknown username '"@ + username@ + "'"@,
        outcome is SystemFailure ==> r.0 == 500 && r.1@ == "Internal server error"@,
{
    match outcome {
        LoginOutcome::Authenticated { token } => (200, token.clone()),
        LoginOutcome::Rejected => (403, String::from_str("Invalid password")),
        LoginOutcome::Unknown => {
            let mut body = String::from_str("Unknown username '");
            body.append(username);
            body.append("'");
            (404, body)
        },
        LoginOutcome::SystemFailure { .. } => (500, String::from_str("Internal server error")),
    }
}

/// Decides how to provision the root account, given what storage returned
/// for the root username: with no stored account, a freshly hashed
/// credential to insert is returned; a stored account must verify against
/// the provided password, else the provided credentials are outdated.
pub fn provision_root(existing: Option<&Account>, username: &str, password: &str) -> (r: Result<
    Option<Credential>,
    AuthError,
>)
    requires
        password.spec_bytes().len() <= 0xFFFF_FFFF,
    ensures
        existing is None && valid_username(username@) ==> (r matches Ok(oc) && oc matches Some(c)
            && c.spec_user() == username@ && c.wf() && spec_verify(
            c.spec_user(),
            c.spec_pass(),
            username@,
            password.spec_bytes(),
        ) == Some(true)),
        existing is None && !valid_username(username@) ==> (r matches Err(e)
            && e matches AuthError::CredentialError { .. }),
        existing matches Some(a) ==> match spec_verify(
            a.credential.spec_user(),
            a.credential.spec_pass(),
            username@,
            password.spec_bytes(),
        ) {
            Some(true) => r matches Ok(oc) && oc is None,
            Some(false) => r matches Err(e) && e is RootCredentialsOutdated,
            None => r matches Err(e) && e matches AuthError::CredentialVerifyError { .. },
        },
{
    match existing {
        None => match Credential::from_plain(username, password) {
            Ok(c) => Ok(Some(c)),
            Err(e) => Err(AuthError::CredentialError { err: e }),
        },
        Some(a) => match a.credential.verify(username, password) {
            Ok(true) => Ok(None),
            Ok(false) => Err(AuthError::RootCredentialsOutdated),
            Err(e) => Err(AuthError::CredentialVerifyError { err: e }),
        },
    }
}

} // verus!
