//! Token issuance: builds and signs the claim set for a successful login.
//! The claim set is `{"id": <account id>, "exp": <RFC 3339 expiry>}`,
//! signed with HMAC-SHA-256 under the process-wide shared secret.

use vstd::prelude::*;
use vstd::string::*;

use crate::text::dec_of;
use crate::text::format_u32;

verus! {

/// The time in seconds after which an issued session token expires.
pub const JWT_EXPIRATION_TIME: u64 = 3600;

/// The first unix timestamp RFC 3339 can express: 0000-01-01T00:00:00Z.
pub const RFC3339_MIN_TIMESTAMP: i64 = -62167219200;

/// The last unix timestamp RFC 3339 can express: 9999-12-31T23:59:59Z.
pub const RFC3339_MAX_TIMESTAMP: i64 = 253402300799;

/// Errors that occur while issuing a signed token. Both are fatal to the
/// single request, not to the process.
#[derive(Debug)]
pub enum IssueError {
    /// The signing key material was rejected.
    KeyError { reason: String },
    /// The claim set could not be encoded or signed.
    EncodeError { reason: String },
}

/// What formatting a unix timestamp (seconds) as RFC 3339 text yields.
/// A function of the timestamp alone.
pub uninterp spec fn rfc3339_of(ts: int) -> Seq<char>;

/// What signing the claim set `{"id": id, "exp": exp}` with an
/// HMAC-SHA-256 key derived from `secret` yields. The claim map is
/// ordered, its serialization and the signature are deterministic, so the
/// token is a function of the secret and the two claim values alone.
pub uninterp spec fn jwt_token_of(secret: Seq<u8>, id: Seq<char>, exp: Seq<char>) -> Seq<char>;

/// Relies on time's `OffsetDateTime::from_unix_timestamp` and
/// `OffsetDateTime::format` with the well-known RFC 3339 description: a
/// timestamp within the supported range formats as the RFC 3339 text of
/// that instant. For a UTC value the formatter rejects only a calendar
/// year outside 0..10000, so every timestamp from year 0 through year
/// 9999 succeeds; out-of-range timestamps error.
#[verifier::external_body]
fn format_rfc3339(ts: i64) -> (r: Result<String, IssueError>)
    ensures
        r matches Ok(t) ==> t@ == rfc3339_of(ts as int),
        RFC3339_MIN_TIMESTAMP <= ts <= RFC3339_MAX_TIMESTAMP ==> r is Ok,
{
    let odt = match time::OffsetDateTime::from_unix_timestamp(ts) {
        Ok(o) => o,
        Err(e) => {
            return Err(IssueError::EncodeError { reason: e.to_string() });
        },
    };
    match odt.format(&time::format_description::well_known::Rfc3339) {
        Ok(s) => Ok(s),
        Err(e) => Err(IssueError::EncodeError { reason: e.to_string() }),
    }
}

/// Relies on `Hmac::<Sha256>::new_from_slice` and jwt's `sign_with_key`
/// for a two-entry claim map: the header is fixed for HS256, the map
/// serializes in key order, and the HMAC-SHA-256 signature is
/// deterministic, so a returned token depends on the secret and the two
/// claim values alone. The call cannot fail: HMAC accepts keys of any
/// length, the header's algorithm always matches the key's, and
/// JSON-serializing the string map and the fixed header is infallible.
#[verifier::external_body]
fn sign_claims(secret: &[u8], id: &str, exp: &str) -> (r: Result<String, IssueError>)
    ensures
        r is Ok,
        r matches Ok(t) ==> t@ == jwt_token_of(secret@, id@, exp@),
{
    let key: hmac::Hmac<sha2::Sha256> = match hmac::Mac::new_from_slice(secret) {
        Ok(k) => k,
        Err(e) => {
            return Err(IssueError::KeyError { reason: e.to_string() });
        },
    };
    let mut claims = std::collections::BTreeMap::new();
    claims.insert("id", id);
    claims.insert("exp", exp);
    match jwt::SignWithKey::sign_with_key(claims, &key) {
        Ok(t) => Ok(t),
        Err(e) => Err(IssueError::EncodeError { reason: e.to_string() }),
    }
}

/// Relies on time's `OffsetDateTime::now_utc`: the current UTC time as a
/// unix timestamp in seconds. Nothing is promised of the value.
#[verifier::external_body]
pub(crate) fn now_unix() -> (r: i64) {
    time::OffsetDateTime::now_utc().unix_timestamp()
}

/// Builds and signs the claim set for account `id`, expiring
/// `JWT_EXPIRATION_TIME` seconds after the given current time. Issuance
/// is owed whenever the expiry is expressible in RFC 3339 (years 0
/// through 9999); it fails only outside that range.
pub fn issue_at(id: u32, secret: &[u8], now: i64) -> (r: Result<String, IssueError>)
    requires
        now + JWT_EXPIRATION_TIME <= i64::MAX,
    ensures
        r matches Ok(t) ==> t@ == jwt_token_of(
            secret@,
            dec_of(id as nat),
            rfc3339_of(now + JWT_EXPIRATION_TIME),
        ),
        RFC3339_MIN_TIMESTAMP <= now + JWT_EXPIRATION_TIME <= RFC3339_MAX_TIMESTAMP ==> r is Ok,
{
    let exp_ts = now + (JWT_EXPIRATION_TIME as i64);
    let exp = match format_rfc3339(exp_ts) {
        Ok(s) => s,
        Err(e) => {
            return Err(e);
        },
    };
    let id_str = format_u32(id);
    sign_claims(secret, id_str.as_str(), exp.as_str())
}

/// Issues a token for account `id` expiring `JWT_EXPIRATION_TIME` seconds
/// from the current time. The expiry depends on the clock: whatever
/// instant the clock returned, a returned token is the signed claim set
/// for the identifier and that instant's expiry.
pub fn issue(id: u32, secret: &[u8]) -> (r: Result<String, IssueError>)
    ensures
        r matches Ok(t) ==> exists|now: int|
            t@ == jwt_token_of(secret@, dec_of(id as nat), #[trigger] rfc3339_of(
                now + JWT_EXPIRATION_TIME,
            )),
{
    let now = now_unix();
    if now > i64::MAX - (JWT_EXPIRATION_TIME as i64) {
        return Err(IssueError::EncodeError { reason: String::from_str("expiry out of range") });
    }
    let r = issue_at(id, secret, now);
    proof {
        assert(r matches Ok(t) ==> t@ == jwt_token_of(
            secret@,
            dec_of(id as nat),
            rfc3339_of(now + JWT_EXPIRATION_TIME),
        ));
    }
    r
}

} // verus!
