//! The credential representation and its codec: usernames are validated
//! against a fixed character class, and a credential is written to text as
//! `<username>+<stored hash>`, split again at the first `+`.

use vstd::prelude::*;
use vstd::string::*;

verus! {

/// A character that may appear in a username: an ASCII letter, a digit,
/// `_` or `-`. The class deliberately excludes `+`, which separates the
/// username from the hash in the serialized form.
pub open spec fn is_username_char(c: char) -> bool {
    ||| '0' as u32 <= c as u32 && c as u32 <= '9' as u32
    ||| 'a' as u32 <= c as u32 && c as u32 <= 'z' as u32
    ||| 'A' as u32 <= c as u32 && c as u32 <= 'Z' as u32
    ||| c == '_'
    ||| c == '-'
}

/// A valid username is non-empty and made of username characters only.
pub open spec fn valid_username(s: Seq<char>) -> bool {
    s.len() > 0 && forall|i: int| 0 <= i < s.len() ==> is_username_char(#[trigger] s[i])
}

/// Errors that occur while working with credentials.
#[derive(Debug)]
pub enum CredentialError {
    /// The given username was not valid.
    InvalidUsername { username: String },
    /// The hashing backend rejected a password or a stored hash.
    PasswordHashError { reason: String },
    /// The separator `+` was missing from a serialized credential.
    MissingSeparator,
}

/// Checks that the username is non-empty and contains only ASCII letters,
/// digits, `_` and `-`.
pub fn verify_username(username: &str) -> (r: Result<(), CredentialError>)
    ensures
        r is Ok <==> valid_username(username@),
        r matches Err(e) ==> e matches CredentialError::InvalidUsername { username: u }
            && u@ == username@,
{
    let n = username.unicode_len();
    if n == 0 {
        return Err(CredentialError::InvalidUsername { username: username.to_owned() });
    }
    let mut i: usize = 0;
    while i < n
        invariant
            i <= n,
            n == username@.len(),
            forall|j: int| 0 <= j < i ==> is_username_char(#[trigger] username@[j]),
        decreases n - i,
    {
        let c = username.get_char(i);
        let u = c as u32;
        let ok = (('0' as u32) <= u && u <= ('9' as u32)) || (('a' as u32) <= u && u <= ('z' as u32))
            || (('A' as u32) <= u && u <= ('Z' as u32)) || c == '_' || c == '-';
        if !ok {
            return Err(CredentialError::InvalidUsername { username: username.to_owned() });
        }
        i = i + 1;
    }
    Ok(())
}

/// The size in bytes of the random salt generated for each fresh hash.
pub const SALT_SIZE: usize = 128;

/// What `argon2::hash_encoded` returns for a password and a salt under the
/// default configuration: an encoded string carrying the algorithm
/// parameters, the salt and the digest. A function of its arguments alone.
pub uninterp spec fn argon2_hash_of(pwd: Seq<u8>, salt: Seq<u8>) -> Seq<char>;

/// What `argon2::verify_encoded` returns for a stored encoded hash and a
/// password: `None` when the stored string cannot be decoded or checked,
/// otherwise whether the password matches. A function of its arguments
/// alone.
pub uninterp spec fn argon2_verify_of(hash: Seq<char>, pwd: Seq<u8>) -> Option<bool>;

/// Relies on rand's `thread_rng` and `RngCore::fill_bytes`: fills a buffer
/// of the requested length with bytes from a CSPRNG. Nothing is promised
/// of the values themselves.
#[verifier::external_body]
fn random_bytes(n: usize) -> (r: Vec<u8>)
    ensures
        r@.len() == n,
{
    let mut rng = rand::thread_rng();
    let mut buf: Vec<u8> = vec![0; n];
    rand::RngCore::fill_bytes(&mut rng, &mut buf);
    buf
}

/// Relies on `argon2::hash_encoded` with `Config::default()`: it succeeds
/// whenever the salt is 8 to 2^32 - 1 bytes long and the password fits in
/// u32 (all other checks concern the fixed default configuration), its
/// documentation shows that the returned encoding verifies against the
/// same password, and the encoding always begins with a `$` (the
/// parameter sections are `$`-delimited).
#[verifier::external_body]
fn argon2_hash(pwd: &[u8], salt: &[u8]) -> (r: Result<String, CredentialError>)
    requires
        8 <= salt@.len() <= 0xFFFF_FFFF,
        pwd@.len() <= 0xFFFF_FFFF,
    ensures
        r is Ok,
        r matches Ok(h) ==> h@ == argon2_hash_of(pwd@, salt@) && argon2_verify_of(h@, pwd@)
            == Some(true),
        r matches Ok(h) ==> h@.len() > 0 && h@[0] == '$',
{
    let config = argon2::Config::default();
    match argon2::hash_encoded(pwd, salt, &config) {
        Ok(h) => Ok(h),
        Err(e) => Err(CredentialError::PasswordHashError { reason: e.to_string() }),
    }
}

/// Relies on `argon2::verify_encoded`: it decodes the stored encoded hash,
/// recomputes the digest for the given password with the decoded
/// parameters and salt, and compares the digests; it errors exactly when
/// the stored string cannot be decoded. A function of its arguments alone,
/// named by `argon2_verify_of`.
#[verifier::external_body]
fn argon2_verify(hash: &str, pwd: &[u8]) -> (r: Result<bool, CredentialError>)
    ensures
        r matches Ok(b) ==> argon2_verify_of(hash@, pwd@) == Some(b),
        r is Err ==> argon2_verify_of(hash@, pwd@) is None,
        r matches Err(e) ==> e matches CredentialError::PasswordHashError { .. },
{
    match argon2::verify_encoded(hash, pwd) {
        Ok(b) => Ok(b),
        Err(e) => Err(CredentialError::PasswordHashError { reason: e.to_string() }),
    }
}

/// The outcome of checking a stored credential `(cred_user, cred_pass)`
/// against a submitted username and password: a differing username answers
/// `false` without any hashing work; otherwise the stored hash decides.
/// `None` stands for a hashing failure (malformed stored hash).
pub open spec fn spec_verify(
    cred_user: Seq<char>,
    cred_pass: Seq<char>,
    username: Seq<char>,
    pwd: Seq<u8>,
) -> Option<bool> {
    if cred_user != username {
        Some(false)
    } else {
        argon2_verify_of(cred_pass, pwd)
    }
}

/// The serialized textual form of a credential: the username, a single
/// `+`, then the stored hash (which may itself contain `+`).
pub open spec fn spec_serialize(user: Seq<char>, pass: Seq<char>) -> Seq<char> {
    user + seq!['+'] + pass
}

/// The position of the first `+` in `s`, or `s.len()` if there is none.
pub open spec fn first_plus(s: Seq<char>) -> int
    decreases s.len(),
{
    if s.len() == 0 {
        0
    } else if s[0] == '+' {
        0
    } else {
        1 + first_plus(s.subrange(1, s.len() as int))
    }
}

/// `first_plus` indeed points at the first `+`: everything before it is
/// not a `+`, and it is within the sequence exactly when a `+` occurs.
pub proof fn lemma_first_plus(s: Seq<char>)
    ensures
        0 <= first_plus(s) <= s.len(),
        first_plus(s) < s.len() ==> s[first_plus(s)] == '+',
        forall|j: int| 0 <= j < first_plus(s) ==> s[j] != '+',
    decreases s.len(),
{
    if s.len() > 0 && s[0] != '+' {
        let t = s.subrange(1, s.len() as int);
        lemma_first_plus(t);
        assert forall|j: int| 0 <= j < first_plus(s) implies s[j] != '+' by {
            if j > 0 {
                assert(t[j - 1] != '+');
            }
        }
    }
}

/// Splitting at the first `+`: the username before it, the hash after it,
/// or nothing when no `+` occurs.
pub open spec fn spec_split(s: Seq<char>) -> Option<(Seq<char>, Seq<char>)> {
    let i = first_plus(s);
    if i == s.len() {
        None
    } else {
        Some((s.subrange(0, i), s.subrange(i + 1, s.len() as int)))
    }
}

/// The stored unit of authentication: a username paired with a salted,
/// self-describing password hash. The plaintext password never appears in
/// a constructed credential.
#[derive(Debug)]
pub struct Credential {
    /// The username of the user.
    username: String,
    /// The stored (already hashed) password.
    password: String,
}

impl Credential {
    /// The username, as a sequence of characters.
    pub closed spec fn spec_user(&self) -> Seq<char> {
        self.username@
    }

    /// The stored hash, as a sequence of characters.
    pub closed spec fn spec_pass(&self) -> Seq<char> {
        self.password@
    }

    /// Every credential the constructors hand out has a valid username.
    pub open spec fn wf(&self) -> bool {
        valid_username(self.spec_user())
    }

    /// Constructor that takes the given username and (already hashed)
    /// password, rejecting invalid usernames.
    pub fn new(username: String, password: String) -> (r: Result<Self, CredentialError>)
        ensures
            r is Ok <==> valid_username(username@),
            r matches Ok(c) ==> c.spec_user() == username@ && c.spec_pass() == password@ && c.wf(),
            r matches Err(e) ==> e matches CredentialError::InvalidUsername { username: u }
                && u@ == username@,
    {
        match verify_username(username.as_str()) {
            Ok(_) => Ok(Credential { username, password }),
            Err(e) => Err(e),
        }
    }

    /// Constructor that hashes a plaintext password: validates the
    /// username first (no hashing work is wasted on an invalid username),
    /// generates a fresh random salt, and stores the encoded hash.
    pub fn from_plain(username: &str, password: &str) -> (r: Result<Self, CredentialError>)
        requires
            password.spec_bytes().len() <= 0xFFFF_FFFF,
        ensures
            r is Ok <==> valid_username(username@),
            r matches Ok(c) ==> {
                &&& c.spec_user() == username@
                &&& c.wf()
                &&& spec_verify(c.spec_user(), c.spec_pass(), username@, password.spec_bytes())
                    == Some(true)
                &&& c.spec_pass().len() > 0 && c.spec_pass()[0] == '$'
                &&& exists|salt: Seq<u8>|
                    salt.len() == SALT_SIZE && c.spec_pass() == #[trigger] argon2_hash_of(
                        password.spec_bytes(),
                        salt,
                    )
            },
            r matches Err(e) ==> e matches CredentialError::InvalidUsername { username: u }
                && u@ == username@,
    {
        match verify_username(username) {
            Ok(_) => {},
            Err(e) => {
                return Err(e);
            },
        }
        let salt = random_bytes(SALT_SIZE);
        let hash = match argon2_hash(password.as_bytes(), salt.as_slice()) {
            Ok(h) => h,
            Err(e) => {
                return Err(e);
            },
        };
        Ok(Credential { username: username.to_owned(), password: hash })
    }

    /// Compares this credential to the given username and plaintext
    /// password. A differing username answers `Ok(false)` at once, with no
    /// hashing performed — a constant-operation short-circuit, not a
    /// timing-safety guarantee. A hash that cannot be decoded surfaces as
    /// an error, never as `Ok(false)`.
    pub fn verify(&self, username: &str, password: &str) -> (r: Result<bool, CredentialError>)
        ensures
            match spec_verify(self.spec_user(), self.spec_pass(), username@, password.spec_bytes()) {
                Some(b) => r == Ok::<bool, CredentialError>(b),
                None => r matches Err(e) && e matches CredentialError::PasswordHashError { .. },
            },
    {
        if !crate::text::str_eq(self.username.as_str(), username) {
            return Ok(false);
        }
        argon2_verify(self.password.as_str(), password.as_bytes())
    }

    /// Serializes the credential to its textual form `username+hash`.
    pub fn serialize(&self) -> (r: String)
        ensures
            r@ == spec_serialize(self.spec_user(), self.spec_pass()),
    {
        let mut s = self.username.clone();
        s.append("+");
        s.append(self.password.as_str());
        proof {
            reveal_strlit("+");
            assert(s@ =~= spec_serialize(self.spec_user(), self.spec_pass()));
        }
        s
    }

    /// Returns the internal username.
    pub fn user(&self) -> (r: &str)
        ensures
            r@ == self.spec_user(),
    {
        self.username.as_str()
    }

    /// Returns the internal (hashed) password.
    pub fn pass(&self) -> (r: &str)
        ensures
            r@ == self.spec_pass(),
    {
        self.password.as_str()
    }
}

impl Credential {
    /// Parses a serialized `username+hash` pair: the first `+` splits the
    /// username (before) from the hash (after); the hash may contain
    /// further `+` characters.
    pub fn deserialize(s: &str) -> (r: Result<Self, CredentialError>)
        ensures
            spec_split(s@) is None <==> r matches Err(CredentialError::MissingSeparator),
            spec_split(s@) matches Some((u, p)) ==> {
                &&& valid_username(u) ==> (r matches Ok(c) && c.spec_user() == u
                    && c.spec_pass() == p && c.wf())
                &&& !valid_username(u) ==> (r matches Err(e)
                    && e matches CredentialError::InvalidUsername { username: x } && x@ == u)
            },
    {
        let n = s.unicode_len();
        let mut i: usize = 0;
        while i < n && s.get_char(i) != '+'
            invariant
                i <= n,
                n == s@.len(),
                forall|j: int| 0 <= j < i ==> s@[j] != '+',
            decreases n - i,
        {
            i = i + 1;
        }
        proof {
            lemma_first_plus(s@);
        }
        if i == n {
            return Err(CredentialError::MissingSeparator);
        }
        let user = s.substring_char(0, i);
        let pass = s.substring_char(i + 1, n);
        match verify_username(user) {
            Ok(_) => Ok(Credential { username: user.to_owned(), password: pass.to_owned() }),
            Err(e) => Err(e),
        }
    }
}

/// Parsing undoes serialization: a valid username contains no `+`, so the
/// separator written by `serialize` is the first `+` of the string, and
/// `deserialize(serialize(c))` returns a credential equal to `c`.
pub proof fn lemma_serialize_deserialize(c: Credential)
    requires
        c.wf(),
    ensures
        spec_split(spec_serialize(c.spec_user(), c.spec_pass())) == Some(
            (c.spec_user(), c.spec_pass()),
        ),
{
    let u = c.spec_user();
    let p = c.spec_pass();
    let s = spec_serialize(u, p);
    lemma_first_plus(s);
    let fp = first_plus(s);
    assert(s[u.len() as int] == '+');
    if fp < u.len() {
        assert(s[fp] == u[fp]);
        assert(is_username_char(u[fp]));
        assert(false);
    }
    if fp > u.len() {
        assert(s[u.len() as int] != '+');
        assert(false);
    }
    assert(s.subrange(0, fp) =~= u);
    assert(s.subrange(fp + 1, s.len() as int) =~= p);
}

/// Hashing then verifying succeeds: any credential that
/// `from_plain(username, password)` can return answers `Some(true)` under
/// `spec_verify` for that same username and password, which `verify` maps
/// to `Ok(true)`.
pub proof fn lemma_hash_then_verify(c: Credential, username: Seq<char>, pwd: Seq<u8>)
    requires
        c.spec_user() == username,
        argon2_verify_of(c.spec_pass(), pwd) == Some(true),
    ensures
        spec_verify(c.spec_user(), c.spec_pass(), username, pwd) == Some(true),
{
}

impl PartialEq for Credential {
    /// Equality is structural: same username and same stored hash.
    fn eq(&self, other: &Self) -> (r: bool) {
        self.username.eq(&other.username) && self.password.eq(&other.password)
    }
}

impl vstd::std_specs::cmp::PartialEqSpecImpl for Credential {
    open spec fn obeys_eq_spec() -> bool {
        true
    }

    open spec fn eq_spec(&self, other: &Self) -> bool {
        self.spec_user() == other.spec_user() && self.spec_pass() == other.spec_pass()
    }
}

} // verus!
