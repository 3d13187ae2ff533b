//! The structs and bodies used in the API communication between client
//! and service: the login request body is the JSON serialization of a
//! username/password pair, built and escaped here character by character.

use vstd::prelude::*;
use vstd::string::*;

use crate::text::push_char;

verus! {

/// The JSON body of a login request.
#[derive(Debug)]
pub struct LoginJson {
    /// The username of the user.
    pub username: String,
    /// The password of the user, plaintext as entered — never pre-hashed
    /// on the client side.
    pub password: String,
}

/// The lower-case hexadecimal digit character for `d`, for `0 <= d <= 15`.
pub open spec fn hex_char(d: int) -> char {
    if d < 10 {
        crate::text::digit_char(d)
    } else if d == 10 {
        'a'
    } else if d == 11 {
        'b'
    } else if d == 12 {
        'c'
    } else if d == 13 {
        'd'
    } else if d == 14 {
        'e'
    } else {
        'f'
    }
}

/// The JSON escape of one character, as serde_json writes it: quote and
/// backslash are escaped, control characters below 0x20 get their short
/// or `\u00XX` form, and every other character stands as itself.
pub open spec fn json_escape_char(c: char) -> Seq<char> {
    if c == '"' {
        seq!['\\', '"']
    } else if c == '\\' {
        seq!['\\', '\\']
    } else if c == '\u{8}' {
        seq!['\\', 'b']
    } else if c == '\u{c}' {
        seq!['\\', 'f']
    } else if c == '\n' {
        seq!['\\', 'n']
    } else if c == '\r' {
        seq!['\\', 'r']
    } else if c == '\t' {
        seq!['\\', 't']
    } else if (c as u32) < 0x20 {
        seq!['\\', 'u', '0', '0', hex_char(c as u32 as int / 16), hex_char(c as u32 as int % 16)]
    } else {
        seq![c]
    }
}

/// The JSON escape of a string: each character's escape, in order.
pub open spec fn json_escaped(s: Seq<char>) -> Seq<char>
    decreases s.len(),
{
    if s.len() == 0 {
        Seq::empty()
    } else {
        json_escape_char(s[0]) + json_escaped(s.subrange(1, s.len() as int))
    }
}

/// Escaping a string one character longer appends that character's escape.
pub proof fn lemma_json_escaped_snoc(s: Seq<char>, c: char)
    ensures
        json_escaped(s.push(c)) == json_escaped(s) + json_escape_char(c),
    decreases s.len(),
{
    if s.len() == 0 {
        let sp = s.push(c);
        assert(sp[0] == c);
        assert(sp.subrange(1, sp.len() as int) =~= Seq::<char>::empty());
        assert(json_escaped(Seq::<char>::empty()) == Seq::<char>::empty());
        assert(json_escaped(sp) == json_escape_char(c) + json_escaped(Seq::<char>::empty()));
        assert(json_escaped(s.push(c)) =~= json_escaped(s) + json_escape_char(c));
    } else {
        let t = s.subrange(1, s.len() as int);
        lemma_json_escaped_snoc(t, c);
        assert(s.push(c).subrange(1, s.push(c).len() as int) =~= t.push(c));
        assert(s.push(c)[0] == s[0]);
        assert(json_escaped(s.push(c)) =~= json_escaped(s) + json_escape_char(c));
    }
}

fn hex_to_char(d: u32) -> (c: char)
    requires
        d <= 15,
    ensures
        c == hex_char(d as int),
{
    if d == 10 {
        'a'
    } else if d == 11 {
        'b'
    } else if d == 12 {
        'c'
    } else if d == 13 {
        'd'
    } else if d == 14 {
        'e'
    } else if d == 15 {
        'f'
    } else {
        crate::text::digit_to_char(d)
    }
}

/// Appends the JSON escape of `s` to `out`.
fn push_json_escaped(out: &mut String, s: &str)
    ensures
        final(out)@ == old(out)@ + json_escaped(s@),
{
    let n = s.unicode_len();
    let mut i: usize = 0;
    while i < n
        invariant
            i <= n,
            n == s@.len(),
            out@ == old(out)@ + json_escaped(s@.subrange(0, i as int)),
        decreases n - i,
    {
        let c = s.get_char(i);
        let u = c as u32;
        if c == '"' {
            push_char(out, '\\');
            push_char(out, '"');
        } else if c == '\\' {
            push_char(out, '\\');
            push_char(out, '\\');
        } else if u == 0x8 {
            push_char(out, '\\');
            push_char(out, 'b');
        } else if u == 0xc {
            push_char(out, '\\');
            push_char(out, 'f');
        } else if c == '\n' {
            push_char(out, '\\');
            push_char(out, 'n');
        } else if c == '\r' {
            push_char(out, '\\');
            push_char(out, 'r');
        } else if c == '\t' {
            push_char(out, '\\');
            push_char(out, 't');
        } else if u < 0x20 {
            push_char(out, '\\');
            push_char(out, 'u');
            push_char(out, '0');
            push_char(out, '0');
            push_char(out, hex_to_char(u / 16));
            push_char(out, hex_to_char(u % 16));
        } else {
            push_char(out, c);
        }
        proof {
            lemma_json_escaped_snoc(s@.subrange(0, i as int), s@[i as int]);
            assert(s@.subrange(0, i as int + 1) =~= s@.subrange(0, i as int).push(s@[i as int]));
            assert(out@ =~= old(out)@ + json_escaped(s@.subrange(0, i as int + 1)));
        }
        i = i + 1;
    }
    proof {
        assert(s@.subrange(0, n as int) =~= s@);
    }
}

/// The JSON body of a login request, as serde_json serializes
/// `LoginJson`: `{"username":"…","password":"…"}` with both values
/// escaped.
pub open spec fn json_login_body(username: Seq<char>, password: Seq<char>) -> Seq<char> {
    "{\"username\":\""@ + json_escaped(username) + "\",\"password\":\""@ + json_escaped(password)
        + "\"}"@
}

/// Builds the JSON request body for the login endpoints.
pub fn login_request_body(j: &LoginJson) -> (r: String)
    ensures
        r@ == json_login_body(j.username@, j.password@),
{
    let mut out = String::from_str("{\"username\":\"");
    push_json_escaped(&mut out, j.username.as_str());
    out.append("\",\"password\":\"");
    push_json_escaped(&mut out, j.password.as_str());
    out.append("\"}");
    proof {
        assert(out@ =~= json_login_body(j.username@, j.password@));
    }
    out
}

} // verus!
