//! Credential gating: parsing the `Authorization` header through base64,
//! the username policy, construction of the secret lookup key, and the
//! exact-equality password check.
use vstd::prelude::*;

use crate::text::{ascii_string, chars_of_bytes, opt_str_view, str_eq, string_from_utf8};
use vstd::utf8::{decode_utf8, valid_utf8};

verus! {

broadcast use vstd::string::group_string_axioms;

/// What base64's standard-alphabet padded decoding yields; a function of
/// the input characters alone.
pub uninterp spec fn b64_decoded(s: Seq<char>) -> Option<Seq<u8>>;

/// Relies on the base64 crate's `STANDARD` engine `decode`: the result is
/// determined by the input alone, and malformed input is an error.
#[verifier::external_body]
fn base64_decode(s: &str) -> (r: Option<Vec<u8>>)
    ensures
        r is Some <==> b64_decoded(s@) is Some,
        r matches Some(v) ==> b64_decoded(s@) == Some(v@),
{
    base64::Engine::decode(&base64::engine::general_purpose::STANDARD, s.as_bytes()).ok()
}

/// The position of the first `:`, or the length when there is none.
pub open spec fn first_colon(s: Seq<char>) -> int
    decreases s.len(),
{
    if s.len() == 0 {
        0
    } else if s[0] == ':' {
        0
    } else {
        1 + first_colon(s.drop_first())
    }
}

proof fn lemma_first_colon_at(s: Seq<char>, i: int)
    requires
        0 <= i <= s.len(),
        forall|k: int| 0 <= k < i ==> s[k] != ':',
        i == s.len() || s[i] == ':',
    ensures
        first_colon(s) == i,
    decreases i,
{
    if i == 0 {
    } else {
        let t = s.drop_first();
        lemma_first_colon_at(t, i - 1);
    }
}

/// The credentials split at the first `:`: everything before it is the
/// username, everything after it the password. No `:` at all is a
/// malformed payload.
pub open spec fn spec_split_colon(s: Seq<char>) -> Option<(Seq<char>, Seq<char>)> {
    let i = first_colon(s);
    if i < s.len() {
        Some((s.take(i), s.skip(i + 1)))
    } else {
        None
    }
}

/// The credentials carried by an `Authorization` header value: the `Basic `
/// scheme prefix, then base64 of UTF-8 `username:password`.
pub open spec fn spec_credentials(h: Seq<char>) -> Option<(Seq<char>, Seq<char>)> {
    if h.len() < 6 || h.subrange(0, 6) != "Basic "@ {
        None
    } else {
        match b64_decoded(h.skip(6)) {
            Some(bytes) => if valid_utf8(bytes) {
                spec_split_colon(decode_utf8(bytes))
            } else {
                None
            },
            None => None,
        }
    }
}

/// Splits an `Authorization` header value into username and password.
/// Fails on a missing scheme prefix, malformed base64, payload that is not
/// UTF-8, or a payload without a `:`.
pub fn parse_auth_header(auth: &str) -> (r: Option<(String, String)>)
    ensures
        r is None ==> spec_credentials(auth@) is None,
        r matches Some((u, p)) ==> spec_credentials(auth@) == Some((u@, p@)),
{
    let n = auth.unicode_len();
    proof {
        reveal_strlit("Basic ");
    }
    if n < 6 {
        return None;
    }
    if auth.get_char(0) != 'B' || auth.get_char(1) != 'a' || auth.get_char(2) != 's'
        || auth.get_char(3) != 'i' || auth.get_char(4) != 'c' || auth.get_char(5) != ' ' {
        proof {
            let pre = auth@.subrange(0, 6);
            assert(pre[0] == auth@[0] && pre[1] == auth@[1] && pre[2] == auth@[2] && pre[3]
                == auth@[3] && pre[4] == auth@[4] && pre[5] == auth@[5]);
            assert(pre != "Basic "@);
        }
        return None;
    }
    proof {
        assert(auth@.subrange(0, 6) =~= "Basic "@);
    }
    let payload = auth.substring_char(6, n);
    proof {
        assert(payload@ =~= auth@.skip(6));
    }
    let bytes = match base64_decode(payload) {
        Some(b) => b,
        None => {
            return None;
        },
    };
    let creds = match string_from_utf8(bytes) {
        Some(s) => s,
        None => {
            return None;
        },
    };
    let cs = creds.as_str();
    let cl = cs.unicode_len();
    let mut i: usize = 0;
    while i < cl && cs.get_char(i) != ':'
        invariant
            0 <= i <= cl,
            cl == cs@.len(),
            forall|k: int| 0 <= k < i ==> cs@[k] != ':',
        decreases cl - i,
    {
        i = i + 1;
    }
    proof {
        lemma_first_colon_at(cs@, i as int);
    }
    if i == cl {
        return None;
    }
    let user = cs.substring_char(0, i);
    let pass = cs.substring_char(i + 1, cl);
    proof {
        assert(user@ =~= cs@.take(i as int));
        assert(pass@ =~= cs@.skip(i + 1));
    }
    Some((String::from_str(user), String::from_str(pass)))
}

/// True for ASCII letters and digits, the only characters a username may
/// hold; this keeps the secret lookup key free of injected punctuation.
pub open spec fn is_ascii_alnum(c: char) -> bool {
    ('0' <= c && c <= '9') || ('a' <= c && c <= 'z') || ('A' <= c && c <= 'Z')
}

/// True when every character of the username is an ASCII letter or digit.
pub open spec fn spec_username_ok(u: Seq<char>) -> bool {
    forall|i: int| 0 <= i < u.len() ==> is_ascii_alnum(#[trigger] u[i])
}

pub fn username_ok(u: &str) -> (r: bool)
    ensures
        r == spec_username_ok(u@),
{
    let n = u.unicode_len();
    let mut i: usize = 0;
    while i < n
        invariant
            0 <= i <= n,
            n == u@.len(),
            forall|k: int| 0 <= k < i ==> is_ascii_alnum(#[trigger] u@[k]),
        decreases n - i,
    {
        let c = u.get_char(i);
        if !(('0' <= c && c <= '9') || ('a' <= c && c <= 'z') || ('A' <= c && c <= 'Z')) {
            return false;
        }
        i = i + 1;
    }
    true
}

/// An ASCII uppercase letter folded to lowercase; anything else unchanged.
pub open spec fn lower_char(c: char) -> char {
    if 'A' <= c && c <= 'Z' {
        ((c as u32) + 32) as char
    } else {
        c
    }
}

/// The sequence folded to ASCII lowercase.
pub open spec fn lower_chars(s: Seq<char>) -> Seq<char> {
    Seq::new(s.len(), |i: int| lower_char(s[i]))
}

/// The environment name the expected secret is looked up under: a fixed
/// prefix and the lowercased username.
pub open spec fn spec_auth_key(u: Seq<char>) -> Seq<char> {
    "BASIC_AUTH_USER_"@ + lower_chars(u)
}

/// Builds the secret lookup key for a policy-conforming username.
pub fn auth_lookup_key(username: &str) -> (r: String)
    requires
        spec_username_ok(username@),
    ensures
        r@ == spec_auth_key(username@),
{
    proof {
        reveal_strlit("BASIC_AUTH_USER_");
        assert forall|i: int|
            0 <= i < "BASIC_AUTH_USER_"@.len() implies '\0' <= #[trigger] "BASIC_AUTH_USER_"@[i]
            <= '\u{7f}' by {}
        assert(vstd::utf8::is_ascii_chars("BASIC_AUTH_USER_"@));
        vstd::utf8::is_ascii_chars_encode_utf8("BASIC_AUTH_USER_"@);
    }
    let mut bytes: Vec<u8> = "BASIC_AUTH_USER_".as_bytes_vec();
    let ghost prefix: Seq<char> = "BASIC_AUTH_USER_"@;
    let n = username.unicode_len();
    let mut i: usize = 0;
    while i < n
        invariant
            0 <= i <= n,
            n == username@.len(),
            spec_username_ok(username@),
            prefix == "BASIC_AUTH_USER_"@,
            prefix.len() == 16,
            vstd::utf8::is_ascii_chars(prefix),
            bytes@.len() == 16 + i,
            forall|k: int| 0 <= k < 16 ==> bytes@[k] == (prefix[k] as u8),
            forall|k: int| 0 <= k < i ==> bytes@[16 + k] == (lower_char(#[trigger] username@[k])
                as u8),
            crate::text::ascii_bytes(bytes@),
        decreases n - i,
    {
        let c = username.get_char(i);
        let b: u8 = if 'A' <= c && c <= 'Z' {
            ((c as u32) + 32) as u8
        } else {
            (c as u32) as u8
        };
        proof {
            assert(is_ascii_alnum(username@[i as int]));
            assert(b == (lower_char(username@[i as int]) as u8));
            assert(b < 0x80);
        }
        bytes.push(b);
        i = i + 1;
    }
    let r = ascii_string(bytes);
    proof {
        let key = spec_auth_key(username@);
        assert forall|k: int| 0 <= k < r@.len() implies r@[k] == key[k] by {
            if k < 16 {
                assert('\0' <= prefix[k] <= '\u{7f}');
                assert(r@[k] == (prefix[k] as u8) as char);
            } else {
                let c = username@[k - 16];
                assert(is_ascii_alnum(c));
                assert(r@[k] == (lower_char(c) as u8) as char);
                assert(key[k] == lower_char(c));
            }
        }
        assert(r@ =~= key);
    }
    r
}

/// The outcome of inspecting the `Authorization` header, before the
/// expected secret is known: either rejection, or the supplied credentials
/// with the key the secret must be looked up under.
pub enum AuthAttempt {
    Invalid,
    Credentials { username: String, password: String, lookup_key: String },
}

/// The credentials a request supplies, kept only when the username meets
/// the policy.
pub open spec fn spec_auth_credentials(h: Option<Seq<char>>) -> Option<(Seq<char>, Seq<char>)> {
    match h {
        Some(s) => match spec_credentials(s) {
            Some((u, p)) => if spec_username_ok(u) {
                Some((u, p))
            } else {
                None
            },
            None => None,
        },
        None => None,
    }
}

/// First authentication stage: reads the header, enforces the username
/// policy, and names the key the expected secret is to be fetched under.
pub fn auth_attempt(header: &Option<String>) -> (r: AuthAttempt)
    ensures
        r is Invalid <==> spec_auth_credentials(opt_str_view(*header)) is None,
        r matches AuthAttempt::Credentials { username, password, lookup_key } ==> ({
            &&& spec_auth_credentials(opt_str_view(*header)) == Some((username@, password@))
            &&& lookup_key@ == spec_auth_key(username@)
        }),
{
    match header {
        None => AuthAttempt::Invalid,
        Some(h) => match parse_auth_header(h.as_str()) {
            None => AuthAttempt::Invalid,
            Some((username, password)) => {
                if username_ok(username.as_str()) {
                    let lookup_key = auth_lookup_key(username.as_str());
                    AuthAttempt::Credentials { username, password, lookup_key }
                } else {
                    AuthAttempt::Invalid
                }
            },
        },
    }
}

/// True when a configured secret admits the supplied password: the secret
/// must exist, be non-empty, and equal the password exactly.
pub open spec fn spec_password_accepted(expected: Option<Seq<char>>, supplied: Seq<char>) -> bool {
    match expected {
        Some(e) => e.len() > 0 && e == supplied,
        None => false,
    }
}

/// Second authentication stage: compares the supplied password with the
/// secret fetched under the attempt's lookup key, returning the
/// authenticated username or nothing.
pub fn auth_verify(attempt: &AuthAttempt, expected: &Option<String>) -> (r: Option<String>)
    ensures
        r is Some <==> (attempt matches AuthAttempt::Credentials { password, .. }
            && spec_password_accepted(opt_str_view(*expected), password@)),
        r matches Some(u) ==> (attempt matches AuthAttempt::Credentials { username, .. }
            && u@ == username@),
{
    match attempt {
        AuthAttempt::Invalid => None,
        AuthAttempt::Credentials { username, password, .. } => match expected {
            Some(e) => {
                if e.as_str().unicode_len() > 0 && str_eq(e.as_str(), password.as_str()) {
                    Some(username.clone())
                } else {
                    None
                }
            },
            None => None,
        },
    }
}

/// The challenge header a rejected request must carry:
/// `WWW-Authenticate: Basic`.
pub fn auth_challenge_header() -> (r: (&'static str, &'static str))
    ensures
        r.0@ == "WWW-Authenticate"@,
        r.1@ == "Basic"@,
{
    ("WWW-Authenticate", "Basic")
}

/// The body of a rejected request: a fixed word, echoing nothing the
/// request submitted.
pub fn unauthorized_body() -> (r: &'static str)
    ensures
        r@ == "Unauthorized"@,
{
    "Unauthorized"
}

/// The authenticated identity a request ends with, over the header and the
/// secret configured for the username the header carries.
pub open spec fn spec_authorized(
    header: Option<Seq<char>>,
    expected: Option<Seq<char>>,
) -> Option<Seq<char>> {
    match spec_auth_credentials(header) {
        Some((u, p)) => if spec_password_accepted(expected, p) {
            Some(u)
        } else {
            None
        },
        None => None,
    }
}

/// Authentication law: a header carrying credentials `(u, p)` authenticates
/// exactly when the username is ASCII-alphanumeric and the configured
/// secret is exactly `p` and non-empty — so any change to the decoded
/// username or password, an unconfigured secret, or an empty secret is
/// rejected; and the identity produced is the supplied username.
pub proof fn lemma_authentication_exact(
    h: Seq<char>,
    expected: Option<Seq<char>>,
    u: Seq<char>,
    p: Seq<char>,
)
    requires
        spec_credentials(h) == Some((u, p)),
    ensures
        spec_authorized(Some(h), expected) is Some <==> (spec_username_ok(u) && expected == Some(p)
            && p.len() > 0),
        spec_authorized(Some(h), expected) is Some ==> spec_authorized(Some(h), expected) == Some(
            u,
        ),
{
    if spec_username_ok(u) && spec_password_accepted(expected, p) {
        assert(expected == Some(p));
    }
}

/// A request without parseable Basic credentials never authenticates,
/// whatever is configured.
pub proof fn lemma_no_credentials_no_identity(h: Option<Seq<char>>, expected: Option<Seq<char>>)
    requires
        h matches Some(s) ==> spec_credentials(s) is None,
    ensures
        spec_authorized(h, expected) is None,
{
}

} // verus!
