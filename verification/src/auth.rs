//! Carrying a token over HTTP: the `Authorization: Bearer` header and the split
//! claims/signature cookie pair.
use vstd::prelude::*;

use crate::jwt::{jwt_error_inner, jwt_error_message, JwtError, FINGERPRINT_COOKIE};
use crate::text::{
    ascii_string, ascii_text, chars_of, find_last, last_index_of, lemma_last_index_of,
    split_at_last,
};

verus! {

/// Why no token could be taken from a request.
#[derive(Debug)]
pub enum AuthError {
    MissingAuthHeader,
    InvalidHeaderLength,
    InvalidHeaderEncoding,
    InvalidAuthScheme,
    MissingAuthPayload,
    Decode(JwtError),
    Message(&'static str),
}

impl AuthError {
    /// The message the error is reported with; a decoding error shows the token
    /// error's message after `decode: `.
    pub fn message(&self) -> (res: String)
        ensures
            match *self {
                AuthError::MissingAuthHeader => res@ == "missing authorization header"@,
                AuthError::InvalidHeaderLength => res@ == "invalid authorization header length"@,
                AuthError::InvalidHeaderEncoding => res@ == "invalid authorization header encoding"@,
                AuthError::InvalidAuthScheme => res@ == "invalid authorization scheme"@,
                AuthError::MissingAuthPayload => res@ == "missing authorization payload"@,
                AuthError::Decode(e) => exists|inner: String|
                    jwt_error_inner(e, inner) && res@ == "decode: "@ + jwt_error_message(e, inner@),
                AuthError::Message(m) => res@ == m@,
            },
    {
        match self {
            AuthError::MissingAuthHeader => "missing authorization header".to_owned(),
            AuthError::InvalidHeaderLength => "invalid authorization header length".to_owned(),
            AuthError::InvalidHeaderEncoding => "invalid authorization header encoding".to_owned(),
            AuthError::InvalidAuthScheme => "invalid authorization scheme".to_owned(),
            AuthError::MissingAuthPayload => "missing authorization payload".to_owned(),
            AuthError::Decode(e) => {
                let m = e.message();
                let res = "decode: ".to_owned().concat(m.as_str());
                proof {
                    let inner = choose|inner: String| jwt_error_inner(*e, inner) && m@ == jwt_error_message(*e, inner@);
                    assert(jwt_error_inner(*e, inner));
                    assert(res@ =~= "decode: "@ + jwt_error_message(*e, inner@));
                }
                res
            },
            AuthError::Message(m) => (*m).to_owned(),
        }
    }
}

/// A byte that an HTTP header value may hold to be read as text: visible ASCII or a tab.
pub open spec fn is_visible_ascii(b: u8) -> bool {
    (32 <= b && b < 127) || b == 9
}

/// Index of the first `b` in `s`, or -1.
pub open spec fn first_index_of(s: Seq<u8>, b: u8) -> int
    decreases s.len(),
{
    if s.len() == 0 {
        -1
    } else if s[0] == b {
        0
    } else {
        let i = first_index_of(s.drop_first(), b);
        if i < 0 {
            -1
        } else {
            i + 1
        }
    }
}

/// The bytes of the word `Bearer`.
pub open spec fn bearer_word() -> Seq<u8> {
    seq![66u8, 101u8, 97u8, 114u8, 101u8, 114u8]
}

/// The scheme of a header value: what precedes the first space (all of it when there
/// is none).
pub open spec fn header_scheme(h: Seq<u8>) -> Seq<u8> {
    let i = first_index_of(h, 32);
    if i < 0 {
        h
    } else {
        h.take(i)
    }
}

proof fn lemma_first_index_of(s: Seq<u8>, b: u8)
    ensures
        -1 <= first_index_of(s, b) < s.len(),
        first_index_of(s, b) >= 0 ==> s[first_index_of(s, b)] == b,
        forall|j: int|
            0 <= j < s.len() && (first_index_of(s, b) < 0 || j < first_index_of(s, b)) ==> s[j]
                != b,
    decreases s.len(),
{
    if s.len() > 0 && s[0] != b {
        lemma_first_index_of(s.drop_first(), b);
        assert forall|j: int|
            0 <= j < s.len() && (first_index_of(s, b) < 0 || j < first_index_of(s, b)) implies s[j]
                != b by {
            if j > 0 {
                assert(s[j] == s.drop_first()[j - 1]);
            }
        }
    }
}

proof fn lemma_first_index_of_unique(s: Seq<u8>, b: u8, i: int)
    requires
        0 <= i < s.len(),
        s[i] == b,
        forall|j: int| 0 <= j < i ==> s[j] != b,
    ensures
        first_index_of(s, b) == i,
    decreases s.len(),
{
    if i > 0 {
        assert forall|j: int| 0 <= j < i - 1 implies s.drop_first()[j] != b by {
            assert(s.drop_first()[j] == s[j + 1]);
        }
        lemma_first_index_of_unique(s.drop_first(), b, i - 1);
    }
}

proof fn lemma_first_index_of_none(s: Seq<u8>, b: u8)
    requires
        forall|j: int| 0 <= j < s.len() ==> s[j] != b,
    ensures
        first_index_of(s, b) == -1,
    decreases s.len(),
{
    if s.len() > 0 {
        assert forall|j: int| 0 <= j < s.len() - 1 implies s.drop_first()[j] != b by {
            assert(s.drop_first()[j] == s[j + 1]);
        }
        lemma_first_index_of_none(s.drop_first(), b);
    }
}

/// The bytes a header value is read as text with are exactly the visible ASCII bytes,
/// 0x20 (space) to 0x7E (`~`), and the tab: `_` and `-` among them, control bytes and
/// DEL and every byte from 0x80 up not.
pub proof fn law_visible_ascii_bytes(b: u8)
    ensures
        is_visible_ascii(b) <==> (b == 9 || 0x20 <= b <= 0x7e),
        is_visible_ascii(0x5f) && is_visible_ascii(0x2d) && is_visible_ascii(0x2e),
        !is_visible_ascii(0x7f) && !is_visible_ascii(0x0a) && !is_visible_ascii(0x80),
{
}

/// The bytes of `Bearer ` (the word and the space after it).
pub open spec fn bearer_prefix() -> Seq<u8> {
    seq![66u8, 101u8, 97u8, 114u8, 101u8, 114u8, 32u8]
}

/// A header value of at least 8 bytes that starts with `Bearer ` and whose bytes are
/// all visible ASCII (0x20 to 0x7E) or tabs, such as a JSON web token with its `_` and
/// `-` characters, is read as text, has the scheme `Bearer`, and its token starts right
/// after that first space.
pub proof fn law_bearer_header_accepted(h: Seq<u8>)
    requires
        h.len() >= 8,
        h.take(7) == bearer_prefix(),
        forall|i: int| 0 <= i < h.len() ==> (0x20 <= #[trigger] h[i] <= 0x7e || h[i] == 9),
    ensures
        forall|i: int| 0 <= i < h.len() ==> is_visible_ascii(#[trigger] h[i]),
        header_scheme(h) == bearer_word(),
        first_index_of(h, 32) == 6,
{
    assert(h[0] == h.take(7)[0]);
    assert(h[1] == h.take(7)[1]);
    assert(h[2] == h.take(7)[2]);
    assert(h[3] == h.take(7)[3]);
    assert(h[4] == h.take(7)[4]);
    assert(h[5] == h.take(7)[5]);
    assert(h[6] == h.take(7)[6]);
    lemma_first_index_of_unique(h, 32, 6);
    assert(h.take(6) =~= bearer_word());
}

/// Reads the token of an `Authorization` header value `header` (`None` when the request
/// has no such header): the value must be at least 8 bytes of visible ASCII, its first
/// space-separated word must be `Bearer`, and the token is everything after that space.
#[verifier::loop_isolation(false)]
pub fn from_bearer(header: Option<&[u8]>) -> (res: Result<String, AuthError>)
    ensures
        header is None ==> res matches Err(AuthError::MissingAuthHeader),
        header matches Some(h) && h@.len() < 8 ==> res matches Err(AuthError::InvalidHeaderLength),
        header matches Some(h) && h@.len() >= 8 && !(forall|i: int|
            0 <= i < h@.len() ==> is_visible_ascii(#[trigger] h@[i])) ==> res matches Err(
            AuthError::InvalidHeaderEncoding,
        ),
        header matches Some(h) && h@.len() >= 8 && (forall|i: int|
            0 <= i < h@.len() ==> is_visible_ascii(#[trigger] h@[i])) && header_scheme(h@)
            != bearer_word() ==> res matches Err(AuthError::InvalidAuthScheme),
        header matches Some(h) && h@.len() >= 8 && (forall|i: int|
            0 <= i < h@.len() ==> is_visible_ascii(#[trigger] h@[i])) && header_scheme(h@)
            == bearer_word() && first_index_of(h@, 32) < 0 ==> res matches Err(
            AuthError::MissingAuthPayload,
        ),
        res matches Ok(token) ==> header matches Some(h) && h@.len() >= 8 && (forall|i: int|
            0 <= i < h@.len() ==> is_visible_ascii(#[trigger] h@[i])) && header_scheme(h@)
            == bearer_word() && first_index_of(h@, 32) >= 0 && token@ == ascii_text(
            h@.skip(first_index_of(h@, 32) + 1),
        ),
        header matches Some(h) && h@.len() >= 8 && (forall|i: int|
            0 <= i < h@.len() ==> is_visible_ascii(#[trigger] h@[i])) && header_scheme(h@)
            == bearer_word() && first_index_of(h@, 32) >= 0 ==> res is Ok,
        match header {
            Some(h) => h@.len() >= 8 && h@.take(7) == bearer_prefix() && (forall|i: int|
                0 <= i < h@.len() ==> (0x20 <= #[trigger] h@[i] <= 0x7e || h@[i] == 9)) ==> (res
                matches Ok(token) && token@ == ascii_text(h@.skip(7))),
            None => true,
        },
{
    proof {
        match header {
            Some(h) => {
                if h@.len() >= 8 && h@.take(7) == bearer_prefix() && (forall|i: int|
                    0 <= i < h@.len() ==> (0x20 <= #[trigger] h@[i] <= 0x7e || h@[i] == 9)) {
                    law_bearer_header_accepted(h@);
                }
            },
            None => {},
        }
    }
    let h = match header {
        Some(h) => h,
        None => return Err(AuthError::MissingAuthHeader),
    };
    let n = h.len();
    if n < 8 {
        return Err(AuthError::InvalidHeaderLength);
    }
    let mut i: usize = 0;
    while i < n
        invariant
            i <= n == h@.len(),
            forall|j: int| 0 <= j < i ==> is_visible_ascii(#[trigger] h@[j]),
        decreases n - i,
    {
        let b = h[i];
        if !((32 <= b && b < 127) || b == 9) {
            return Err(AuthError::InvalidHeaderEncoding);
        }
        i = i + 1;
    }
    let mut sp: usize = 0;
    while sp < n && h[sp] != 32
        invariant
            sp <= n == h@.len(),
            forall|j: int| 0 <= j < sp ==> h@[j] != 32,
        decreases n - sp,
    {
        sp = sp + 1;
    }
    proof {
        if sp < n {
            lemma_first_index_of_unique(h@, 32, sp as int);
            assert(header_scheme(h@) == h@.take(sp as int));
        } else {
            lemma_first_index_of_none(h@, 32);
            assert(header_scheme(h@) == h@);
        }
    }
    let is_bearer = sp == 6 && h[0] == 66 && h[1] == 101 && h[2] == 97 && h[3] == 114 && h[4]
        == 101 && h[5] == 114;
    if !is_bearer {
        proof {
            if header_scheme(h@) == bearer_word() {
                assert(header_scheme(h@).len() == 6);
                assert(h@[0] == bearer_word()[0]);
                assert(h@[1] == bearer_word()[1]);
                assert(h@[2] == bearer_word()[2]);
                assert(h@[3] == bearer_word()[3]);
                assert(h@[4] == bearer_word()[4]);
                assert(h@[5] == bearer_word()[5]);
            }
        }
        return Err(AuthError::InvalidAuthScheme);
    }
    proof {
        assert(h@.take(6) =~= bearer_word());
    }
    let mut payload: Vec<u8> = Vec::new();
    let mut k: usize = sp + 1;
    while k < n
        invariant
            sp + 1 <= k <= n == h@.len(),
            payload@ == h@.subrange(sp + 1, k as int),
            forall|j: int| 0 <= j < n ==> is_visible_ascii(#[trigger] h@[j]),
        decreases n - k,
    {
        payload.push(h[k]);
        k = k + 1;
        proof {
            assert(payload@ =~= h@.subrange(sp + 1, k as int));
        }
    }
    proof {
        assert(payload@ =~= h@.skip(sp + 1));
        assert forall|j: int| 0 <= j < payload@.len() implies #[trigger] payload@[j] < 128 by {
            assert(payload@[j] == h@[sp + 1 + j]);
            assert(is_visible_ascii(h@[sp + 1 + j]));
        }
    }
    Ok(ascii_string(payload))
}

/// The two cookie values a token is stored in: the token up to its last dot (header
/// and claims) and the signature after it; `None` when the token has no dot.
pub fn cookie_parts_of(jwt: &str) -> (res: Option<(String, String)>)
    ensures
        match split_at_last(jwt@, '.') {
            None => res is None,
            Some((token, sig)) => res matches Some(p) && p.0@ == token && p.1@ == sig,
        },
{
    let chars = chars_of(jwt);
    let n = chars.len();
    proof {
        assert(chars@.take(n as int) =~= jwt@);
        lemma_last_index_of(jwt@, '.');
    }
    match find_last(&chars, '.', n) {
        None => None,
        Some(i) => {
            let token = jwt.substring_char(0, i);
            let sig = jwt.substring_char(i + 1, n);
            proof {
                assert(jwt@.take(i as int) =~= jwt@.subrange(0, i as int));
                assert(jwt@.skip(i + 1) =~= jwt@.subrange(i + 1, n as int));
            }
            Some((token.to_owned(), sig.to_owned()))
        },
    }
}

/// The token stored in the claims cookie `token` and the signature cookie `sig`:
/// `token.sig`, or an error when either cookie is missing.
pub fn jwt_from_cookie_parts(token: Option<&str>, sig: Option<&str>) -> (res: Result<String, AuthError>)
    ensures
        match (token, sig) {
            (Some(t), Some(s)) => res matches Ok(j) && j@ == t@ + "."@ + s@,
            _ => res matches Err(e) && e == AuthError::Message(
                "unable to create jwt from split cookies",
            ),
        },
{
    match (token, sig) {
        (Some(t), Some(s)) => {
            let j = t.to_owned().concat(".").concat(s);
            Ok(j)
        },
        _ => Err(AuthError::Message("unable to create jwt from split cookies")),
    }
}

/// Splitting a token into its cookie values and joining them again gives the token back.
pub proof fn law_cookie_parts_rejoin(jwt: Seq<char>)
    requires
        split_at_last(jwt, '.') is Some,
    ensures
        ({
            let (token, sig) = split_at_last(jwt, '.')->0;
            token + "."@ + sig == jwt
        }),
{
    reveal_strlit(".");
    lemma_last_index_of(jwt, '.');
    let i = last_index_of(jwt, '.');
    let (token, sig) = split_at_last(jwt, '.')->0;
    assert(token + "."@ + sig =~= jwt);
}

/// Joining a token part and a signature without a dot, then splitting, gives the two back.
pub proof fn law_cookie_parts_split_joined(token: Seq<char>, sig: Seq<char>)
    requires
        forall|i: int| 0 <= i < sig.len() ==> sig[i] != '.',
    ensures
        split_at_last(token + "."@ + sig, '.') == Some((token, sig)),
{
    reveal_strlit(".");
    let j = token + "."@ + sig;
    crate::text::lemma_last_index_of_unique(j, '.', token.len() as int);
    assert(j.take(token.len() as int) =~= token);
    assert(j.skip(token.len() as int + 1) =~= sig);
}

/// Whether the time crate represents the Unix timestamp (in seconds) as a date: from
/// midnight on 1 January of year -9999 to the last second of year 9999, the range it
/// has without its `large-dates` feature.
pub open spec fn unix_timestamp_accepted(timestamp: i64) -> bool {
    -377705116800 <= timestamp <= 253402300799
}

/// `time::OffsetDateTime::from_unix_timestamp`, asked whether it succeeds. It refuses
/// the timestamps outside the Unix timestamps of `Date::MIN` at midnight and `Date::MAX`
/// at its last second, which (no crate of this build turning on `large-dates`) are
/// 1 January -9999 and 31 December 9999.
#[verifier::external_body]
fn timestamp_is_date(timestamp: i64) -> (res: bool)
    ensures
        res == unix_timestamp_accepted(timestamp),
{
    time::OffsetDateTime::from_unix_timestamp(timestamp).is_ok()
}

/// The attributes of a cookie to be set on a response.
#[derive(Debug)]
pub struct CookieSpec {
    pub name: String,
    pub value: String,
    pub domain: String,
    pub path: String,
    pub secure: bool,
    pub http_only: bool,
    /// When the cookie expires, in Unix seconds (a date the time crate represents).
    pub expires: i64,
}

/// Whether `c` is the cookie `name=value` for every path of `domain`, with the given
/// flags.
pub open spec fn cookie_is(
    c: CookieSpec,
    name: Seq<char>,
    value: Seq<char>,
    domain: Seq<char>,
    secure: bool,
    http_only: bool,
) -> bool {
    &&& c.name@ == name
    &&& c.value@ == value
    &&& c.domain@ == domain
    &&& c.path@ == "/"@
    &&& c.secure == secure
    &&& c.http_only == http_only
}

/// The two cookies a token is stored in for `fqdn`, both expiring at `expiry` (Unix
/// seconds): the claims cookie `cookie_parts.0`, readable by scripts, holds the token up
/// to its last dot; the signature cookie `cookie_parts.1` holds the rest and is secure
/// and HTTP-only unless `debug`. `None` when the token has no dot or the expiry is not
/// a date.
pub fn to_cookie_parts(
    cookie_parts: (&str, &str),
    jwt: String,
    expiry: i64,
    fqdn: &str,
    debug: bool,
) -> (res: Option<(CookieSpec, CookieSpec)>)
    ensures
        res is Some <==> (split_at_last(jwt@, '.') is Some && unix_timestamp_accepted(expiry)),
        res matches Some(p) ==> {
            let (token, sig) = split_at_last(jwt@, '.')->0;
            &&& cookie_is(p.0, cookie_parts.0@, token, fqdn@, false, false)
            &&& cookie_is(p.1, cookie_parts.1@, sig, fqdn@, !debug, !debug)
            &&& p.0.expires == expiry
            &&& p.1.expires == expiry
        },
{
    let (token_part, sig_part) = match cookie_parts_of(jwt.as_str()) {
        Some(p) => p,
        None => return None,
    };
    if !timestamp_is_date(expiry) {
        return None;
    }
    let expires = expiry;
    let (claim_part_key, sig_part_key) = cookie_parts;
    let claim_part = CookieSpec {
        name: claim_part_key.to_owned(),
        value: token_part,
        domain: fqdn.to_owned(),
        path: "/".to_owned(),
        secure: false,
        http_only: false,
        expires,
    };
    let sig_part = CookieSpec {
        name: sig_part_key.to_owned(),
        value: sig_part,
        domain: fqdn.to_owned(),
        path: "/".to_owned(),
        secure: !debug,
        http_only: !debug,
        expires,
    };
    Some((claim_part, sig_part))
}

/// The secure, HTTP-only cookie that carries a token's encoded fingerprint for `fqdn`,
/// expiring at `expiry` (Unix seconds); an error when the expiry is not a date.
pub fn fingerprint_cookie(fqdn: &str, encoded_fingerprint: String, expiry: i64) -> (res: Result<
    CookieSpec,
    AuthError,
>)
    ensures
        res is Ok <==> unix_timestamp_accepted(expiry),
        res matches Ok(c) ==> cookie_is(
            c,
            FINGERPRINT_COOKIE@,
            encoded_fingerprint@,
            fqdn@,
            true,
            true,
        ),
        res matches Ok(c) ==> c.expires == expiry,
        res matches Err(e) ==> e == AuthError::Message("invalid expiry i64 value"),
{
    if !timestamp_is_date(expiry) {
        return Err(AuthError::Message("invalid expiry i64 value"));
    }
    let expires = expiry;
    Ok(
        CookieSpec {
            name: FINGERPRINT_COOKIE.to_owned(),
            value: encoded_fingerprint,
            domain: fqdn.to_owned(),
            path: "/".to_owned(),
            secure: true,
            http_only: true,
            expires,
        },
    )
}

} // verus!
