//! Signed bearer tokens in the JWT compact form `header.claims.signature`.
//!
//! The header is the URL-safe base64 text of `{"alg":"HS256"}`, the claims
//! part that of `{"id":"<uuid>"}`, and the signature the HMAC-SHA-256 of
//! `header.claims` under the server's secret, again in URL-safe base64.
use vstd::prelude::*;
use vstd::string::*;
use vstd::arithmetic::power::pow;
use hmac::{Hmac, Mac};
use jwt::{SigningAlgorithm, VerifyingAlgorithm};
use sha2::Sha256;

use crate::models::{AuthError, TokenClaims};

verus! {

/// A character of the URL-safe base64 alphabet.
pub open spec fn is_b64url_char(c: char) -> bool {
    ('A' <= c && c <= 'Z') || ('a' <= c && c <= 'z') || ('0' <= c && c <= '9') || c == '-'
        || c == '_'
}

pub open spec fn is_b64url_text(s: Seq<char>) -> bool {
    forall|i: int| 0 <= i < s.len() ==> is_b64url_char(#[trigger] s[i])
}

pub open spec fn lower_hex_digit(n: int) -> char {
    seq!['0', '1', '2', '3', '4', '5', '6', '7', '8', '9', 'a', 'b', 'c', 'd', 'e', 'f'][n]
}

/// Which of the 32 hex digits of a UUID stands at position `i` of its
/// hyphenated text.
pub open spec fn uuid_digit_index(i: int) -> int {
    if i < 8 {
        i
    } else if i < 13 {
        i - 1
    } else if i < 18 {
        i - 2
    } else if i < 23 {
        i - 3
    } else {
        i - 4
    }
}

/// The hyphenated lower-case text of the UUID whose 128-bit value is `id`,
/// most significant digit first: `xxxxxxxx-xxxx-xxxx-xxxx-xxxxxxxxxxxx`.
pub open spec fn uuid_text(id: u128) -> Seq<char> {
    Seq::new(
        36,
        |i: int|
            if i == 8 || i == 13 || i == 18 || i == 23 {
                '-'
            } else {
                lower_hex_digit((id as int / pow(16, (31 - uuid_digit_index(i)) as nat)) % 16)
            },
    )
}

/// URL-safe base64 text, without padding, of the UTF-8 bytes of `text`.
pub uninterp spec fn b64url_of(text: Seq<char>) -> Seq<char>;

/// The text whose UTF-8 bytes the URL-safe base64 text `text` encodes, if any.
pub uninterp spec fn b64url_decoded(text: Seq<char>) -> Option<Seq<char>>;

/// The HMAC-SHA-256 signature of `header.claims` under `secret`, as URL-safe
/// base64 text without padding.
pub uninterp spec fn hs256_of(secret: Seq<u8>, header: Seq<char>, claims: Seq<char>) -> Seq<char>;

/// Whether `signature` is accepted as the HMAC-SHA-256 signature of
/// `header.claims` under `secret`.
pub uninterp spec fn hs256_accepts(
    secret: Seq<u8>,
    header: Seq<char>,
    claims: Seq<char>,
    signature: Seq<char>,
) -> bool;

/// The UUID that the text `text` denotes, if it denotes one.
pub uninterp spec fn uuid_parsed(text: Seq<char>) -> Option<u128>;

/// Relies on base64::encode_config with URL_SAFE_NO_PAD: it writes the bytes
/// of `text` in the URL-safe alphabet and adds no padding.
#[verifier::external_body]
fn b64url_encode(text: &str) -> (r: String)
    ensures
        r@ == b64url_of(text@),
        is_b64url_text(r@),
{
    base64::encode_config(text, base64::URL_SAFE_NO_PAD)
}

/// Relies on base64::decode_config with URL_SAFE_NO_PAD, whose result is read
/// as UTF-8 by String::from_utf8; the encoding of a text decodes to it.
#[verifier::external_body]
fn b64url_decode(text: &str) -> (r: Option<String>)
    ensures
        match r {
            Some(s) => b64url_decoded(text@) == Some(s@),
            None => b64url_decoded(text@) is None,
        },
        forall|t: Seq<char>| #[trigger] b64url_of(t) == text@ ==> r is Some && r->0@ == t,
{
    match base64::decode_config(text, base64::URL_SAFE_NO_PAD) {
        Ok(bytes) => String::from_utf8(bytes).ok(),
        Err(_) => None,
    }
}

/// Relies on hmac's Hmac::<Sha256>::new_from_slice, which takes a key of any
/// length, and on jwt's SigningAlgorithm::sign for that key, which always
/// returns the URL-safe base64 text of the MAC of `header.claims`.
#[verifier::external_body]
fn hs256_sign(secret: &[u8], header: &str, claims: &str) -> (r: Option<String>)
    ensures
        r is Some,
        r is Some ==> r->0@ == hs256_of(secret@, header@, claims@) && is_b64url_text(r->0@),
{
    match Hmac::<Sha256>::new_from_slice(secret) {
        Ok(key) => SigningAlgorithm::sign(&key, header, claims).ok(),
        Err(_) => None,
    }
}

/// Relies on hmac's Hmac::<Sha256>::new_from_slice and on jwt's
/// VerifyingAlgorithm::verify for that key: it decodes `signature` and
/// compares it with the MAC of `header.claims`. An error counts as a
/// rejection.
#[verifier::external_body]
fn hs256_verify(secret: &[u8], header: &str, claims: &str, signature: &str) -> (r: bool)
    ensures
        r == hs256_accepts(secret@, header@, claims@, signature@),
        signature@ == hs256_of(secret@, header@, claims@) ==> r,
{
    match Hmac::<Sha256>::new_from_slice(secret) {
        Ok(key) => VerifyingAlgorithm::verify(&key, header, claims, signature).unwrap_or(false),
        Err(_) => false,
    }
}

/// Relies on uuid's Uuid::from_u128 and its hyphenated lower-case text form.
#[verifier::external_body]
pub(crate) fn uuid_to_text(id: u128) -> (r: String)
    ensures
        r@ == uuid_text(id),
{
    uuid::Uuid::from_u128(id).hyphenated().to_string()
}

/// Relies on uuid's Uuid::parse_str, which reads the hyphenated text of every
/// UUID back to that UUID.
#[verifier::external_body]
fn uuid_from_text(text: &str) -> (r: Option<u128>)
    ensures
        r == uuid_parsed(text@),
        forall|id: u128| #[trigger] uuid_text(id) == text@ ==> r == Some(id),
{
    uuid::Uuid::parse_str(text).ok().map(|u| u.as_u128())
}

pub open spec fn header_text() -> Seq<char> {
    seq!['{', '"', 'a', 'l', 'g', '"', ':', '"', 'H', 'S', '2', '5', '6', '"', '}']
}

pub open spec fn claims_prefix() -> Seq<char> {
    seq!['{', '"', 'i', 'd', '"', ':', '"']
}

pub open spec fn claims_suffix() -> Seq<char> {
    seq!['"', '}']
}

/// The JSON text of the claims `{"id":"<uuid>"}`.
pub open spec fn claims_text(id: u128) -> Seq<char> {
    claims_prefix() + uuid_text(id) + claims_suffix()
}

/// The identifier that a claims text names, if it is one.
pub open spec fn claims_id(c: Seq<char>) -> Option<u128> {
    if c.len() == 45 && c.subrange(0, 7) == claims_prefix() && c.subrange(43, 45)
        == claims_suffix() {
        uuid_parsed(c.subrange(7, 43))
    } else {
        None
    }
}

/// The header, claims and signature parts of the token issued for `id`.
pub open spec fn issued_parts(secret: Seq<u8>, id: u128) -> (Seq<char>, Seq<char>, Seq<char>) {
    let h = b64url_of(header_text());
    let c = b64url_of(claims_text(id));
    (h, c, hs256_of(secret, h, c))
}

pub open spec fn join_parts(h: Seq<char>, c: Seq<char>, s: Seq<char>) -> Seq<char> {
    h + seq!['.'] + c + seq!['.'] + s
}

/// The token issued under `secret` for the user `id`.
pub open spec fn issued_token(secret: Seq<u8>, id: u128) -> Seq<char> {
    let (h, c, s) = issued_parts(secret, id);
    join_parts(h, c, s)
}

/// The position of the first '.' at or after `k`, or the length of `t`.
pub open spec fn dot_from(t: Seq<char>, k: int) -> int
    decreases t.len() - k,
{
    if k >= t.len() {
        t.len() as int
    } else if t[k] == '.' {
        k
    } else {
        dot_from(t, k + 1)
    }
}

/// A token split at its two dots; `None` where it has fewer or more dots.
pub open spec fn token_parts(t: Seq<char>) -> Option<(Seq<char>, Seq<char>, Seq<char>)> {
    let i = dot_from(t, 0);
    let j = dot_from(t, i + 1);
    if i < t.len() && j < t.len() && dot_from(t, j + 1) == t.len() {
        Some((t.subrange(0, i), t.subrange(i + 1, j), t.subrange(j + 1, t.len() as int)))
    } else {
        None
    }
}

/// The identifier that `t` carries, where the token is accepted under
/// `secret`: three parts, the expected header, a signature that the MAC
/// check accepts, and claims that name a UUID.
pub open spec fn token_verdict(secret: Seq<u8>, t: Seq<char>) -> Option<u128> {
    match token_parts(t) {
        Some((h, c, s)) => {
            if b64url_decoded(h) == Some(header_text()) && hs256_accepts(secret, h, c, s) {
                match b64url_decoded(c) {
                    Some(ct) => claims_id(ct),
                    None => None,
                }
            } else {
                None
            }
        },
        None => None,
    }
}

proof fn lemma_dot_from_skips(t: Seq<char>, k: int, m: int)
    requires
        0 <= k <= m <= t.len(),
        forall|i: int| k <= i < m ==> t[i] != '.',
        m == t.len() || t[m] == '.',
    ensures
        dot_from(t, k) == m,
    decreases m - k,
{
    if k < m {
        lemma_dot_from_skips(t, k + 1, m);
    }
}

/// Three parts without a dot, joined by dots, split back into the same parts.
proof fn lemma_join_then_split(h: Seq<char>, c: Seq<char>, s: Seq<char>)
    requires
        is_b64url_text(h),
        is_b64url_text(c),
        is_b64url_text(s),
    ensures
        token_parts(join_parts(h, c, s)) == Some((h, c, s)),
{
    let t = join_parts(h, c, s);
    let i = h.len() as int;
    let j = i + 1 + c.len();
    assert(t.len() == j + 1 + s.len());
    assert forall|k: int| 0 <= k < i implies t[k] != '.' by {
        assert(t[k] == h[k]);
        assert(is_b64url_char(h[k]));
    }
    lemma_dot_from_skips(t, 0, i);
    assert forall|k: int| i + 1 <= k < j implies t[k] != '.' by {
        assert(t[k] == c[k - i - 1]);
        assert(is_b64url_char(c[k - i - 1]));
    }
    lemma_dot_from_skips(t, i + 1, j);
    assert forall|k: int| j + 1 <= k < t.len() implies t[k] != '.' by {
        assert(t[k] == s[k - j - 1]);
        assert(is_b64url_char(s[k - j - 1]));
    }
    lemma_dot_from_skips(t, j + 1, t.len() as int);
    assert(t.subrange(0, i) =~= h);
    assert(t.subrange(i + 1, j) =~= c);
    assert(t.subrange(j + 1, t.len() as int) =~= s);
}

/// A token whose signature the MAC check does not accept under `secret` is
/// rejected, whatever its header and claims say.
pub proof fn lemma_unaccepted_signature_rejected(secret: Seq<u8>, t: Seq<char>)
    requires
        match token_parts(t) {
            Some((h, c, s)) => !hs256_accepts(secret, h, c, s),
            None => true,
        },
    ensures
        token_verdict(secret, t) is None,
{
}

/// The position of the first '.' at or after `from` in `t`, or its length.
fn find_dot(t: &str, n: usize, from: usize) -> (r: usize)
    requires
        n == t@.len(),
        from <= n,
    ensures
        r as int == dot_from(t@, from as int),
        from <= r <= n,
{
    let mut i: usize = from;
    while i < n
        invariant
            from <= i <= n,
            n == t@.len(),
            dot_from(t@, i as int) == dot_from(t@, from as int),
        decreases n - i,
    {
        if t.get_char(i) == '.' {
            return i;
        }
        i = i + 1;
    }
    i
}

/// Splits a token at its two dots into header, claims and signature; `None`
/// where it has fewer or more than two dots.
pub fn split_token(token: &str) -> (r: Option<(String, String, String)>)
    ensures
        match r {
            Some((h, c, s)) => token_parts(token@) == Some((h@, c@, s@)),
            None => token_parts(token@) is None,
        },
{
    let n = token.unicode_len();
    let i = find_dot(token, n, 0);
    if i == n {
        return None;
    }
    let j = find_dot(token, n, i + 1);
    if j == n {
        return None;
    }
    let k = find_dot(token, n, j + 1);
    if k != n {
        return None;
    }
    let h = String::from_str(token.substring_char(0, i));
    let c = String::from_str(token.substring_char(i + 1, j));
    let s = String::from_str(token.substring_char(j + 1, n));
    Some((h, c, s))
}

/// The claims part of a token for `claims`: the URL-safe base64 text of
/// `{"id":"<uuid>"}`.
pub fn encode_claims(claims: &TokenClaims) -> (r: String)
    ensures
        r@ == b64url_of(claims_text(claims.id)),
        is_b64url_text(r@),
{
    let id_text = uuid_to_text(claims.id);
    let mut text = String::from_str("{\"id\":\"");
    text.append(id_text.as_str());
    text.append("\"}");
    proof {
        reveal_strlit("{\"id\":\"");
        reveal_strlit("\"}");
        assert(text@ =~= claims_text(claims.id));
    }
    b64url_encode(text.as_str())
}

/// The signed token for `claims` under `secret`.
pub fn issue_token(secret: &[u8], claims: &TokenClaims) -> (r: String)
    ensures
        r@ == issued_token(secret@, claims.id),
        token_parts(r@) == Some(issued_parts(secret@, claims.id)),
{
    let header_json = "{\"alg\":\"HS256\"}";
    proof {
        reveal_strlit("{\"alg\":\"HS256\"}");
        assert(header_json@ =~= header_text());
    }
    let header = b64url_encode(header_json);
    let body = encode_claims(claims);
    let signature = hs256_sign(secret, header.as_str(), body.as_str());
    let signature = match signature {
        Some(s) => s,
        None => {
            assert(false);
            String::new()
        },
    };
    let mut token = header;
    token.append(".");
    token.append(body.as_str());
    token.append(".");
    token.append(signature.as_str());
    proof {
        reveal_strlit(".");
        assert(token@ =~= issued_token(secret@, claims.id));
        lemma_join_then_split(
            b64url_of(header_text()),
            b64url_of(claims_text(claims.id)),
            signature@,
        );
    }
    token
}

/// Reads the claims text `{"id":"<uuid>"}` back to the claims it names.
pub fn decode_claims(text: &str) -> (r: Option<TokenClaims>)
    ensures
        match r {
            Some(c) => claims_id(text@) == Some(c.id),
            None => claims_id(text@) is None,
        },
        forall|id: u128| #[trigger] claims_text(id) == text@ ==> r == Some((TokenClaims { id })),
{
    let n = text.unicode_len();
    if n != 45 {
        return None;
    }
    let prefix = String::from_str(text.substring_char(0, 7));
    let suffix = String::from_str(text.substring_char(43, 45));
    let want_prefix = String::from_str("{\"id\":\"");
    let want_suffix = String::from_str("\"}");
    proof {
        reveal_strlit("{\"id\":\"");
        reveal_strlit("\"}");
        assert(want_prefix@ =~= claims_prefix());
        assert(want_suffix@ =~= claims_suffix());
    }
    if prefix != want_prefix || suffix != want_suffix {
        proof {
            assert forall|id: u128| #[trigger] claims_text(id) != text@ by {
                if claims_text(id) == text@ {
                    assert(text@.subrange(0, 7) =~= claims_prefix());
                    assert(text@.subrange(43, 45) =~= claims_suffix());
                }
            }
        }
        return None;
    }
    let middle = text.substring_char(7, 43);
    proof {
        assert forall|id: u128| #[trigger] claims_text(id) == text@ implies uuid_text(id)
            == middle@ by {
            assert(text@.subrange(7, 43) =~= uuid_text(id));
        }
    }
    match uuid_from_text(middle) {
        Some(id) => Some(TokenClaims { id }),
        None => None,
    }
}

/// Checks a bearer token under `secret` and gives back the claims it
/// carries. A token that `issue_token` made under the same secret is
/// accepted, with the identifier it was issued for.
pub fn validate_token(secret: &[u8], token: &str) -> (r: Result<TokenClaims, AuthError>)
    ensures
        match r {
            Ok(c) => token_verdict(secret@, token@) == Some(c.id),
            Err(e) => e == AuthError::InvalidToken && token_verdict(secret@, token@) is None,
        },
        forall|id: u128|
            token_parts(token@) == Some(#[trigger] issued_parts(secret@, id)) ==> r
                == Ok::<TokenClaims, AuthError>((TokenClaims { id })),
{
    let parts = split_token(token);
    let (h, c, s) = match parts {
        Some(p) => p,
        None => {
            return Err(AuthError::InvalidToken);
        },
    };
    let header_json = String::from_str("{\"alg\":\"HS256\"}");
    proof {
        reveal_strlit("{\"alg\":\"HS256\"}");
        assert(header_json@ =~= header_text());
    }
    let header_ok = match b64url_decode(h.as_str()) {
        Some(text) => text == header_json,
        None => false,
    };
    if !header_ok {
        return Err(AuthError::InvalidToken);
    }
    if !hs256_verify(secret, h.as_str(), c.as_str(), s.as_str()) {
        return Err(AuthError::InvalidToken);
    }
    let claims_json = match b64url_decode(c.as_str()) {
        Some(text) => text,
        None => {
            return Err(AuthError::InvalidToken);
        },
    };
    match decode_claims(claims_json.as_str()) {
        Some(claims) => Ok(claims),
        None => Err(AuthError::InvalidToken),
    }
}

} // verus!
