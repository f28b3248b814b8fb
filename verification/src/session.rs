//! Sessions: the legacy refresh token, the expiry of delegations, and the
//! key that signs the session cookies.

use vstd::prelude::*;
use hex::FromHexError;
use vstd::string::StringSliceAdditionalSpecFns;

verus! {

/// How long a refresh token lasts: 29 days, in seconds.
pub const REFRESH_MAX_AGE_SECS: u64 = 2505600;

/// How long a delegated identity lasts: 7 days, in seconds.
pub const DELEGATION_MAX_AGE_SECS: u64 = 604800;

/// How long a short-lived delegated identity lasts: 1 day, in seconds.
pub const SHORT_DELEGATION_MAX_AGE_SECS: u64 = 86400;

/// How long the cookies that remember the user's principal and canister
/// last: 400 days, in milliseconds.
pub const AUTH_UTIL_COOKIES_MAX_AGE_MS: i64 = 34560000000;

/// The fewest bytes a cookie signing key may have.
pub const COOKIE_KEY_MIN_BYTES: usize = 64;

/// The refresh token the legacy sign-in keeps in a cookie: whose it is and
/// when, in milliseconds since the epoch, it stops being honoured.
#[derive(Clone, PartialEq, Eq, Debug)]
pub struct RefreshTokenLegacy {
    pub principal: Vec<u8>,
    pub expiry_epoch_ms: u128,
}

/// The expiry of a refresh token issued at `now_ms`.
pub open spec fn refresh_expiry(now_ms: int) -> int {
    now_ms + REFRESH_MAX_AGE_SECS * 1000
}

/// The principal a refresh token vouches for at `now_ms`: none once the
/// token has expired.
pub open spec fn vouched_principal(principal: Seq<u8>, expiry_ms: int, now_ms: int) -> Option<
    Seq<u8>,
> {
    if now_ms > expiry_ms {
        None
    } else {
        Some(principal)
    }
}

impl RefreshTokenLegacy {
    /// The token issued to `principal` at `now_ms`, which expires after
    /// `REFRESH_MAX_AGE_SECS`. The expiry's whole seconds must fit 64 bits,
    /// as a `Duration`'s do.
    pub fn issue(principal: Vec<u8>, now_ms: u128) -> (token: RefreshTokenLegacy)
        requires
            now_ms / 1000 + REFRESH_MAX_AGE_SECS <= u64::MAX,
        ensures
            token.principal@ == principal@,
            token.expiry_epoch_ms == refresh_expiry(now_ms as int),
            token.expiry_epoch_ms == now_ms + 2505600000,
    {
        RefreshTokenLegacy {
            principal,
            expiry_epoch_ms: now_ms + REFRESH_MAX_AGE_SECS as u128 * 1000,
        }
    }

    /// The principal this token vouches for at `now_ms`, if it has not
    /// expired.
    pub fn principal_if_fresh(&self, now_ms: u128) -> (principal: Option<Vec<u8>>)
        ensures
            principal matches Some(p) ==> vouched_principal(
                self.principal@,
                self.expiry_epoch_ms as int,
                now_ms as int,
            ) == Some(p@),
            principal is None <==> vouched_principal(
                self.principal@,
                self.expiry_epoch_ms as int,
                now_ms as int,
            ) is None,
            principal is None <==> now_ms > self.expiry_epoch_ms,
            principal matches Some(p) ==> p@ == self.principal@,
    {
        if now_ms > self.expiry_epoch_ms {
            None
        } else {
            Some(self.principal.clone())
        }
    }
}

/// A refresh token vouches for its principal for `REFRESH_MAX_AGE_SECS`
/// after it is issued, and not a moment longer.
pub proof fn law_refresh_token_lifetime(principal: Seq<u8>, issued_ms: int, now_ms: int)
    ensures
        now_ms <= refresh_expiry(issued_ms) ==> vouched_principal(
            principal,
            refresh_expiry(issued_ms),
            now_ms,
        ) == Some(principal),
        now_ms > refresh_expiry(issued_ms) ==> vouched_principal(
            principal,
            refresh_expiry(issued_ms),
            now_ms,
        ) is None,
{
}

/// The expiry, in nanoseconds since the epoch and cut to 64 bits, of a
/// delegation made at `now_ns` that lasts `max_age_secs`. The expiry's whole
/// seconds must fit 64 bits, as a `Duration`'s do.
pub fn delegation_expiry_ns(now_ns: u128, max_age_secs: u64) -> (expiry: u64)
    requires
        now_ns / 1000000000 + max_age_secs <= u64::MAX,
    ensures
        expiry == (now_ns + max_age_secs * 1000000000) as u64,
{
    assert(now_ns + max_age_secs * 1000000000 <= u128::MAX) by (nonlinear_arith)
        requires
            now_ns / 1000000000 + max_age_secs <= u64::MAX,
    ;
    let total: u128 = now_ns + max_age_secs as u128 * 1000000000;
    total as u64
}

/// A hex digit.
pub open spec fn is_hex_digit(c: u8) -> bool {
    (48 <= c <= 57) || (65 <= c <= 70) || (97 <= c <= 102)
}

/// The value of a hex digit.
pub open spec fn hex_value(c: u8) -> int {
    if 48 <= c <= 57 {
        c - 48
    } else if 65 <= c <= 70 {
        c - 65 + 10
    } else {
        c - 97 + 10
    }
}

/// The bytes a hex text writes, two digits to a byte, upper and lower case
/// alike; none for a text of odd length or with a character that is not a
/// hex digit.
pub open spec fn hex_decoding(text: Seq<u8>) -> Option<Seq<u8>> {
    if text.len() % 2 != 0 {
        None
    } else if exists|i: int| 0 <= i < text.len() && !is_hex_digit(#[trigger] text[i]) {
        None
    } else {
        Some(
            Seq::new(
                text.len() / 2,
                |i: int| (hex_value(text[2 * i]) * 16 + hex_value(text[2 * i + 1])) as u8,
            ),
        )
    }
}

#[verifier::external_type_specification]
#[verifier::external_body]
pub struct ExFromHexError(FromHexError);

/// `hex::decode`: the bytes a hex text writes, or an error when it writes
/// none.
#[verifier::external_body]
fn decode_hex(text: &[u8]) -> (bytes: Result<Vec<u8>, FromHexError>)
    ensures
        bytes is Ok <==> hex_decoding(text@) is Some,
        bytes matches Ok(b) ==> hex_decoding(text@) == Some(b@),
{
    hex::decode(text)
}

/// Why a configured cookie key is refused.
#[derive(Clone, Copy, PartialEq, Eq, Structural, Debug)]
pub enum CookieKeyError {
    /// The key is not hex.
    InvalidHex,
    /// The key has fewer than `COOKIE_KEY_MIN_BYTES` bytes.
    TooShort,
}

/// The cookie signing key a hex text writes: refused when it is not hex, or
/// when it has fewer than `COOKIE_KEY_MIN_BYTES` bytes.
pub fn cookie_key_from_hex(text: &str) -> (key: Result<Vec<u8>, CookieKeyError>)
    ensures
        hex_decoding(text.spec_bytes()) is None ==> key == Err::<Vec<u8>, CookieKeyError>(
            CookieKeyError::InvalidHex,
        ),
        hex_decoding(text.spec_bytes()) is Some && hex_decoding(text.spec_bytes()).unwrap().len()
            < COOKIE_KEY_MIN_BYTES ==> key == Err::<Vec<u8>, CookieKeyError>(
            CookieKeyError::TooShort,
        ),
        key is Ok <==> hex_decoding(text.spec_bytes()) is Some && hex_decoding(
            text.spec_bytes(),
        ).unwrap().len() >= COOKIE_KEY_MIN_BYTES,
        key matches Ok(k) ==> hex_decoding(text.spec_bytes()) == Some(k@),
{
    match decode_hex(text.as_bytes()) {
        Ok(bytes) => {
            if bytes.len() < COOKIE_KEY_MIN_BYTES {
                Err(CookieKeyError::TooShort)
            } else {
                Ok(bytes)
            }
        },
        Err(_) => Err(CookieKeyError::InvalidHex),
    }
}


/// The stored refresh token could not be read.
#[derive(Clone, Copy, PartialEq, Eq, Structural, Debug)]
pub struct TokenParseError;

/// The principal the legacy refresh cookie vouches for at `now_ms`: none
/// without the cookie or once the token has expired, and an error when the
/// cookie does not hold a token (`parsed` is what reading it gave).
pub fn extract_principal_from_cookie_legacy(
    cookie_present: bool,
    parsed: Option<&RefreshTokenLegacy>,
    now_ms: u128,
) -> (principal: Result<Option<Vec<u8>>, TokenParseError>)
    ensures
        !cookie_present ==> principal matches Ok(None),
        cookie_present && parsed is None ==> principal == Err::<Option<Vec<u8>>, TokenParseError>(
            TokenParseError,
        ),
        cookie_present ==> (parsed matches Some(t) ==> (principal matches Ok(p) && (p is None
            <==> now_ms > t.expiry_epoch_ms) && (p matches Some(b) ==> b@ == t.principal@))),
{
    if !cookie_present {
        return Ok(None);
    }
    match parsed {
        None => Err(TokenParseError),
        Some(token) => Ok(token.principal_if_fresh(now_ms)),
    }
}

/// A new anonymous identity is made only for a visitor with no signed-in
/// principal (or, under the newer sign-in, no refresh cookie).
pub fn anonymous_identity_required(has_identity: bool) -> (required: bool)
    ensures
        required == !has_identity,
{
    !has_identity
}

} // verus!
