use yral_ssr::{
    COOKIE_KEY_MIN_BYTES, CookieKeyError, DELEGATION_MAX_AGE_SECS, REFRESH_MAX_AGE_SECS,
    RefreshTokenLegacy, SHORT_DELEGATION_MAX_AGE_SECS, cookie_key_from_hex, delegation_expiry_ns,
};

#[test]
fn max_ages() {
    assert_eq!(REFRESH_MAX_AGE_SECS, 60 * 60 * 24 * 29);
    assert_eq!(DELEGATION_MAX_AGE_SECS, 60 * 60 * 24 * 7);
    assert_eq!(SHORT_DELEGATION_MAX_AGE_SECS, 60 * 60 * 24);
}

#[test]
fn refresh_token_lifetime() {
    let t = RefreshTokenLegacy::issue(vec![1, 2], 1_000);
    assert_eq!(t.expiry_epoch_ms, 1_000 + 29 * 24 * 60 * 60 * 1000);
    assert_eq!(t.principal_if_fresh(1_000), Some(vec![1, 2]));
    assert_eq!(t.principal_if_fresh(t.expiry_epoch_ms), Some(vec![1, 2]));
    assert_eq!(t.principal_if_fresh(t.expiry_epoch_ms + 1), None);
}

#[test]
fn delegation_expiry() {
    assert_eq!(delegation_expiry_ns(5, 1), 1_000_000_005);
    // cut to 64 bits, as the delegation's field holds it
    assert_eq!(delegation_expiry_ns(1u128 << 64, 0), 0);
}

#[test]
fn cookie_key() {
    let hex = "ab".repeat(64);
    let key = cookie_key_from_hex(&hex).unwrap();
    assert_eq!(key.len(), COOKIE_KEY_MIN_BYTES);
    assert!(key.iter().all(|b| *b == 0xab));
    assert_eq!(cookie_key_from_hex(&"AB".repeat(64)).unwrap(), key);
    assert_eq!(cookie_key_from_hex("0a"), Err(CookieKeyError::TooShort));
    assert_eq!(cookie_key_from_hex("abc"), Err(CookieKeyError::InvalidHex));
    assert_eq!(cookie_key_from_hex(&"zz".repeat(64)), Err(CookieKeyError::InvalidHex));
}
