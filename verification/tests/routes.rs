use yral_ssr::{
    PostParams, cents_withdraw_result_url, creator_profile_url, decimal_string,
    domain_specific_href, error_redirect, generate_share_link, home_href, hot_or_not_path,
    is_video_page, map_to_err, nav_home_selected, nav_menu_selected, nav_profile_selected,
    nav_upload_selected, nav_wallet_selected, nsfw_reload_url, principal_from_str,
    principal_string, profile_post_url, refer_link, sats_withdraw_result_url, single_post_url,
    text_contains, text_eq, text_starts_with, token_transfer_href, video_share_url,
};

const LEDGER: [u8; 10] = [0, 0, 0, 0, 0, 0, 0, 2, 1, 1];
const LEDGER_TEXT: &str = "ryjl3-tyaaa-aaaaa-aaaba-cai";

#[test]
fn decimal_numbers() {
    assert_eq!(decimal_string(0), "0");
    assert_eq!(decimal_string(7), "7");
    assert_eq!(decimal_string(10), "10");
    assert_eq!(decimal_string(1234567890123), "1234567890123");
    assert_eq!(decimal_string(u128::MAX), u128::MAX.to_string());
}

#[test]
fn text_search() {
    assert!(text_starts_with("/wallet/abc", "/wallet/"));
    assert!(!text_starts_with("/wal", "/wallet/"));
    assert!(text_contains("/x/hot-or-not/1", "/hot-or-not"));
    assert!(text_contains("abc", ""));
    assert!(!text_contains("abc", "abcd"));
    assert!(text_eq("é", "é"));
    assert!(!text_eq("a", "b"));
}

#[test]
fn principal_text_round_trip() {
    assert_eq!(principal_string(&LEDGER), LEDGER_TEXT);
    assert_eq!(principal_from_str(LEDGER_TEXT), Some(LEDGER.to_vec()));
    assert_eq!(principal_string(&[]), "aaaaa-aa");
    let back = principal_from_str(&principal_string(&[9, 8, 7])).unwrap();
    assert_eq!(back, vec![9, 8, 7]);
}

#[test]
fn post_links() {
    assert_eq!(hot_or_not_path(&LEDGER, 42), format!("/hot-or-not/{LEDGER_TEXT}/42"));
    let cur = Some(PostParams { canister_id: LEDGER.to_vec(), post_id: 3 });
    assert_eq!(home_href(&cur), format!("/hot-or-not/{LEDGER_TEXT}/3"));
    assert_eq!(home_href(&None), "/");
    assert_eq!(profile_post_url(&LEDGER, 5), format!("/profile/{LEDGER_TEXT}/post/5"));
    assert_eq!(single_post_url(&LEDGER, 6), format!("/post/{LEDGER_TEXT}/6"));
    assert_eq!(creator_profile_url(&LEDGER), format!("/profile/{LEDGER_TEXT}/tokens"));
    assert_eq!(
        video_share_url("https://yral.com", &LEDGER, 9),
        format!("https://yral.com/hot-or-not/{LEDGER_TEXT}/9")
    );
}

#[test]
fn token_and_referral_links() {
    assert_eq!(
        generate_share_link("btc", &LEDGER),
        format!("/token/info/btc/{LEDGER_TEXT}?airdrop_amt=100")
    );
    assert_eq!(token_transfer_href("usdc"), "/token/transfer/usdc");
    assert_eq!(
        refer_link("https://yral.com", &LEDGER),
        format!("https://yral.com/?user_refer={LEDGER_TEXT}")
    );
}

#[test]
fn result_links() {
    assert_eq!(error_redirect("boom"), "/error?err=boom");
    assert_eq!(sats_withdraw_result_url(250, None), "/hot-or-not/withdraw/success?sats=250");
    assert_eq!(
        sats_withdraw_result_url(250, Some("bad")),
        "/hot-or-not/withdraw/failure?sats=250&err=bad"
    );
    assert_eq!(cents_withdraw_result_url(12, None), "/pnd/withdraw/success?cents=12");
    assert_eq!(
        cents_withdraw_result_url(12, Some("x")),
        "/pnd/withdraw/failure?cents=12&err=x"
    );
    assert_eq!(nsfw_reload_url(true), "/?nsfw=true");
    assert_eq!(nsfw_reload_url(false), "/?nsfw=false");
}

#[test]
fn nav_selection() {
    assert!(nav_home_selected("/"));
    assert!(nav_home_selected("/hot-or-not/a/1"));
    assert!(!nav_home_selected("/menu"));
    assert!(nav_upload_selected("/upload"));
    assert!(!nav_upload_selected("/upload/x"));
    assert!(nav_menu_selected("/menu"));
    let own_wallet = format!("/wallet/{LEDGER_TEXT}");
    assert!(nav_wallet_selected(&own_wallet, Some(&LEDGER)));
    assert!(!nav_wallet_selected(&own_wallet, None));
    assert!(!nav_wallet_selected("/wallet/other", Some(&LEDGER)));
    let own_profile = format!("/profile/{LEDGER_TEXT}/posts");
    assert!(nav_profile_selected(&own_profile, Some(&LEDGER)));
    assert!(!nav_profile_selected("/profile/token", Some(&LEDGER)));
}

#[test]
fn video_pages() {
    assert!(is_video_page("/hot-or-not/a/1"));
    assert!(is_video_page("/post/a/1"));
    assert!(is_video_page("/profile/a/post/1"));
    assert!(!is_video_page("/profile/a/posts"));
    assert!(!is_video_page("/menu"));
}

#[test]
fn error_messages() {
    let coffee = "It looks like our system is taking a coffee break. Try again in a bit, and we'll have it back to work!";
    assert_eq!(map_to_err("IC agent error: timeout"), coffee);
    assert_eq!(map_to_err("x TypeError y"), coffee);
    assert_eq!(map_to_err("CanisterError"), coffee);
    assert_eq!(map_to_err("Invalid principal"), "Invalid principal");
}

#[test]
fn social_links() {
    assert_eq!(domain_specific_href("TELEGRAM"), "https://t.me/+c-LTX0Cp-ENmMzI1");
    assert_eq!(domain_specific_href("TWITTER"), "https://twitter.com/Yral_app");
    assert_eq!(domain_specific_href("DISCORD"), "https://discord.gg/GZ9QemnZuj");
    assert_eq!(domain_specific_href("IC_WEBSITE"), "https://vyatz-hqaaa-aaaam-qauea-cai.ic0.app");
}
