use yral_ssr::{
    server_error_message, worker_refusal_text,
    WithdrawError, account_connected_from_cookie, credited_bitcoin_text, path_under_section,
    profile_tab_class, worker_error_text,
    AuthMessageAction, DeleteFlowView, TokenRoot, VideoMetadata, WithdrawLabel,
    SerializablePostDetailsFromFrontend, airdrop_claimed, anonymous_identity_required,
    auth_message_action, auth_window_abandoned, auth_window_target, balance_display_decimals,
    delete_button_text, delete_flow_view, delete_login_redirect, delete_result_target,
    destination_placeholder, extract_principal_from_cookie_legacy, heart_icon,
    import_result_text, initial_like_info, is_btc_token, join_tags, login_button_disabled,
    names_btc, nsfw_toggle_image, page_title, principal_from_str, profile_tab_url,
    refer_reward_step, refer_share_text, show_import_modal, token_share_message,
    transfer_success_text, update_metadata_endpoint, upload_address, upload_network_error,
    upload_outcome, upload_url_endpoint, worker_balance_path, worker_earnings_path,
    worker_vote_url, LikeState, RefreshTokenLegacy, TokenParseError, NEW_USER_SIGNUP_REWARD,
};

const LEDGER_TEXT: &str = "ryjl3-tyaaa-aaaaa-aaaba-cai";

#[test]
fn withdraw_labels() {
    assert_eq!(WithdrawLabel::NotEnoughBalance.message(), "Not enough balance");
    assert_eq!(
        WithdrawLabel::EnterValidAmount { min: 200, max: 500 }.message(),
        "Enter valid amount, min: 200 max: 500"
    );
    assert_eq!(WithdrawLabel::EnterAmount.message(), "Enter Amount");
    assert_eq!(WithdrawLabel::NotEnoughWinnings.message(), "Not enough winnings");
    assert_eq!(WithdrawLabel::Claiming.message(), "Claiming...");
    assert_eq!(WithdrawLabel::WithdrawNow.message(), "Withdraw Now!");
}

#[test]
fn worker_links() {
    let p = principal_from_str(LEDGER_TEXT).unwrap();
    assert_eq!(worker_balance_path(&p), format!("/balance/{LEDGER_TEXT}"));
    assert_eq!(worker_earnings_path(&p), format!("/earnings/{LEDGER_TEXT}"));
    assert_eq!(
        worker_vote_url("https://worker.example/", &p),
        format!("https://worker.example/v3/vote/{LEDGER_TEXT}")
    );
    assert_eq!(profile_tab_url(&p, "stakes"), format!("/profile/{LEDGER_TEXT}/stakes"));
}

#[test]
fn page_titles() {
    assert_eq!(page_title("YRAL", "Menu"), "YRAL - Menu");
    assert_eq!(page_title("YRAL", "Android Terms of Service"), "YRAL - Android Terms of Service");
}

#[test]
fn token_page_texts() {
    assert!(is_btc_token("BTC"));
    assert!(is_btc_token("btc"));
    assert!(!is_btc_token("USDC"));
    assert!(names_btc("btc"));
    assert!(!names_btc("BTC"));
    assert_eq!(destination_placeholder(true), "Enter OISY wallet principal");
    assert_eq!(destination_placeholder(false), "Enter destination principal");
    assert_eq!(balance_display_decimals(true), 5);
    assert_eq!(balance_display_decimals(false), 2);
    assert_eq!(
        transfer_success_text("1.5", "DOLR"),
        "You’ve successfully sent 1.5 DOLR to your wallet."
    );
    assert_eq!(
        token_share_message("ABC", "/token/info/x/y?airdrop_amt=100"),
        "Hey! Check out the token: ABC I created on YRAL 👇 /token/info/x/y?airdrop_amt=100. I just minted my own token—come see and create yours! 🚀 #YRAL #TokenMinter"
    );
}

#[test]
fn airdrop_claim_status() {
    let sns = TokenRoot::Other { root: vec![1] };
    assert!(!airdrop_claimed(&sns, true, Some(false)));
    assert!(airdrop_claimed(&sns, true, Some(true)));
    assert!(airdrop_claimed(&sns, true, None));
    assert!(airdrop_claimed(&sns, false, Some(false)));
    assert!(airdrop_claimed(&TokenRoot::Cents, true, Some(false)));
}

#[test]
fn referral_texts() {
    assert_eq!(
        refer_share_text(NEW_USER_SIGNUP_REWARD, 500),
        "Join YRAL—the world's 1st social platform on BITCOIN\nGet FREE BITCOIN (1000 SATS) Instantly\nAdditional BITCOIN (500 SATS) when you log in using the link."
    );
    assert_eq!(refer_reward_step(500), "You both earn Bitcoin (500 SATS)");
}

#[test]
fn login_window_messages() {
    assert!(login_button_disabled(true, false));
    assert!(!login_button_disabled(false, false));
    assert_eq!(auth_message_action(false, true, true), AuthMessageAction::Ignore);
    assert_eq!(auth_message_action(true, false, true), AuthMessageAction::Ignore);
    assert_eq!(auth_message_action(true, true, false), AuthMessageAction::ClosePopup);
    assert_eq!(auth_message_action(true, true, true), AuthMessageAction::Complete);
    assert!(auth_window_abandoned(true, Some(false)));
    assert!(!auth_window_abandoned(true, Some(true)));
    assert!(!auth_window_abandoned(true, None));
    assert!(!auth_window_abandoned(false, Some(false)));
    assert_eq!(auth_window_target("https://a.b", Ok("https://auth/x")), "https://auth/x");
    assert_eq!(auth_window_target("https://a.b", Err("bad")), "https://a.b/error?err=bad");
}

#[test]
fn menu_and_importer() {
    assert!(show_import_modal(Some("https://yt/x"), true));
    assert!(!show_import_modal(Some(""), true));
    assert!(!show_import_modal(Some("x"), false));
    assert!(!show_import_modal(None, true));
    assert_eq!(import_result_text(None), "Submitted!");
    assert_eq!(import_result_text(Some("denied".to_string())), "denied");
}

#[test]
fn account_deletion_flow() {
    assert_eq!(delete_flow_view(false, true), DeleteFlowView::Hidden);
    assert_eq!(delete_flow_view(true, true), DeleteFlowView::Confirm);
    assert_eq!(delete_flow_view(true, false), DeleteFlowView::LoginFirst);
    assert_eq!(delete_login_redirect(), "/settings/delete");
    assert_eq!(delete_result_target(None), "/logout");
    assert_eq!(delete_result_target(Some("500")), "/error?err=500");
    assert_eq!(delete_button_text(true), "Deleting...");
    assert_eq!(delete_button_text(false), "Yes, Delete");
}

#[test]
fn upload_requests() {
    assert_eq!(join_tags(&vec![]), "");
    assert_eq!(join_tags(&vec!["a".to_string()]), "a");
    assert_eq!(join_tags(&vec!["a".to_string(), "bc".to_string(), "d".to_string()]), "a,bc,d");
    assert_eq!(upload_url_endpoint("https://u"), "https://u/get_upload_url_v2");
    assert_eq!(update_metadata_endpoint("https://u"), "https://u/update_metadata");
    assert_eq!(upload_outcome(Some(200), "OK"), Ok(()));
    assert_eq!(upload_outcome(Some(299), ""), Ok(()));
    assert_eq!(
        upload_outcome(Some(413), "Payload Too Large"),
        Err("Upload XHR failed: status 413 Payload Too Large".to_string())
    );
    assert_eq!(upload_outcome(None, ""), Err("Upload XHR failed to get status".to_string()));
    assert_eq!(
        upload_network_error(0, ""),
        "Upload XHR network error. Status: 0, Text: "
    );
    assert_eq!(upload_address(Some("https://x".to_string())), Ok("https://x".to_string()));
    assert_eq!(upload_address(None), Err("Upload URL not found in response".to_string()));
    let meta = VideoMetadata::for_upload("cap", &vec!["x".to_string(), "y".to_string()]);
    assert_eq!(meta.title, "cap");
    assert_eq!(meta.description, "cap");
    assert_eq!(meta.tags, "x,y");
    let post = SerializablePostDetailsFromFrontend::for_upload(
        true,
        vec!["x".to_string()],
        "cap".to_string(),
        "uid".to_string(),
        false,
    );
    assert!(post.is_nsfw && !post.creator_consent_for_inclusion_in_hot_or_not);
    assert_eq!(post.video_uid, "uid");
}

#[test]
fn overlay_images_and_like_info() {
    assert_eq!(heart_icon(Some(true)), "/img/heart-icon-liked.svg");
    assert_eq!(heart_icon(None), "/img/heart-icon-white.svg");
    assert_eq!(nsfw_toggle_image(true), "/img/yral/nsfw/nsfw-toggle-on.webp");
    assert_eq!(nsfw_toggle_image(false), "/img/yral/nsfw/nsfw-toggle-off.webp");
    assert_eq!(initial_like_info(Some(true), 3, Some((false, 9)), 1), LikeState::loaded(true, 3));
    assert_eq!(initial_like_info(None, 3, Some((false, 9)), 1), LikeState::loaded(false, 9));
    assert_eq!(initial_like_info(None, 3, None, 1), LikeState::loaded(false, 1));
}

#[test]
fn legacy_cookie_principal() {
    let token = RefreshTokenLegacy::issue(vec![1, 2, 3], 1_000);
    assert_eq!(extract_principal_from_cookie_legacy(false, Some(&token), 0), Ok(None));
    assert_eq!(extract_principal_from_cookie_legacy(true, None, 0), Err(TokenParseError));
    assert_eq!(extract_principal_from_cookie_legacy(true, Some(&token), 2_000), Ok(Some(vec![1, 2, 3])));
    assert_eq!(extract_principal_from_cookie_legacy(true, Some(&token), token.expiry_epoch_ms + 1), Ok(None));
    assert!(anonymous_identity_required(false));
    assert!(!anonymous_identity_required(true));
}

#[test]
fn withdraw_refusal_messages() {
    let e = WithdrawError::InvalidAmount { min: 200, max: 500, amount: 9 };
    assert_eq!(e.message(), "Invalid withdraw amount, min amount: 200, max amount: 500, amount: 9");
    assert_eq!(WithdrawError::PrincipalMismatch.message(), "Not allowed to withdraw");
    assert_eq!(WithdrawError::UnregisteredSession.message(), "Not allowed to withdraw");
    assert_eq!(worker_error_text(502, "down"), "worker error[502]: down");
}

#[test]
fn profile_and_session_bits() {
    assert_eq!(
        profile_tab_class(1, 1),
        "text-primary-500 border-b-4 border-primary-500 flex justify-center w-full py-2"
    );
    assert_eq!(profile_tab_class(0, 1), "text-white flex justify-center w-full py-2");
    assert_eq!(credited_bitcoin_text(1000), "Bitcoin (1000 SATS)");
    assert!(account_connected_from_cookie(Some("true")));
    assert!(!account_connected_from_cookie(Some("false")));
    assert!(!account_connected_from_cookie(None));
    assert!(path_under_section("/profile/abc/posts", "/profile/", "abc"));
    assert!(!path_under_section("/profile/ab", "/profile/", "abc"));
}

#[test]
fn error_page_and_worker_texts() {
    assert_eq!(server_error_message(None), "Server Error");
    assert_eq!(server_error_message(Some("boom")), "boom");
    assert_eq!(
        server_error_message(Some("IC agent error: x")),
        "It looks like our system is taking a coffee break. Try again in a bit, and we'll have it back to work!"
    );
    assert_eq!(worker_refusal_text("nope"), "worker error: nope");
}
