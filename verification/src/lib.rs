//! The logic of the YRAL web app: the post feed, bets, withdrawals and
//! transfers, sessions, routes, and the decisions its pages make.

mod store;
pub mod text;
pub mod principal;
pub mod cursor;
pub mod feed;
pub mod bet;
pub mod withdraw;
pub mod transfer;
pub mod session;
pub mod routes;
pub mod messages;
pub mod overlay;
pub mod notifications;
pub mod upload;
pub mod account;
pub mod game;
pub mod onboarding;
pub mod banner;
pub mod profile;
pub mod player;

pub use text::{chars_of, decimal_string, parse_usize, push_decimal, push_text, text_contains, text_eq, text_starts_with};
pub use principal::{PRINCIPAL_MAX_BYTES, principal_from_str, principal_string};
pub use cursor::{FixedFetchCursor, PostsFetchError, PostsReply, PostsRes, ProfileVideoStream};
pub use feed::{
    BACKLOG_MOVE_CAP, BACKLOG_REFILL_BELOW, KEPT_BEHIND, PostViewCtx, QUEUE_LOOKAHEAD, FetchCursor, FALLBACK_PAGE,
};
pub use bet::{
    BetError, CoinState, VoteButtonLook, check_vote_amount, creator_reward, result_line_class,
    total_balance_text, vote_button_look, vote_result_message, win_display_amount,
};
pub use withdraw::{
    WithdrawButton, WithdrawError, WithdrawLabel, WithdrawLimits, cents_withdraw_button,
    check_withdraw_request, same_principal, sats_from_input, sats_withdraw_button,
    worker_error_text, worker_refusal_text, claim_outcome,
};
pub use transfer::{
    AmountError, InvalidPrincipal, TokenRoot, TransferError, TransferRoute, can_send,
    check_destination, check_transfer_amount, max_transfer_amount, transfer_route, airdrop_claimed,
    balance_display_decimals, destination_placeholder, is_btc_token, names_btc,
    transfer_success_text,
};
pub use session::{
    AUTH_UTIL_COOKIES_MAX_AGE_MS, COOKIE_KEY_MIN_BYTES, CookieKeyError, DELEGATION_MAX_AGE_SECS, REFRESH_MAX_AGE_SECS,
    RefreshTokenLegacy, SHORT_DELEGATION_MAX_AGE_SECS, TokenParseError, anonymous_identity_required,
    cookie_key_from_hex, delegation_expiry_ns, extract_principal_from_cookie_legacy,
};
pub use routes::{
    PostParams, cents_withdraw_result_url, creator_profile_url, error_redirect,
    generate_share_link, home_href, hot_or_not_path, is_video_page, nav_home_selected,
    nav_menu_selected, nav_profile_selected, nav_upload_selected, nav_wallet_selected,
    nsfw_reload_url, profile_post_url, refer_link, sats_withdraw_result_url, single_post_url,
    token_transfer_href, video_share_url, worker_balance_path, worker_earnings_path,
    token_share_message, refer_reward_step, refer_share_text, profile_tab_url,
    worker_vote_url, NEW_USER_SIGNUP_REWARD, path_under_section,
    NavItem, NavKind, yral_nav_items,
};
pub use messages::{domain_specific_href, map_to_err, page_title, server_error_message};
pub use overlay::{
    GameOutcome, LikeState, NsfwAction, nsfw_click, nsfw_shown, show_help_ping,
    show_onboarding_popup, heart_icon, initial_like_info, nsfw_toggle_image,
};
pub use notifications::{
    NotifAction, NotifOutcome, Permission, enabled_after, notifications_on, nudge_action,
    nudge_visible, settings_toggle_action, should_migrate_device,
};
pub use upload::{
    SerializablePostDetailsFromFrontend, UploadStage, VideoMetadata, join_tags, should_publish, update_metadata_endpoint, upload_address,
    upload_form_invalid, upload_network_error, upload_url_fetch_outcome, upload_outcome, upload_stage, upload_url_endpoint,
};
pub use account::{
    LoginFollowups, LoginProvider, SeedAuthorization, connect_button_text,
    first_login_on_registration, is_same_post, is_user_principal, login_button_label,
    login_followups, profile_tab_index, seed_allowed, seed_answer_loaded, settings_show_delete_popup,
    should_redirect_on_connect, show_profile_login, show_seed_upload, show_token_airdrop,
    speculation_empty_text, AuthMessageAction, auth_message_action, auth_window_abandoned,
    auth_window_target, import_result_text, login_button_disabled, show_import_modal,
    DeleteFlowView, account_connected_from_cookie, registration_needs_update, registration_outcome, credited_bitcoin_text, profile_tab_class,
    delete_button_text, delete_user_outcome, delete_flow_view, delete_login_redirect, delete_result_target,
};
pub use game::{
    GameBadge, GameConclusion, GameInfo, GameResultV2, SpeculationLine, VoteKind,
    bet_direction_text, compare_videos_query, participation_stake, sentiment_of,
    speculation_badge, vote_kind_image, evaluation_sentiment, vote_evaluation_query,
    VoteAPIRes, VoteWorkerRequest, vote_result, vote_worker_request,
};
pub use onboarding::{
    ONBOARDING_FIRST_PAGE, ONBOARDING_LAST_PAGE, OnboardingButton, OnboardingMove,
    onboarding_arrow, onboarding_backdrop, onboarding_body, onboarding_header, onboarding_press,
    onboarding_shows,
};
pub use banner::{BANNER_TIMEOUT_MS, Banner, BannerEffect, BannerEvent, NotificationPayload};
pub use profile::{FeedSlot, ProfilePostsContext};
pub use player::{
    PlaybackAction, PlaybackStep, PostFetchError, playback_step, post_fetch_redirect,
    single_post_result,
};
