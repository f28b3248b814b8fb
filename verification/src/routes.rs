//! The app's routes: the links pages build, and which tab of the bottom
//! navigation a path selects.

use vstd::prelude::*;
use crate::principal::{PRINCIPAL_MAX_BYTES, principal_text, principal_to_text};
use crate::text::{
    decimal_text, push_decimal, push_text, seq_contains_seq, seq_starts_with, text_contains,
    text_eq, text_starts_with,
};

verus! {

/// A post, by the canister that holds it and its id there.
#[derive(Clone, PartialEq, Eq, Debug)]
pub struct PostParams {
    pub canister_id: Vec<u8>,
    pub post_id: u64,
}

/// Appends the textual form of a principal.
fn push_principal(out: &mut String, principal: &[u8])
    requires
        principal@.len() <= PRINCIPAL_MAX_BYTES,
    ensures
        final(out)@ == old(out)@ + principal_text(principal@),
{
    let text = principal_to_text(principal);
    out.append(text.as_str());
}

/// The path of a post in the hot-or-not feed.
pub open spec fn hot_or_not_path_text(canister: Seq<u8>, post_id: u64) -> Seq<char> {
    "/hot-or-not/"@ + principal_text(canister) + "/"@ + decimal_text(post_id as nat)
}

/// `/hot-or-not/{canister}/{post}`: a post in the hot-or-not feed.
pub fn hot_or_not_path(canister: &[u8], post_id: u64) -> (path: String)
    requires
        canister@.len() <= PRINCIPAL_MAX_BYTES,
    ensures
        path@ == hot_or_not_path_text(canister@, post_id),
{
    let mut s = String::new();
    push_text(&mut s, "/hot-or-not/");
    push_principal(&mut s, canister);
    push_text(&mut s, "/");
    push_decimal(&mut s, post_id as u128);
    assert(s@ =~= hot_or_not_path_text(canister@, post_id));
    s
}

/// Where the home tab leads: back to the post being watched, if any, else
/// to the root.
pub fn home_href(current: &Option<PostParams>) -> (href: String)
    requires
        current matches Some(p) ==> p.canister_id@.len() <= PRINCIPAL_MAX_BYTES,
    ensures
        current matches Some(p) ==> href@ == hot_or_not_path_text(p.canister_id@, p.post_id),
        current is None ==> href@ == "/"@,
{
    match current {
        Some(p) => hot_or_not_path(p.canister_id.as_slice(), p.post_id),
        None => String::from_str("/"),
    }
}

/// `/profile/{canister}/post/{post}`: a post opened from a profile.
pub fn profile_post_url(user_canister: &[u8], post_id: u64) -> (url: String)
    requires
        user_canister@.len() <= PRINCIPAL_MAX_BYTES,
    ensures
        url@ == "/profile/"@ + principal_text(user_canister@) + "/post/"@ + decimal_text(
            post_id as nat,
        ),
{
    let mut s = String::new();
    push_text(&mut s, "/profile/");
    push_principal(&mut s, user_canister);
    push_text(&mut s, "/post/");
    push_decimal(&mut s, post_id as u128);
    assert(s@ =~= "/profile/"@ + principal_text(user_canister@) + "/post/"@ + decimal_text(
        post_id as nat,
    ));
    s
}

/// `/post/{canister}/{post}`: a single post, as a bet links to it.
pub fn single_post_url(post_canister: &[u8], post_id: u64) -> (url: String)
    requires
        post_canister@.len() <= PRINCIPAL_MAX_BYTES,
    ensures
        url@ == "/post/"@ + principal_text(post_canister@) + "/"@ + decimal_text(post_id as nat),
{
    let mut s = String::new();
    push_text(&mut s, "/post/");
    push_principal(&mut s, post_canister);
    push_text(&mut s, "/");
    push_decimal(&mut s, post_id as u128);
    assert(s@ =~= "/post/"@ + principal_text(post_canister@) + "/"@ + decimal_text(
        post_id as nat,
    ));
    s
}

/// `/profile/{principal}/tokens`: a creator's profile, as a post links to it.
pub fn creator_profile_url(poster: &[u8]) -> (url: String)
    requires
        poster@.len() <= PRINCIPAL_MAX_BYTES,
    ensures
        url@ == "/profile/"@ + principal_text(poster@) + "/tokens"@,
{
    let mut s = String::new();
    push_text(&mut s, "/profile/");
    push_principal(&mut s, poster);
    push_text(&mut s, "/tokens");
    s
}

/// The link that shares a token with an airdrop:
/// `/token/info/{root}/{key}?airdrop_amt=100`.
pub fn generate_share_link(root: &str, key_principal: &[u8]) -> (link: String)
    requires
        key_principal@.len() <= PRINCIPAL_MAX_BYTES,
    ensures
        link@ == "/token/info/"@ + root@ + "/"@ + principal_text(key_principal@)
            + "?airdrop_amt=100"@,
{
    let mut s = String::new();
    push_text(&mut s, "/token/info/");
    push_text(&mut s, root);
    push_text(&mut s, "/");
    push_principal(&mut s, key_principal);
    push_text(&mut s, "?airdrop_amt=100");
    s
}

/// `/token/transfer/{root}`: the page that sends a token.
pub fn token_transfer_href(root: &str) -> (href: String)
    ensures
        href@ == "/token/transfer/"@ + root@,
{
    let mut s = String::new();
    push_text(&mut s, "/token/transfer/");
    push_text(&mut s, root);
    s
}

/// The referral link of a user: `{origin}/?user_refer={principal}`.
pub fn refer_link(origin: &str, user: &[u8]) -> (link: String)
    requires
        user@.len() <= PRINCIPAL_MAX_BYTES,
    ensures
        link@ == origin@ + "/?user_refer="@ + principal_text(user@),
{
    let mut s = String::new();
    push_text(&mut s, origin);
    push_text(&mut s, "/?user_refer=");
    push_principal(&mut s, user);
    s
}

/// The address a post is shared under: the site's origin and the post's
/// hot-or-not path.
pub fn video_share_url(origin: &str, canister: &[u8], post_id: u64) -> (url: String)
    requires
        canister@.len() <= PRINCIPAL_MAX_BYTES,
    ensures
        url@ == origin@ + hot_or_not_path_text(canister@, post_id),
{
    let mut s = String::new();
    push_text(&mut s, origin);
    let path = hot_or_not_path(canister, post_id);
    s.append(path.as_str());
    s
}

/// `/error?err={error}`: the error page, reporting `error`.
pub fn error_redirect(error: &str) -> (url: String)
    ensures
        url@ == "/error?err="@ + error@,
{
    let mut s = String::new();
    push_text(&mut s, "/error?err=");
    push_text(&mut s, error);
    s
}

/// Where a sats withdrawal ends: the success page, or the failure page
/// with the error.
pub fn sats_withdraw_result_url(sats: u128, error: Option<&str>) -> (url: String)
    ensures
        error is None ==> url@ == "/hot-or-not/withdraw/success?sats="@ + decimal_text(
            sats as nat,
        ),
        error matches Some(e) ==> url@ == "/hot-or-not/withdraw/failure?sats="@ + decimal_text(
            sats as nat,
        ) + "&err="@ + e@,
{
    let mut s = String::new();
    match error {
        None => {
            push_text(&mut s, "/hot-or-not/withdraw/success?sats=");
            push_decimal(&mut s, sats);
        },
        Some(e) => {
            push_text(&mut s, "/hot-or-not/withdraw/failure?sats=");
            push_decimal(&mut s, sats);
            push_text(&mut s, "&err=");
            push_text(&mut s, e);
        },
    }
    s
}

/// Where a cents withdrawal ends: the success page, or the failure page
/// with the error.
pub fn cents_withdraw_result_url(cents: u128, error: Option<&str>) -> (url: String)
    ensures
        error is None ==> url@ == "/pnd/withdraw/success?cents="@ + decimal_text(cents as nat),
        error matches Some(e) ==> url@ == "/pnd/withdraw/failure?cents="@ + decimal_text(
            cents as nat,
        ) + "&err="@ + e@,
{
    let mut s = String::new();
    match error {
        None => {
            push_text(&mut s, "/pnd/withdraw/success?cents=");
            push_decimal(&mut s, cents);
        },
        Some(e) => {
            push_text(&mut s, "/pnd/withdraw/failure?cents=");
            push_decimal(&mut s, cents);
            push_text(&mut s, "&err=");
            push_text(&mut s, e);
        },
    }
    s
}

/// The address the page reloads to after the NSFW setting changes.
pub fn nsfw_reload_url(nsfw_enabled: bool) -> (url: String)
    ensures
        nsfw_enabled ==> url@ == "/?nsfw=true"@,
        !nsfw_enabled ==> url@ == "/?nsfw=false"@,
{
    if nsfw_enabled {
        String::from_str("/?nsfw=true")
    } else {
        String::from_str("/?nsfw=false")
    }
}

/// The home tab is selected at the root and anywhere in the hot-or-not feed.
pub fn nav_home_selected(path: &str) -> (selected: bool)
    ensures
        selected == (path@ == "/"@ || seq_contains_seq(path@, "/hot-or-not"@)),
{
    text_eq(path, "/") || text_contains(path, "/hot-or-not")
}

/// The upload tab is selected on the upload page.
pub fn nav_upload_selected(path: &str) -> (selected: bool)
    ensures
        selected == (path@ == "/upload"@),
{
    text_eq(path, "/upload")
}

/// The menu tab is selected on the menu page.
pub fn nav_menu_selected(path: &str) -> (selected: bool)
    ensures
        selected == (path@ == "/menu"@),
{
    text_eq(path, "/menu")
}

/// Whether `path` lies under `{section}{user}`, the user given by the text
/// of their principal.
pub fn path_under_section(path: &str, section: &str, user_text: &str) -> (under: bool)
    ensures
        under == seq_starts_with(path@, section@ + user_text@),
{
    let mut prefix = String::new();
    push_text(&mut prefix, section);
    push_text(&mut prefix, user_text);
    text_starts_with(path, prefix.as_str())
}

/// Whether `path` lies under `{section}{user}` for a known user.
fn under_user_section(path: &str, section: &str, user: Option<&[u8]>) -> (under: bool)
    requires
        user matches Some(u) ==> u@.len() <= PRINCIPAL_MAX_BYTES,
    ensures
        user is None ==> !under,
        user matches Some(u) ==> under == seq_starts_with(path@, section@ + principal_text(u@)),
{
    match user {
        None => false,
        Some(u) => {
            let text = principal_to_text(u);
            path_under_section(path, section, text.as_str())
        },
    }
}

/// The wallet tab is selected only on the viewer's own wallet.
pub fn nav_wallet_selected(path: &str, user: Option<&[u8]>) -> (selected: bool)
    requires
        user matches Some(u) ==> u@.len() <= PRINCIPAL_MAX_BYTES,
    ensures
        user is None ==> !selected,
        user matches Some(u) ==> selected == seq_starts_with(
            path@,
            "/wallet/"@ + principal_text(u@),
        ),
{
    under_user_section(path, "/wallet/", user)
}

/// The profile tab is selected only on the viewer's own profile.
pub fn nav_profile_selected(path: &str, user: Option<&[u8]>) -> (selected: bool)
    requires
        user matches Some(u) ==> u@.len() <= PRINCIPAL_MAX_BYTES,
    ensures
        user is None ==> !selected,
        user matches Some(u) ==> selected == seq_starts_with(
            path@,
            "/profile/"@ + principal_text(u@),
        ),
{
    under_user_section(path, "/profile/", user)
}

/// Whether a path shows videos: the hot-or-not feed, or a post.
pub fn is_video_page(path: &str) -> (video: bool)
    ensures
        video == (seq_contains_seq(path@, "/hot-or-not/"@) || seq_contains_seq(path@, "/post/"@)
            || (seq_contains_seq(path@, "/profile/"@) && seq_contains_seq(path@, "/post/"@))),
{
    text_contains(path, "/hot-or-not/") || text_contains(path, "/post/") || (text_contains(
        path,
        "/profile/",
    ) && text_contains(path, "/post/"))
}


/// `/balance/{principal}`: where a game worker reports a balance.
pub fn worker_balance_path(owner: &[u8]) -> (path: String)
    requires
        owner@.len() <= PRINCIPAL_MAX_BYTES,
    ensures
        path@ == "/balance/"@ + principal_text(owner@),
{
    let mut s = String::new();
    push_text(&mut s, "/balance/");
    push_principal(&mut s, owner);
    s
}

/// `/earnings/{principal}`: where the pump-and-dump worker reports net
/// earnings.
pub fn worker_earnings_path(owner: &[u8]) -> (path: String)
    requires
        owner@.len() <= PRINCIPAL_MAX_BYTES,
    ensures
        path@ == "/earnings/"@ + principal_text(owner@),
{
    let mut s = String::new();
    push_text(&mut s, "/earnings/");
    push_principal(&mut s, owner);
    s
}


/// The message that shares a token: its symbol and the share link.
pub fn token_share_message(symbol: &str, share_link: &str) -> (message: String)
    ensures
        message@ == "Hey! Check out the token: "@ + symbol@ + " I created on YRAL 👇 "@ + share_link@
            + ". I just minted my own token—come see and create yours! 🚀 #YRAL #TokenMinter"@,
{
    let mut s = String::new();
    push_text(&mut s, "Hey! Check out the token: ");
    push_text(&mut s, symbol);
    push_text(&mut s, " I created on YRAL 👇 ");
    push_text(&mut s, share_link);
    push_text(&mut s, ". I just minted my own token—come see and create yours! 🚀 #YRAL #TokenMinter");
    s
}


/// The sats a new user gets on signing up.
pub const NEW_USER_SIGNUP_REWARD: u64 = 1000;

/// What the referral share says, with the sats a new user gets on signing
/// up and those a referral adds.
pub fn refer_share_text(signup_reward: u64, referral_reward: u64) -> (text: String)
    ensures
        text@ == "Join YRAL—the world's 1st social platform on BITCOIN\nGet FREE BITCOIN ("@
            + decimal_text(signup_reward as nat) + " SATS) Instantly\nAdditional BITCOIN ("@
            + decimal_text(referral_reward as nat) + " SATS) when you log in using the link."@,
{
    let mut s = String::new();
    push_text(&mut s, "Join YRAL—the world's 1st social platform on BITCOIN\nGet FREE BITCOIN (");
    push_decimal(&mut s, signup_reward as u128);
    push_text(&mut s, " SATS) Instantly\nAdditional BITCOIN (");
    push_decimal(&mut s, referral_reward as u128);
    push_text(&mut s, " SATS) when you log in using the link.");
    s
}

/// The last step of "How it works?": what both users earn.
pub fn refer_reward_step(referral_reward: u64) -> (text: String)
    ensures
        text@ == "You both earn Bitcoin ("@ + decimal_text(referral_reward as nat) + " SATS)"@,
{
    let mut s = String::new();
    push_text(&mut s, "You both earn Bitcoin (");
    push_decimal(&mut s, referral_reward as u128);
    push_text(&mut s, " SATS)");
    s
}


/// `/profile/{principal}/{tab}`: a tab of a user's profile.
pub fn profile_tab_url(user: &[u8], tab: &str) -> (url: String)
    requires
        user@.len() <= PRINCIPAL_MAX_BYTES,
    ensures
        url@ == "/profile/"@ + principal_text(user@) + "/"@ + tab@,
{
    let mut s = String::new();
    push_text(&mut s, "/profile/");
    push_principal(&mut s, user);
    push_text(&mut s, "/");
    push_text(&mut s, tab);
    s
}


/// `{worker}v3/vote/{principal}`: where the game worker takes a voter's
/// vote.
pub fn worker_vote_url(worker_url: &str, sender: &[u8]) -> (url: String)
    requires
        sender@.len() <= PRINCIPAL_MAX_BYTES,
    ensures
        url@ == worker_url@ + "v3/vote/"@ + principal_text(sender@),
{
    let mut s = String::new();
    push_text(&mut s, worker_url);
    push_text(&mut s, "v3/vote/");
    push_principal(&mut s, sender);
    s
}


/// A tab of the bottom navigation.
#[derive(Clone, Copy, PartialEq, Eq, Structural, Debug)]
pub enum NavKind {
    Home,
    Wallet,
    Upload,
    Profile,
    Menu,
}

/// A tab as the bar shows it: which it is, where it leads, and whether it
/// is selected.
#[derive(Clone, PartialEq, Eq, Debug)]
pub struct NavItem {
    pub kind: NavKind,
    pub href: String,
    pub selected: bool,
}

/// The link of the home tab.
pub open spec fn home_href_text(current: Option<PostParams>) -> Seq<char> {
    match current {
        Some(p) => hot_or_not_path_text(p.canister_id@, p.post_id),
        None => "/"@,
    }
}

/// Whether a path lies in a user's section, for a known user.
pub open spec fn in_user_section(path: Seq<char>, section: Seq<char>, user: Option<Seq<u8>>) -> bool {
    match user {
        Some(u) => seq_starts_with(path, section + principal_text(u)),
        None => false,
    }
}

/// The bottom navigation at `path`, for the user the principal cookie names
/// (if any) and the post being watched (if any): Home (back to that post,
/// else the root), Wallet (`/wallet`), Upload (`/upload`), Profile
/// (`/profile/token`) and Menu (`/menu`), in that order, each selected as
/// its predicate says.
pub fn yral_nav_items(path: &str, user: Option<&[u8]>, current: &Option<PostParams>) -> (items: Vec<
    NavItem,
>)
    requires
        user matches Some(u) ==> u@.len() <= PRINCIPAL_MAX_BYTES,
        current matches Some(p) ==> p.canister_id@.len() <= PRINCIPAL_MAX_BYTES,
    ensures
        items@.len() == 5,
        items@[0].kind == NavKind::Home,
        items@[0].href@ == home_href_text(*current),
        items@[0].selected == (path@ == "/"@ || seq_contains_seq(path@, "/hot-or-not"@)),
        items@[1].kind == NavKind::Wallet,
        items@[1].href@ == "/wallet"@,
        items@[1].selected == in_user_section(
            path@,
            "/wallet/"@,
            match user {
                Some(u) => Some(u@),
                None => None,
            },
        ),
        items@[2].kind == NavKind::Upload,
        items@[2].href@ == "/upload"@,
        items@[2].selected == (path@ == "/upload"@),
        items@[3].kind == NavKind::Profile,
        items@[3].href@ == "/profile/token"@,
        items@[3].selected == in_user_section(
            path@,
            "/profile/"@,
            match user {
                Some(u) => Some(u@),
                None => None,
            },
        ),
        items@[4].kind == NavKind::Menu,
        items@[4].href@ == "/menu"@,
        items@[4].selected == (path@ == "/menu"@),
{
    let mut items: Vec<NavItem> = Vec::new();
    items.push(NavItem { kind: NavKind::Home, href: home_href(current), selected: nav_home_selected(path) });
    items.push(NavItem {
        kind: NavKind::Wallet,
        href: String::from_str("/wallet"),
        selected: nav_wallet_selected(path, user),
    });
    items.push(NavItem {
        kind: NavKind::Upload,
        href: String::from_str("/upload"),
        selected: nav_upload_selected(path),
    });
    items.push(NavItem {
        kind: NavKind::Profile,
        href: String::from_str("/profile/token"),
        selected: nav_profile_selected(path, user),
    });
    items.push(NavItem {
        kind: NavKind::Menu,
        href: String::from_str("/menu"),
        selected: nav_menu_selected(path),
    });
    items
}

} // verus!
