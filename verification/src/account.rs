//! Signing in and the pages about an account: what follows a login, the
//! login buttons, the profile tabs, and who sees what on a profile or token.

use vstd::prelude::*;
use crate::principal::{PRINCIPAL_MAX_BYTES, principal_text};
use crate::text::{seq_starts_with, text_eq};
use crate::withdraw::same_principal;
use crate::routes::PostParams;

verus! {

/// The identity provider a login goes through.
#[derive(Clone, Copy, PartialEq, Eq, Structural, Debug)]
pub enum LoginProvider {
    Any,
    Google,
    Apple,
}

/// What must follow a login: the sign-up event on a first login, and a
/// referral reward to the referrer, on a first login only.
#[derive(Clone, PartialEq, Eq, Debug)]
pub struct LoginFollowups {
    pub signup: bool,
    pub referral_reward_to: Option<Vec<u8>>,
}

/// The follow-ups of a login.
pub fn login_followups(first_time_login: bool, referrer: Option<Vec<u8>>) -> (f: LoginFollowups)
    ensures
        f.signup == first_time_login,
        first_time_login ==> f.referral_reward_to == referrer,
        !first_time_login ==> f.referral_reward_to is None,
{
    let referral_reward_to = if first_time_login {
        referrer
    } else {
        None
    };
    LoginFollowups { signup: first_time_login, referral_reward_to }
}

/// Whether marking a user registered makes this their first login: only
/// when their session was not registered yet.
pub fn first_login_on_registration(session_registered: bool) -> (first: bool)
    ensures
        first == !session_registered,
{
    !session_registered
}

/// What marking a user registered reports, given whether their session was
/// registered and, when it was not, how the update to a registered session
/// went: no first login for a registered session (and no update); a first
/// login once the update succeeds; the update's error otherwise.
pub open spec fn registration_result(session_registered: bool, update: Result<(), Seq<char>>) -> Result<
    bool,
    Seq<char>,
> {
    if session_registered {
        Ok(false)
    } else {
        match update {
            Ok(()) => Ok(true),
            Err(e) => Err("failed to mark user as registered "@ + e),
        }
    }
}

/// Whether the session is registered after marking: it was, or the update
/// succeeded.
pub open spec fn registered_after(session_registered: bool, update: Result<(), Seq<char>>) -> bool {
    session_registered || update is Ok
}

/// How an update went, with its error as text.
pub open spec fn update_as_text(update: Result<(), &str>) -> Result<(), Seq<char>> {
    match update {
        Ok(()) => Ok(()),
        Err(e) => Err(e@),
    }
}

/// Whether marking a user registered runs the update: only for a session
/// not registered yet.
pub fn registration_needs_update(session_registered: bool) -> (update: bool)
    ensures
        update == !session_registered,
{
    !session_registered
}

/// What marking a user registered reports; `update` is how the update to a
/// registered session went, and is not looked at for a registered session.
pub fn registration_outcome(session_registered: bool, update: Result<(), &str>) -> (res: Result<
    bool,
    String,
>)
    ensures
        session_registered ==> res matches Ok(false),
        !session_registered ==> (update is Ok <==> res matches Ok(true)),
        !session_registered ==> (update matches Err(e) ==> (res matches Err(m) && m@
            == "failed to mark user as registered "@ + e@)),
        res matches Ok(b) ==> registration_result(session_registered, update_as_text(update))
            == Ok::<bool, Seq<char>>(b),
        res matches Err(m) ==> registration_result(session_registered, update_as_text(update))
            == Err::<bool, Seq<char>>(m@),
{
    if session_registered {
        return Ok(false);
    }
    match update {
        Ok(()) => Ok(true),
        Err(e) => {
            let mut m = String::from_str("failed to mark user as registered ");
            crate::text::push_text(&mut m, e);
            Err(m)
        },
    }
}

/// A user is reported as logging in for the first time at most once: after
/// a marking that succeeded, the session is registered, and every later
/// marking reports no first login and runs no update.
pub proof fn law_first_login_at_most_once(
    session_registered: bool,
    first: Result<(), Seq<char>>,
    later: Result<(), Seq<char>>,
)
    requires
        registration_result(session_registered, first) is Ok,
    ensures
        registered_after(session_registered, first),
        registration_result(registered_after(session_registered, first), later) == Ok::<
            bool,
            Seq<char>,
        >(false),
{
}

/// After connecting an account, the page moves on only when the principal
/// changed.
pub fn should_redirect_on_connect(old_principal: &[u8], new_principal: &[u8]) -> (redirect: bool)
    ensures
        redirect == (old_principal@ != new_principal@),
{
    !same_principal(old_principal, new_principal)
}

/// The label of a provider's login button: "Logging in with ..." while that
/// provider's login runs, else "Login with ...".
pub fn login_button_label(button: LoginProvider, signing_in: bool, selected: LoginProvider) -> (label:
    String)
    requires
        button != LoginProvider::Any,
    ensures
        signing_in && selected == button && button == LoginProvider::Google ==> label@
            == "Logging in with Google"@,
        signing_in && selected == button && button == LoginProvider::Apple ==> label@
            == "Logging in with Apple"@,
        !(signing_in && selected == button) && button == LoginProvider::Google ==> label@
            == "Login with Google"@,
        !(signing_in && selected == button) && button == LoginProvider::Apple ==> label@
            == "Login with Apple"@,
{
    let mut label = if signing_in && selected == button {
        String::from_str("Logging in with ")
    } else {
        String::from_str("Login with ")
    };
    if button == LoginProvider::Google {
        label.append("Google");
    } else {
        label.append("Apple");
    }
    proof {
        reveal_strlit("Logging in with ");
        reveal_strlit("Login with ");
        reveal_strlit("Google");
        reveal_strlit("Apple");
        reveal_strlit("Logging in with Google");
        reveal_strlit("Logging in with Apple");
        reveal_strlit("Login with Google");
        reveal_strlit("Login with Apple");
    }
    assert(label@ =~= (if signing_in && selected == button {
        "Logging in with "@
    } else {
        "Login with "@
    }) + (if button == LoginProvider::Google {
        "Google"@
    } else {
        "Apple"@
    }));
    label
}

/// The login button's text: "Connecting..." once pressed.
pub fn connect_button_text<'a>(show_login: bool, login_text: &'a str) -> (text: &'a str)
    ensures
        show_login ==> text@ == "Connecting..."@,
        !show_login ==> text@ == login_text@,
{
    if show_login {
        "Connecting..."
    } else {
        login_text
    }
}

/// The profile tab a route names: stakes, or posts for anything else.
pub fn profile_tab_index(tab: &str) -> (index: usize)
    ensures
        tab@ == "stakes"@ ==> index == 1,
        tab@ != "stakes"@ ==> index == 0,
{
    proof {
        reveal_strlit("posts");
        reveal_strlit("stakes");
        assert("posts"@.len() != "stakes"@.len());
    }
    if text_eq(tab, "posts") {
        0
    } else if text_eq(tab, "stakes") {
        1
    } else {
        0
    }
}

/// The settings page opens the delete popup for the `delete` action.
pub fn settings_show_delete_popup(action: &str) -> (show: bool)
    ensures
        show == (action@ == "delete"@),
{
    text_eq(action, "delete")
}

/// What an empty list of votes says: addressed to the viewer on their own
/// profile, about the user on another's.
pub fn speculation_empty_text(path: &str, user: &[u8]) -> (text: &'static str)
    requires
        user@.len() <= PRINCIPAL_MAX_BYTES,
    ensures
        seq_starts_with(path@, "/profile/"@ + principal_text(user@)) ==> text@
            == "You haven't placed any votes yet!"@,
        !seq_starts_with(path@, "/profile/"@ + principal_text(user@)) ==> text@
            == "Not played any games yet!"@,
{
    let p = crate::principal::principal_to_text(user);
    if crate::routes::path_under_section(path, "/profile/", p.as_str()) {
        "You haven't placed any votes yet!"
    } else {
        "Not played any games yet!"
    }
}

/// Whether a profile offers its own user the login button: to a viewer not
/// yet connected, on their own profile.
pub fn show_profile_login(is_connected: bool, viewer: &[u8], profile_user: &[u8]) -> (show: bool)
    ensures
        show == (!is_connected && viewer@ == profile_user@),
{
    !is_connected && same_principal(viewer, profile_user)
}

/// Whether a token page is viewed by the user its key names.
pub fn is_user_principal(user: &[u8], key_principal: Option<&[u8]>) -> (is_user: bool)
    ensures
        key_principal is None ==> !is_user,
        key_principal matches Some(k) ==> is_user == (k@ == user@),
{
    match key_principal {
        None => false,
        Some(k) => same_principal(k, user),
    }
}

/// Whether a token page shows the airdrop claim: when the link carries an
/// airdrop amount, the viewer has not claimed it, the key names the token's
/// owner, and the viewer is someone else.
pub fn show_token_airdrop(
    airdrop_requested: bool,
    viewer_claimed: bool,
    token_owner: Option<&[u8]>,
    key_principal: Option<&[u8]>,
    is_user: bool,
) -> (show: bool)
    ensures
        show == (airdrop_requested && !viewer_claimed && !is_user && (match (
            token_owner,
            key_principal,
        ) {
            (None, None) => true,
            (Some(o), Some(k)) => o@ == k@,
            _ => false,
        })),
{
    if !airdrop_requested || viewer_claimed || is_user {
        return false;
    }
    match (token_owner, key_principal) {
        (None, None) => true,
        (Some(o), Some(k)) => same_principal(o, k),
        _ => false,
    }
}

/// Who may seed content, as the menu learned it: whether they may, and
/// whose answer it is.
#[derive(Clone, PartialEq, Eq, Debug)]
pub struct SeedAuthorization {
    pub authorized: bool,
    pub principal: Vec<u8>,
}

/// The content importer has loaded for `user` once an answer about `user`
/// has arrived.
pub fn seed_answer_loaded(answer: &Option<SeedAuthorization>, user: &[u8]) -> (loaded: bool)
    ensures
        answer is None ==> !loaded,
        answer matches Some(a) ==> loaded == (a.principal@ == user@),
{
    match answer {
        None => false,
        Some(a) => same_principal(a.principal.as_slice(), user),
    }
}

/// The content importer shows when the answer allows seeding.
pub fn seed_allowed(answer: &Option<SeedAuthorization>) -> (allowed: bool)
    ensures
        answer is None ==> !allowed,
        answer matches Some(a) ==> allowed == a.authorized,
{
    match answer {
        None => false,
        Some(a) => a.authorized,
    }
}

/// Whether the menu's upload button shows: to a connected viewer allowed to
/// seed content.
pub fn show_seed_upload(answer: &Option<SeedAuthorization>, is_connected: bool) -> (show: bool)
    ensures
        show == ((answer matches Some(a) && a.authorized) && is_connected),
{
    seed_allowed(answer) && is_connected
}

/// Whether a post matches the one a route opens.
pub fn is_same_post(post: &PostParams, canister_id: &[u8], post_id: u64) -> (same: bool)
    ensures
        same == (post.canister_id@ == canister_id@ && post.post_id == post_id),
{
    same_principal(post.canister_id.as_slice(), canister_id) && post.post_id == post_id
}


/// Whether a login button is disabled: while any login runs, or when its
/// page disables it.
pub fn login_button_disabled(login_running: bool, disabled: bool) -> (off: bool)
    ensures
        off == (login_running || disabled),
{
    login_running || disabled
}

/// What a message to the page does while the login window is open.
#[derive(Clone, Copy, PartialEq, Eq, Structural, Debug)]
pub enum AuthMessageAction {
    /// Not from the app's own origin, or not text: ignore it.
    Ignore,
    /// Text that is not a signed-in identity: close the login window.
    ClosePopup,
    /// A signed-in identity: stop watching the window, close it, end the
    /// login, turn notifications off and sign in with the identity.
    Complete,
}

/// The decision on a message to the page while the login window is open.
pub fn auth_message_action(same_origin: bool, is_text: bool, carries_identity: bool) -> (action:
    AuthMessageAction)
    ensures
        !same_origin || !is_text ==> action == AuthMessageAction::Ignore,
        same_origin && is_text && !carries_identity ==> action == AuthMessageAction::ClosePopup,
        same_origin && is_text && carries_identity ==> action == AuthMessageAction::Complete,
{
    if !same_origin || !is_text {
        AuthMessageAction::Ignore
    } else if !carries_identity {
        AuthMessageAction::ClosePopup
    } else {
        AuthMessageAction::Complete
    }
}

/// The login is given up when the viewer closed the login window before it
/// was done; a login whose state is gone counts as done.
pub fn auth_window_abandoned(window_closed: bool, done: Option<bool>) -> (abandoned: bool)
    ensures
        abandoned == (window_closed && done == Some(false)),
{
    window_closed && match done {
        Some(d) => !d,
        None => false,
    }
}

/// Where the login window goes: the provider's login page, or the app's
/// error page with the reason the page could not be had.
pub fn auth_window_target(origin: &str, login_url: Result<&str, &str>) -> (target: String)
    ensures
        login_url matches Ok(u) ==> target@ == u@,
        login_url matches Err(e) ==> target@ == origin@ + "/error?err="@ + e@,
{
    match login_url {
        Ok(u) => String::from_str(u),
        Err(e) => {
            let mut s = String::new();
            crate::text::push_text(&mut s, origin);
            crate::text::push_text(&mut s, "/error?err=");
            crate::text::push_text(&mut s, e);
            s
        },
    }
}

/// What the video importer reports once a link is submitted: the error, or
/// "Submitted!".
pub fn import_result_text(error: Option<String>) -> (text: String)
    ensures
        error matches Some(e) ==> text@ == e@,
        error is None ==> text@ == "Submitted!"@,
{
    match error {
        Some(e) => e,
        None => String::from_str("Submitted!"),
    }
}


/// The menu opens the video importer at once when its link carries a
/// `text` to import and the viewer is connected.
pub fn show_import_modal(text: Option<&str>, is_connected: bool) -> (show: bool)
    ensures
        show == (text matches Some(t) && t@.len() > 0 && is_connected),
{
    match text {
        Some(t) => t.unicode_len() > 0 && is_connected,
        None => false,
    }
}


/// What the settings page shows for deleting the account.
#[derive(Clone, Copy, PartialEq, Eq, Structural, Debug)]
pub enum DeleteFlowView {
    /// Nothing: the flow is closed.
    Hidden,
    /// The popup that asks to confirm the deletion.
    Confirm,
    /// The login modal, which returns to `/settings/delete` once signed in.
    LoginFirst,
}

/// The account deletion flow: closed, or the confirmation for a signed-in
/// viewer, or a login for anyone else.
pub fn delete_flow_view(open: bool, authenticated: bool) -> (view: DeleteFlowView)
    ensures
        !open ==> view == DeleteFlowView::Hidden,
        open && authenticated ==> view == DeleteFlowView::Confirm,
        open && !authenticated ==> view == DeleteFlowView::LoginFirst,
{
    if !open {
        DeleteFlowView::Hidden
    } else if authenticated {
        DeleteFlowView::Confirm
    } else {
        DeleteFlowView::LoginFirst
    }
}

/// Where the login asked for by the deletion flow returns.
pub fn delete_login_redirect() -> (path: &'static str)
    ensures
        path@ == "/settings/delete"@,
{
    "/settings/delete"
}

/// Where the page goes once the deletion ran: to log out, or to the error
/// page with the reason it failed.
pub fn delete_result_target(error: Option<&str>) -> (target: String)
    ensures
        error is None ==> target@ == "/logout"@,
        error matches Some(e) ==> target@ == "/error?err="@ + e@,
{
    match error {
        None => String::from_str("/logout"),
        Some(e) => crate::routes::error_redirect(e),
    }
}

/// The confirm button's text: "Deleting..." while the deletion runs.
pub fn delete_button_text(is_deleting: bool) -> (text: &'static str)
    ensures
        is_deleting ==> text@ == "Deleting..."@,
        !is_deleting ==> text@ == "Yes, Delete"@,
{
    if is_deleting {
        "Deleting..."
    } else {
        "Yes, Delete"
    }
}


/// The look of a profile tab: highlighted when it is the tab shown.
pub fn profile_tab_class(tab: usize, current: usize) -> (class: &'static str)
    ensures
        tab == current ==> class@
            == "text-primary-500 border-b-4 border-primary-500 flex justify-center w-full py-2"@,
        tab != current ==> class@ == "text-white flex justify-center w-full py-2"@,
{
    if tab == current {
        "text-primary-500 border-b-4 border-primary-500 flex justify-center w-full py-2"
    } else {
        "text-white flex justify-center w-full py-2"
    }
}

/// What the welcome popup says a new user was credited.
pub fn credited_bitcoin_text(sats: u64) -> (text: String)
    ensures
        text@ == "Bitcoin ("@ + crate::text::decimal_text(sats as nat) + " SATS)"@,
{
    let mut s = String::from_str("Bitcoin (");
    crate::text::push_decimal(&mut s, sats as u128);
    crate::text::push_text(&mut s, " SATS)");
    s
}

/// Whether the account-connected cookie says the account is connected: only
/// when it holds "true".
pub fn account_connected_from_cookie(value: Option<&str>) -> (connected: bool)
    ensures
        connected == (value matches Some(v) && v@ == "true"@),
{
    match value {
        Some(v) => text_eq(v, "true"),
        None => false,
    }
}


/// How the request to delete the account went: done on a success status
/// (200 to 299), otherwise an error naming the status as the client writes
/// it (`status_text`, such as "404 Not Found").
pub fn delete_user_outcome(status: u16, status_text: &str) -> (res: Result<(), String>)
    ensures
        (200 <= status < 300) <==> res is Ok,
        !(200 <= status < 300) ==> (res matches Err(m) && m@ == "Delete user failed with status: "@
            + status_text@),
{
    if 200 <= status && status < 300 {
        Ok(())
    } else {
        let mut m = String::from_str("Delete user failed with status: ");
        crate::text::push_text(&mut m, status_text);
        Err(m)
    }
}

} // verus!
