//! The overlay on a playing post: liking it, the NSFW switch, and the bet
//! result shown after a game.

use vstd::prelude::*;

verus! {

/// Whether the viewer likes the post (not known until loaded), and how many
/// likes it has.
#[derive(Clone, Copy, PartialEq, Eq, Structural, Debug)]
pub struct LikeState {
    pub liked: Option<bool>,
    pub likes: u64,
}

/// Whether a like state counts as liked: unknown counts as not liked.
pub open spec fn counts_as_liked(s: LikeState) -> bool {
    s.liked == Some(true)
}

/// Whether toggling a like state stays within its counter.
pub open spec fn can_toggle(s: LikeState) -> bool {
    if counts_as_liked(s) {
        s.likes > 0
    } else {
        s.likes < u64::MAX
    }
}

/// The state after the viewer taps the heart: the post flips between liked
/// and not liked, and the count follows.
pub open spec fn toggled(s: LikeState) -> LikeState {
    LikeState {
        liked: Some(!counts_as_liked(s)),
        likes: if counts_as_liked(s) {
            (s.likes - 1) as u64
        } else {
            (s.likes + 1) as u64
        },
    }
}

impl LikeState {
    /// The state of a post whose like status is known.
    pub open spec fn loaded_spec(liked: bool, likes: u64) -> LikeState {
        LikeState { liked: Some(liked), likes }
    }

    /// The state of a post whose like status has been loaded.
    pub fn loaded(liked: bool, likes: u64) -> (s: LikeState)
        ensures
            s == LikeState::loaded_spec(liked, likes),
            s.liked == Some(liked),
            s.likes == likes,
    {
        LikeState { liked: Some(liked), likes }
    }

    /// The viewer taps the heart: the post flips between liked and not
    /// liked, and the count follows. Says whether the post is now liked.
    pub fn toggle(&mut self) -> (should_like: bool)
        requires
            can_toggle(*old(self)),
        ensures
            should_like == !counts_as_liked(*old(self)),
            *final(self) == toggled(*old(self)),
            should_like == (old(self).liked != Some(true)),
            old(self).liked == Some(true) ==> final(self).liked == Some(false) && final(self).likes
                == old(self).likes - 1,
            old(self).liked != Some(true) ==> final(self).liked == Some(true) && final(self).likes
                == old(self).likes + 1,
    {
        let current = match self.liked {
            Some(l) => l,
            None => false,
        };
        self.liked = Some(!current);
        if !current {
            self.likes = self.likes + 1;
        } else {
            self.likes = self.likes - 1;
        }
        !current
    }

    /// The backend refused the toggle: the like flag flips back; the count
    /// stays as it is.
    pub fn revert_flag(&mut self)
        ensures
            old(self).liked matches Some(l) ==> final(self).liked == Some(!l),
            old(self).liked is None ==> final(self).liked is None,
            final(self).likes == old(self).likes,
    {
        self.liked = match self.liked {
            Some(l) => Some(!l),
            None => None,
        };
    }
}

/// Tapping the heart twice leaves the count where it was, and the post liked
/// exactly when it counted as liked before.
pub proof fn law_double_toggle(s: LikeState)
    requires
        can_toggle(s),
    ensures
        can_toggle(toggled(s)),
        toggled(toggled(s)) == (LikeState { liked: Some(counts_as_liked(s)), likes: s.likes }),
{
}

/// What tapping the NSFW switch does.
#[derive(Clone, Copy, PartialEq, Eq, Structural, Debug)]
pub enum NsfwAction {
    /// Nothing: this host always shows NSFW posts.
    Nothing,
    /// Ask the viewer to confirm they may see NSFW posts.
    AskPermission,
    /// The viewer confirmed: hide the question, turn NSFW on, reload.
    Enable,
    /// Turn NSFW off and reload.
    Disable,
}

/// The NSFW switch's decision.
pub fn nsfw_click(host_shows_nsfw: bool, nsfw_enabled: bool, permission_shown: bool) -> (action:
    NsfwAction)
    ensures
        host_shows_nsfw ==> action == NsfwAction::Nothing,
        !host_shows_nsfw && !nsfw_enabled && !permission_shown ==> action
            == NsfwAction::AskPermission,
        !host_shows_nsfw && !nsfw_enabled && permission_shown ==> action == NsfwAction::Enable,
        !host_shows_nsfw && nsfw_enabled ==> action == NsfwAction::Disable,
{
    if host_shows_nsfw {
        NsfwAction::Nothing
    } else if !nsfw_enabled && !permission_shown {
        NsfwAction::AskPermission
    } else if !nsfw_enabled && permission_shown {
        NsfwAction::Enable
    } else {
        NsfwAction::Disable
    }
}

/// Whether NSFW posts show: always on a host that shows them, else as the
/// viewer chose.
pub fn nsfw_shown(host_shows_nsfw: bool, nsfw_enabled: bool) -> (shown: bool)
    ensures
        shown == (host_shows_nsfw || nsfw_enabled),
{
    host_shows_nsfw || nsfw_enabled
}

/// How a finished game went for the viewer.
#[derive(Clone, Copy, PartialEq, Eq, Structural, Debug)]
pub enum GameOutcome {
    Win { win_amount: u128 },
    Loss { lose_amount: u128 },
}

/// The question mark beside a result pings until the viewer has seen the
/// help, and never beside a win.
pub fn show_help_ping(ping_pending: bool, outcome: GameOutcome) -> (ping: bool)
    ensures
        ping == (ping_pending && outcome is Loss),
{
    ping_pending && match outcome {
        GameOutcome::Win { .. } => false,
        GameOutcome::Loss { .. } => true,
    }
}

/// The welcome popup shows to a viewer who has not seen it and is not
/// signed in.
pub fn show_onboarding_popup(has_seen_onboarding: bool, logged_in: bool) -> (show: bool)
    ensures
        show == (!has_seen_onboarding && !logged_in),
{
    !has_seen_onboarding && !logged_in
}


/// The heart shown beside the likes: filled once the viewer likes the post.
pub fn heart_icon(liked: Option<bool>) -> (path: &'static str)
    ensures
        liked == Some(true) ==> path@ == "/img/heart-icon-liked.svg"@,
        liked != Some(true) ==> path@ == "/img/heart-icon-white.svg"@,
{
    match liked {
        Some(true) => "/img/heart-icon-liked.svg",
        _ => "/img/heart-icon-white.svg",
    }
}

/// The like status a post starts with: the one the post carries, else the
/// one fetched for the viewer, else not liked with the count shown so far.
pub fn initial_like_info(
    carried: Option<bool>,
    carried_likes: u64,
    fetched: Option<(bool, u64)>,
    shown_likes: u64,
) -> (s: LikeState)
    ensures
        carried matches Some(l) ==> s == LikeState::loaded_spec(l, carried_likes),
        carried matches Some(l) ==> s.liked == Some(l) && s.likes == carried_likes,
        carried is None ==> (fetched matches Some(f) ==> s.liked == Some(f.0) && s.likes == f.1),
        carried is None && fetched is None ==> s.liked == Some(false) && s.likes == shown_likes,
        carried is None ==> (fetched matches Some(f) ==> s == LikeState::loaded_spec(f.0, f.1)),
        carried is None && fetched is None ==> s == LikeState::loaded_spec(false, shown_likes),
{
    match carried {
        Some(l) => LikeState::loaded(l, carried_likes),
        None => match fetched {
            Some(f) => LikeState::loaded(f.0, f.1),
            None => LikeState::loaded(false, shown_likes),
        },
    }
}

/// The image of the NSFW switch: on while NSFW posts show.
pub fn nsfw_toggle_image(shown: bool) -> (path: &'static str)
    ensures
        shown ==> path@ == "/img/yral/nsfw/nsfw-toggle-on.webp"@,
        !shown ==> path@ == "/img/yral/nsfw/nsfw-toggle-off.webp"@,
{
    if shown {
        "/img/yral/nsfw/nsfw-toggle-on.webp"
    } else {
        "/img/yral/nsfw/nsfw-toggle-off.webp"
    }
}


/// A loaded like state keeps the status and the count it was given.
pub proof fn law_loaded_keeps_status(liked: bool, likes: u64)
    ensures
        LikeState::loaded_spec(liked, likes).liked == Some(liked),
        LikeState::loaded_spec(liked, likes).likes == likes,
        counts_as_liked(LikeState::loaded_spec(liked, likes)) == liked,
{
}

/// Tapping the heart likes a post not counted as liked, adding one like,
/// and unlikes a liked one, taking one away; a post whose status is not
/// known yet counts as not liked.
pub proof fn law_toggle_flips_and_counts(s: LikeState)
    requires
        can_toggle(s),
    ensures
        s.liked == Some(true) ==> toggled(s).liked == Some(false) && toggled(s).likes == s.likes - 1,
        s.liked != Some(true) ==> toggled(s).liked == Some(true) && toggled(s).likes == s.likes + 1,
{
}

} // verus!
