//! Playing posts: which video of the feed plays, and what opening a single
//! post leads to.

use vstd::prelude::*;

verus! {

/// What a video of the feed does when the viewer's position changes.
#[derive(Clone, Copy, PartialEq, Eq, Structural, Debug)]
pub enum PlaybackAction {
    Nothing,
    /// Start playing, with autoplay on.
    Play,
    /// Pause.
    Pause,
}

/// A video's next step and whether it counts as playing after it.
#[derive(Clone, Copy, PartialEq, Eq, Structural, Debug)]
pub struct PlaybackStep {
    pub action: PlaybackAction,
    pub playing: bool,
}

/// The step of the video in slot `idx` when the viewer is at `current`: a
/// video that stops being current pauses if it was playing; the current
/// video starts playing unless it already does.
pub open spec fn playback_next(idx: usize, current: usize, playing: bool) -> PlaybackStep {
    if idx != current {
        PlaybackStep {
            action: if playing { PlaybackAction::Pause } else { PlaybackAction::Nothing },
            playing: false,
        }
    } else {
        PlaybackStep {
            action: if playing { PlaybackAction::Nothing } else { PlaybackAction::Play },
            playing: true,
        }
    }
}

/// The step of the video in slot `idx` when the viewer is at `current`.
pub fn playback_step(idx: usize, current: usize, playing: bool) -> (step: PlaybackStep)
    ensures
        step == playback_next(idx, current, playing),
        idx != current && playing ==> step.action == PlaybackAction::Pause,
        idx == current && !playing ==> step.action == PlaybackAction::Play,
        (idx != current && !playing) || (idx == current && playing) ==> step.action
            == PlaybackAction::Nothing,
        step.playing == (idx == current),
{
    if idx != current {
        if playing {
            PlaybackStep { action: PlaybackAction::Pause, playing: false }
        } else {
            PlaybackStep { action: PlaybackAction::Nothing, playing: false }
        }
    } else if !playing {
        PlaybackStep { action: PlaybackAction::Play, playing: true }
    } else {
        PlaybackStep { action: PlaybackAction::Nothing, playing: true }
    }
}

/// Any video that is not the current one and was playing is paused,
/// whichever side of the viewer it lies on; the current video starts when
/// it was not playing; nothing else is done; and afterwards exactly the
/// current video counts as playing.
pub proof fn law_only_current_plays(idx: usize, current: usize, playing: bool)
    ensures
        idx != current && playing ==> playback_next(idx, current, playing).action
            == PlaybackAction::Pause,
        idx == current && !playing ==> playback_next(idx, current, playing).action
            == PlaybackAction::Play,
        (idx != current && !playing) || (idx == current && playing) ==> playback_next(
            idx,
            current,
            playing,
        ).action == PlaybackAction::Nothing,
        playback_next(idx, current, playing).playing == (idx == current),
{
}

/// Whatever a video did before, after its step it plays exactly when it is
/// current, and a second step at the same position does nothing.
pub proof fn law_playback_settles(idx: usize, current: usize, playing: bool)
    ensures
        playback_next(idx, current, playing).playing == (idx == current),
        playback_next(idx, current, playback_next(idx, current, playing).playing).action
            == PlaybackAction::Nothing,
{
}

/// Why a single post cannot be shown.
#[derive(Clone, PartialEq, Eq, Debug)]
pub enum PostFetchError {
    /// The link does not name a post.
    Invalid,
    /// The post does not exist (any more).
    Unavailable,
    /// Looking the post up failed.
    GetUid(String),
}

/// The post a single-post link shows: refused when the link names no post,
/// when the lookup failed, or when the post does not exist.
pub fn single_post_result<P>(link_valid: bool, lookup: Result<Option<P>, String>) -> (res: Result<
    P,
    PostFetchError,
>)
    ensures
        !link_valid ==> res == Err::<P, PostFetchError>(PostFetchError::Invalid),
        link_valid ==> (lookup matches Err(e) ==> (res matches Err(PostFetchError::GetUid(m))
            && m@ == e@)),
        link_valid ==> (lookup matches Ok(None) ==> res == Err::<P, PostFetchError>(
            PostFetchError::Unavailable,
        )),
        link_valid ==> (lookup matches Ok(Some(p)) ==> res == Ok::<P, PostFetchError>(p)),
{
    if !link_valid {
        return Err(PostFetchError::Invalid);
    }
    match lookup {
        Err(e) => Err(PostFetchError::GetUid(e)),
        Ok(None) => Err(PostFetchError::Unavailable),
        Ok(Some(p)) => Ok(p),
    }
}

/// Where a refused single post leads: home for a link that names no post,
/// the error page for a failed lookup, and nowhere (the page says the post
/// is unavailable) for a post that does not exist.
pub fn post_fetch_redirect(e: &PostFetchError) -> (target: Option<String>)
    ensures
        *e == PostFetchError::Invalid ==> (target matches Some(t) && t@ == "/"@),
        e matches PostFetchError::GetUid(m) ==> (target matches Some(t) && t@ == "/error?err="@
            + m@),
        *e == PostFetchError::Unavailable ==> target is None,
{
    match e {
        PostFetchError::Invalid => Some(String::from_str("/")),
        PostFetchError::Unavailable => None,
        PostFetchError::GetUid(m) => Some(crate::routes::error_redirect(m.as_str())),
    }
}

} // verus!
