//! The banner that shows a push notification while the app is open: it
//! slides in when a notification arrives and slides out after five seconds,
//! when closed, or when the notification is withdrawn.

use vstd::prelude::*;
use crate::text::text_eq;

verus! {

/// How long a banner stays before it slides out, in milliseconds.
pub const BANNER_TIMEOUT_MS: u32 = 5000;

/// What a notification says.
#[derive(Clone, PartialEq, Eq, Debug)]
pub struct NotificationPayload {
    pub title: String,
    pub body: String,
}

/// The banner: whether it shows, whether it is sliding out, and the
/// notification it shows, if the notification could be read.
#[derive(Clone, PartialEq, Eq, Debug)]
pub struct Banner {
    pub visible: bool,
    pub sliding_out: bool,
    pub current: Option<NotificationPayload>,
}

/// What happens to the banner.
#[derive(Clone, PartialEq, Eq, Debug)]
pub enum BannerEvent {
    /// A notification arrived; `None` when its payload could not be read.
    Arrived(Option<NotificationPayload>),
    /// The notification was withdrawn.
    Withdrawn,
    /// The banner's five seconds ran out.
    TimedOut,
    /// The viewer closed the banner.
    Closed,
    /// A CSS animation of the banner ended.
    AnimationEnded(String),
}

/// What the page must do after an event.
#[derive(Clone, Copy, PartialEq, Eq, Structural, Debug)]
pub enum BannerEffect {
    Nothing,
    /// Start the timer that fires `TimedOut` after `BANNER_TIMEOUT_MS`.
    StartTimer,
    /// Forget the notification that was shown.
    ClearNotification,
}

/// The name of the slide-out animation.
pub open spec fn slide_out_name() -> Seq<char> {
    "slideOut"@
}

/// The banner's invariant: it slides out only while it shows.
pub open spec fn banner_wf(b: Banner) -> bool {
    b.sliding_out ==> b.visible
}

/// The banner after a request to slide out: it starts sliding out if it
/// shows and is not sliding out already.
pub open spec fn start_slide_out(visible: bool, sliding_out: bool) -> bool {
    sliding_out || visible
}

/// The banner after an event.
pub open spec fn banner_after(b: Banner, event: BannerEvent) -> Banner {
    match event {
        BannerEvent::Arrived(p) => Banner { visible: true, sliding_out: false, current: p },
        BannerEvent::AnimationEnded(name) => if name@ == slide_out_name() {
            Banner { visible: false, sliding_out: false, current: None }
        } else {
            b
        },
        _ => Banner { sliding_out: start_slide_out(b.visible, b.sliding_out), ..b },
    }
}

/// What the page must do after an event.
pub open spec fn banner_effect(event: BannerEvent) -> BannerEffect {
    match event {
        BannerEvent::Arrived(_) => BannerEffect::StartTimer,
        BannerEvent::AnimationEnded(name) => if name@ == slide_out_name() {
            BannerEffect::ClearNotification
        } else {
            BannerEffect::Nothing
        },
        _ => BannerEffect::Nothing,
    }
}

impl Banner {
    /// The banner before any notification.
    pub fn hidden() -> (b: Banner)
        ensures
            !b.visible,
            !b.sliding_out,
            b.current is None,
            banner_wf(b),
    {
        Banner { visible: false, sliding_out: false, current: None }
    }

    /// Whether the banner slides in: while it shows and is not sliding out.
    pub fn sliding_in(&self) -> (sliding_in: bool)
        ensures
            sliding_in == (self.visible && !self.sliding_out),
    {
        self.visible && !self.sliding_out
    }

    /// The banner takes an event. A notification shows at once, in place of
    /// any other, and starts the timer; a withdrawal, the timeout and the
    /// close button start the slide-out of a banner that shows; the end of
    /// the slide-out animation hides the banner and forgets the
    /// notification; any other animation changes nothing.
    pub fn handle(&mut self, event: BannerEvent) -> (effect: BannerEffect)
        ensures
            *final(self) == banner_after(*old(self), event),
            effect == banner_effect(event),
            (event is TimedOut || event is Closed || event is Withdrawn) && old(self).visible
                ==> final(self).visible && final(self).sliding_out && final(self).current == old(
                self,
            ).current && effect == BannerEffect::Nothing,
            (event is TimedOut || event is Closed || event is Withdrawn) && !old(self).visible
                ==> *final(self) == *old(self) && effect == BannerEffect::Nothing,
            event matches BannerEvent::Arrived(p) ==> final(self).visible && !final(self).sliding_out
                && final(self).current == p && effect == BannerEffect::StartTimer,
    {
        match event {
            BannerEvent::Arrived(payload) => {
                self.current = payload;
                self.visible = true;
                self.sliding_out = false;
                BannerEffect::StartTimer
            },
            BannerEvent::Withdrawn | BannerEvent::TimedOut | BannerEvent::Closed => {
                if self.visible && !self.sliding_out {
                    self.sliding_out = true;
                }
                BannerEffect::Nothing
            },
            BannerEvent::AnimationEnded(name) => {
                proof {
                    reveal_strlit("slideOut");
                }
                if text_eq(name.as_str(), "slideOut") {
                    self.visible = false;
                    self.sliding_out = false;
                    self.current = None;
                    BannerEffect::ClearNotification
                } else {
                    BannerEffect::Nothing
                }
            },
        }
    }
}

/// Every event keeps the banner's invariant: it slides out only while it
/// shows.
pub proof fn law_banner_wf_kept(b: Banner, event: BannerEvent)
    requires
        banner_wf(b),
    ensures
        banner_wf(banner_after(b, event)),
{
}

/// Whatever the banner showed before, a notification that arrives is shown
/// sliding in; closing it starts the slide-out, and the end of the
/// slide-out leaves the banner hidden and empty.
pub proof fn law_arrive_close_hide(b: Banner, p: Option<NotificationPayload>, name: String)
    requires
        name@ == slide_out_name(),
    ensures
        ({
            let shown = banner_after(b, BannerEvent::Arrived(p));
            let closing = banner_after(shown, BannerEvent::Closed);
            let gone = banner_after(closing, BannerEvent::AnimationEnded(name));
            &&& shown.visible && !shown.sliding_out && shown.current == p
            &&& closing.visible && closing.sliding_out && closing.current == p
            &&& !gone.visible && !gone.sliding_out && gone.current is None
        }),
{
}


/// The timeout, the close button and a withdrawal each start the slide-out
/// of a banner that shows: it stays visible with its notification and is
/// sliding out. A hidden banner stays as it is, and one already sliding out
/// keeps sliding out. None of them asks the page to do anything.
pub proof fn law_dismissal_slides_out(b: Banner, event: BannerEvent)
    requires
        event is TimedOut || event is Closed || event is Withdrawn,
    ensures
        b.visible ==> banner_after(b, event).visible && banner_after(b, event).sliding_out
            && banner_after(b, event).current == b.current,
        !b.visible ==> banner_after(b, event) == b,
        banner_effect(event) == BannerEffect::Nothing,
{
}

/// A notification that arrives shows at once, not sliding out, with what
/// could be read of it, and starts the timer; the end of the slide-out
/// hides the banner, forgets the notification and clears it on the page.
pub proof fn law_arrival_and_slide_out_end(b: Banner, p: Option<NotificationPayload>, name: String)
    ensures
        banner_after(b, BannerEvent::Arrived(p)) == (Banner { visible: true, sliding_out: false, current: p }),
        banner_effect(BannerEvent::Arrived(p)) == BannerEffect::StartTimer,
        name@ == "slideOut"@ ==> banner_after(b, BannerEvent::AnimationEnded(name)) == (Banner {
            visible: false,
            sliding_out: false,
            current: None,
        }) && banner_effect(BannerEvent::AnimationEnded(name)) == BannerEffect::ClearNotification,
        name@ != "slideOut"@ ==> banner_after(b, BannerEvent::AnimationEnded(name)) == b
            && banner_effect(BannerEvent::AnimationEnded(name)) == BannerEffect::Nothing,
{
}

} // verus!
