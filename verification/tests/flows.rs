use yral_ssr::{
    Banner, BannerEffect, BannerEvent, FeedSlot, NotificationPayload, OnboardingButton,
    OnboardingMove, PlaybackAction, PlaybackStep, PostFetchError, ProfilePostsContext,
    onboarding_arrow, onboarding_backdrop, onboarding_body, onboarding_header, onboarding_press,
    onboarding_shows, playback_step, post_fetch_redirect, single_post_result,
};

#[test]
fn tutorial_pages_in_order() {
    assert!(onboarding_shows(1, OnboardingButton::StartTutorial));
    assert!(onboarding_shows(1, OnboardingButton::MaybeLater));
    assert!(!onboarding_shows(1, OnboardingButton::Next));
    assert!(onboarding_shows(3, OnboardingButton::Previous));
    assert!(onboarding_shows(5, OnboardingButton::Finish));
    assert!(!onboarding_shows(5, OnboardingButton::Previous));
    assert_eq!(onboarding_press(1, OnboardingButton::StartTutorial), OnboardingMove::Show(2));
    assert_eq!(onboarding_press(2, OnboardingButton::Next), OnboardingMove::Show(3));
    assert_eq!(onboarding_press(4, OnboardingButton::Next), OnboardingMove::Show(5));
    assert_eq!(onboarding_press(2, OnboardingButton::Previous), OnboardingMove::Show(1));
    assert_eq!(onboarding_press(3, OnboardingButton::Close), OnboardingMove::Dismiss);
    assert_eq!(onboarding_press(1, OnboardingButton::MaybeLater), OnboardingMove::Dismiss);
    assert_eq!(onboarding_press(5, OnboardingButton::Finish), OnboardingMove::Dismiss);
}

#[test]
fn tutorial_next_then_previous_returns() {
    for page in 2..4 {
        let OnboardingMove::Show(next) = onboarding_press(page, OnboardingButton::Next) else {
            panic!("next leaves the tutorial");
        };
        assert_eq!(onboarding_press(next, OnboardingButton::Previous), OnboardingMove::Show(page));
    }
}

#[test]
fn tutorial_page_contents() {
    assert_eq!(onboarding_header(2), "Select your bet amount");
    assert_eq!(onboarding_header(4), "Place your first bet");
    assert_eq!(
        onboarding_body(3),
        "Do you think the video will be popular? Click 'Hot' and place your bet"
    );
    assert_eq!(onboarding_arrow(4), "/img/common/decorator/not_arrow.svg");
    assert_eq!(onboarding_backdrop(1), "");
    assert_eq!(onboarding_backdrop(5), "");
    assert!(onboarding_backdrop(2).contains("calc(100% - 148px)"));
}

fn payload(title: &str) -> NotificationPayload {
    NotificationPayload { title: title.to_string(), body: "b".to_string() }
}

#[test]
fn banner_arrives_closes_and_hides() {
    let mut b = Banner::hidden();
    assert_eq!(b.handle(BannerEvent::Arrived(Some(payload("t")))), BannerEffect::StartTimer);
    assert!(b.visible && !b.sliding_out && b.sliding_in());
    assert_eq!(b.current, Some(payload("t")));
    assert_eq!(b.handle(BannerEvent::Closed), BannerEffect::Nothing);
    assert!(b.visible && b.sliding_out && !b.sliding_in());
    assert_eq!(b.handle(BannerEvent::AnimationEnded("slideIn".to_string())), BannerEffect::Nothing);
    assert!(b.visible);
    assert_eq!(
        b.handle(BannerEvent::AnimationEnded("slideOut".to_string())),
        BannerEffect::ClearNotification
    );
    assert_eq!(b, Banner::hidden());
}

#[test]
fn banner_ignores_timeout_when_hidden() {
    let mut b = Banner::hidden();
    assert_eq!(b.handle(BannerEvent::TimedOut), BannerEffect::Nothing);
    assert_eq!(b, Banner::hidden());
    assert_eq!(b.handle(BannerEvent::Arrived(None)), BannerEffect::StartTimer);
    assert!(b.visible && b.current.is_none());
    b.handle(BannerEvent::Withdrawn);
    assert!(b.sliding_out);
    b.handle(BannerEvent::Arrived(Some(payload("n"))));
    assert!(b.visible && !b.sliding_out);
}

#[test]
fn only_the_current_video_plays() {
    assert_eq!(playback_step(3, 3, false), PlaybackStep { action: PlaybackAction::Play, playing: true });
    assert_eq!(playback_step(3, 3, true), PlaybackStep { action: PlaybackAction::Nothing, playing: true });
    assert_eq!(playback_step(2, 3, true), PlaybackStep { action: PlaybackAction::Pause, playing: false });
    assert_eq!(playback_step(2, 3, false), PlaybackStep { action: PlaybackAction::Nothing, playing: false });
}

#[test]
fn single_post_outcomes() {
    assert_eq!(single_post_result::<u64>(false, Ok(Some(1))), Err(PostFetchError::Invalid));
    assert_eq!(single_post_result::<u64>(true, Ok(Some(1))), Ok(1));
    assert_eq!(single_post_result::<u64>(true, Ok(None)), Err(PostFetchError::Unavailable));
    assert_eq!(
        single_post_result::<u64>(true, Err("boom".to_string())),
        Err(PostFetchError::GetUid("boom".to_string()))
    );
    assert_eq!(post_fetch_redirect(&PostFetchError::Invalid), Some("/".to_string()));
    assert_eq!(post_fetch_redirect(&PostFetchError::Unavailable), None);
    assert_eq!(
        post_fetch_redirect(&PostFetchError::GetUid("x".to_string())),
        Some("/error?err=x".to_string())
    );
}

#[test]
fn profile_context_starts_empty_and_resets() {
    let mut ctx = ProfilePostsContext::with_slots(4);
    assert_eq!(ctx.queue_len(), 0);
    assert_eq!(ctx.start_index(), 0);
    assert_eq!(ctx.current_index(), 0);
    assert!(!ctx.queue_end());
    assert_eq!(ctx.slot(3), FeedSlot { key: 3, value: None });
    ctx.reset_for_profile();
    assert_eq!(ctx.queue_len(), 0);
    assert_eq!(ctx.start_index(), 0);
    assert_eq!(ctx.slot(0), FeedSlot { key: 0, value: None });
}
