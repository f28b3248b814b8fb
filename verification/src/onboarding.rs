//! The hot-or-not tutorial: a pager of five pages, from the welcome page
//! through three pages on betting to the closing page.

use vstd::prelude::*;

verus! {

/// The welcome page.
pub const ONBOARDING_FIRST_PAGE: i32 = 1;

/// The closing page.
pub const ONBOARDING_LAST_PAGE: i32 = 5;

/// A button of the tutorial.
#[derive(Clone, Copy, PartialEq, Eq, Structural, Debug)]
pub enum OnboardingButton {
    /// "Start Tutorial", on the welcome page.
    StartTutorial,
    /// "Maybe Later", on the welcome page.
    MaybeLater,
    /// The cross in the corner of the betting pages.
    Close,
    /// "Next", on the betting pages.
    Next,
    /// "Previous", on the betting pages.
    Previous,
    /// "Let's make some money", on the closing page.
    Finish,
}

/// Where a press leads: to a page, or out of the tutorial.
#[derive(Clone, Copy, PartialEq, Eq, Structural, Debug)]
pub enum OnboardingMove {
    Show(i32),
    Dismiss,
}

/// A page of the tutorial.
pub open spec fn is_onboarding_page(page: int) -> bool {
    ONBOARDING_FIRST_PAGE <= page <= ONBOARDING_LAST_PAGE
}

/// A page on betting: the second to the fourth.
pub open spec fn is_betting_page(page: int) -> bool {
    2 <= page <= 4
}

/// The buttons a page shows.
pub open spec fn shows_button(page: int, button: OnboardingButton) -> bool {
    match button {
        OnboardingButton::StartTutorial | OnboardingButton::MaybeLater => page == ONBOARDING_FIRST_PAGE,
        OnboardingButton::Close | OnboardingButton::Next | OnboardingButton::Previous => is_betting_page(page),
        OnboardingButton::Finish => page == ONBOARDING_LAST_PAGE,
    }
}

/// Where pressing a button that a page shows leads.
pub open spec fn press_result(page: int, button: OnboardingButton) -> OnboardingMove {
    match button {
        OnboardingButton::StartTutorial => OnboardingMove::Show(2),
        OnboardingButton::Next => OnboardingMove::Show((page + 1) as i32),
        OnboardingButton::Previous => OnboardingMove::Show((page - 1) as i32),
        _ => OnboardingMove::Dismiss,
    }
}

/// Whether a page shows a button.
pub fn onboarding_shows(page: i32, button: OnboardingButton) -> (shown: bool)
    ensures
        shown == shows_button(page as int, button),
        (button == OnboardingButton::StartTutorial || button == OnboardingButton::MaybeLater) ==> shown
            == (page == 1),
        (button == OnboardingButton::Close || button == OnboardingButton::Next || button
            == OnboardingButton::Previous) ==> shown == (2 <= page <= 4),
        button == OnboardingButton::Finish ==> shown == (page == 5),
{
    match button {
        OnboardingButton::StartTutorial | OnboardingButton::MaybeLater => page == ONBOARDING_FIRST_PAGE,
        OnboardingButton::Close | OnboardingButton::Next | OnboardingButton::Previous => 2 <= page
            && page <= 4,
        OnboardingButton::Finish => page == ONBOARDING_LAST_PAGE,
    }
}

/// Pressing a button on a page: "Start Tutorial" opens the second page,
/// "Next" and "Previous" turn one page on or back, and the others leave the
/// tutorial.
pub fn onboarding_press(page: i32, button: OnboardingButton) -> (next: OnboardingMove)
    requires
        is_onboarding_page(page as int),
        shows_button(page as int, button),
    ensures
        next == press_result(page as int, button),
        next matches OnboardingMove::Show(p) ==> is_onboarding_page(p as int),
        button == OnboardingButton::StartTutorial ==> next == OnboardingMove::Show(2),
        button == OnboardingButton::Next ==> next == OnboardingMove::Show((page + 1) as i32),
        button == OnboardingButton::Previous ==> next == OnboardingMove::Show((page - 1) as i32),
        (button == OnboardingButton::MaybeLater || button == OnboardingButton::Close || button
            == OnboardingButton::Finish) ==> next == OnboardingMove::Dismiss,
{
    match button {
        OnboardingButton::StartTutorial => OnboardingMove::Show(2),
        OnboardingButton::Next => OnboardingMove::Show(page + 1),
        OnboardingButton::Previous => OnboardingMove::Show(page - 1),
        _ => OnboardingMove::Dismiss,
    }
}

/// Turning a betting page on and back, or back and on, returns to it: "Next"
/// then "Previous" from the second and third pages, and "Previous" then
/// "Next" from the third and fourth ("Start Tutorial" stands for "Next" on
/// the welcome page).
pub proof fn law_next_then_previous(page: int)
    requires
        is_betting_page(page),
    ensures
        page < 4 ==> press_result(page, OnboardingButton::Next) == OnboardingMove::Show(
            (page + 1) as i32,
        ) && shows_button(page + 1, OnboardingButton::Previous) && press_result(
            page + 1,
            OnboardingButton::Previous,
        ) == OnboardingMove::Show(page as i32),
        page > 2 ==> shows_button(page - 1, OnboardingButton::Next) && press_result(
            page - 1,
            OnboardingButton::Next,
        ) == OnboardingMove::Show(page as i32),
        page == 2 ==> press_result(page, OnboardingButton::Previous) == OnboardingMove::Show(
            ONBOARDING_FIRST_PAGE,
        ) && press_result(ONBOARDING_FIRST_PAGE as int, OnboardingButton::StartTutorial)
            == OnboardingMove::Show(page as i32),
{
}

/// Every press on a page leads to a page of the tutorial or out of it.
pub proof fn law_pages_stay_in_range(page: int, button: OnboardingButton)
    requires
        is_onboarding_page(page),
        shows_button(page, button),
    ensures
        press_result(page, button) matches OnboardingMove::Show(p) ==> is_onboarding_page(p as int),
{
}

/// The backdrop of a page: a dimmed screen with a window over the coin on
/// the second page, over "Hot" on the third and over "Not" on the fourth.
pub fn onboarding_backdrop(page: i32) -> (style: &'static str)
    ensures
        page == 2 ==> style@ == "background: radial-gradient(circle at 50% calc(100% - 148px), transparent 40px, rgba(0, 0, 0, 0.7) 37px);"@,
        page == 3 ==> style@ == "background: radial-gradient(circle at calc(50% - 90px) calc(100% - 130px), transparent 56px, rgba(0, 0, 0, 0.7) 51px);"@,
        page == 4 ==> style@ == "background: radial-gradient(circle at calc(50% + 90px) calc(100% - 130px), transparent 56px, rgba(0, 0, 0, 0.7) 51px);"@,
        !is_betting_page(page as int) ==> style@ == ""@,
{
    if page == 2 {
        "background: radial-gradient(circle at 50% calc(100% - 148px), transparent 40px, rgba(0, 0, 0, 0.7) 37px);"
    } else if page == 3 {
        "background: radial-gradient(circle at calc(50% - 90px) calc(100% - 130px), transparent 56px, rgba(0, 0, 0, 0.7) 51px);"
    } else if page == 4 {
        "background: radial-gradient(circle at calc(50% + 90px) calc(100% - 130px), transparent 56px, rgba(0, 0, 0, 0.7) 51px);"
    } else {
        ""
    }
}

/// The heading of a betting page.
pub fn onboarding_header(page: i32) -> (header: &'static str)
    requires
        is_betting_page(page as int),
    ensures
        page == 2 ==> header@ == "Select your bet amount"@,
        page != 2 ==> header@ == "Place your first bet"@,
{
    if page == 2 {
        "Select your bet amount"
    } else {
        "Place your first bet"
    }
}

/// The text of a betting page.
pub fn onboarding_body(page: i32) -> (body: &'static str)
    requires
        is_betting_page(page as int),
    ensures
        page == 2 ==> body@ == "Select your bet (50, 100, or 200) by tapping the coin or arrows"@,
        page == 3 ==> body@ == "Do you think the video will be popular? Click 'Hot' and place your bet"@,
        page == 4 ==> body@ == "If you think video won't be popular, click 'Not' and place your bet"@,
{
    if page == 2 {
        "Select your bet (50, 100, or 200) by tapping the coin or arrows"
    } else if page == 3 {
        "Do you think the video will be popular? Click 'Hot' and place your bet"
    } else {
        "If you think video won't be popular, click 'Not' and place your bet"
    }
}

/// The arrow a betting page points with: at the coin, at "Hot", at "Not".
pub fn onboarding_arrow(page: i32) -> (image: &'static str)
    requires
        is_betting_page(page as int),
    ensures
        page == 2 ==> image@ == "/img/common/decorator/coin_arrow.svg"@,
        page == 3 ==> image@ == "/img/common/decorator/hot_arrow.svg"@,
        page == 4 ==> image@ == "/img/common/decorator/not_arrow.svg"@,
{
    if page == 2 {
        "/img/common/decorator/coin_arrow.svg"
    } else if page == 3 {
        "/img/common/decorator/hot_arrow.svg"
    } else {
        "/img/common/decorator/not_arrow.svg"
    }
}

} // verus!
