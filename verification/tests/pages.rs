use yral_ssr::{
    GameOutcome, LikeState, LoginProvider, NotifAction, NotifOutcome, NsfwAction, Permission,
    SeedAuthorization, UploadStage, connect_button_text, enabled_after,
    first_login_on_registration, is_user_principal, login_button_label, login_followups,
    notifications_on, nsfw_click, nsfw_shown, nudge_action, nudge_visible, profile_tab_index,
    seed_allowed, seed_answer_loaded, settings_show_delete_popup, settings_toggle_action,
    should_migrate_device, should_publish, should_redirect_on_connect, show_help_ping,
    show_onboarding_popup, show_profile_login, show_seed_upload, show_token_airdrop,
    speculation_empty_text, upload_form_invalid, upload_stage,
};

#[test]
fn like_toggle_twice_restores() {
    let mut s = LikeState::loaded(false, 4);
    assert!(s.toggle());
    assert_eq!(s, LikeState { liked: Some(true), likes: 5 });
    assert!(!s.toggle());
    assert_eq!(s, LikeState { liked: Some(false), likes: 4 });
}

#[test]
fn like_unknown_counts_as_not_liked() {
    let mut s = LikeState { liked: None, likes: 0 };
    assert!(s.toggle());
    assert_eq!(s, LikeState { liked: Some(true), likes: 1 });
    s.revert_flag();
    assert_eq!(s, LikeState { liked: Some(false), likes: 1 });
}

#[test]
fn nsfw_switch() {
    assert_eq!(nsfw_click(true, false, false), NsfwAction::Nothing);
    assert_eq!(nsfw_click(false, false, false), NsfwAction::AskPermission);
    assert_eq!(nsfw_click(false, false, true), NsfwAction::Enable);
    assert_eq!(nsfw_click(false, true, false), NsfwAction::Disable);
    assert!(nsfw_shown(true, false));
    assert!(!nsfw_shown(false, false));
}

#[test]
fn help_ping_and_onboarding() {
    assert!(show_help_ping(true, GameOutcome::Loss { lose_amount: 5 }));
    assert!(!show_help_ping(true, GameOutcome::Win { win_amount: 5 }));
    assert!(!show_help_ping(false, GameOutcome::Loss { lose_amount: 5 }));
    assert!(show_onboarding_popup(false, false));
    assert!(!show_onboarding_popup(true, false));
    assert!(!show_onboarding_popup(false, true));
}

#[test]
fn notification_switch() {
    assert_eq!(settings_toggle_action(true, Permission::Default), NotifAction::RequestPermission);
    assert_eq!(settings_toggle_action(true, Permission::Granted), NotifAction::Unregister);
    assert_eq!(settings_toggle_action(false, Permission::Denied), NotifAction::Register);
    assert_eq!(nudge_action(true, Permission::Granted), NotifAction::Nothing);
    assert_eq!(nudge_action(false, Permission::Granted), NotifAction::Register);
    assert_eq!(enabled_after(NotifAction::Register, NotifOutcome::Done), Some(true));
    assert_eq!(enabled_after(NotifAction::Register, NotifOutcome::Failed), Some(false));
    assert_eq!(enabled_after(NotifAction::Unregister, NotifOutcome::DeviceNotFound), Some(false));
    assert_eq!(enabled_after(NotifAction::Unregister, NotifOutcome::Failed), None);
    assert_eq!(enabled_after(NotifAction::RequestPermission, NotifOutcome::PermissionRefused), None);
    assert_eq!(enabled_after(NotifAction::RequestPermission, NotifOutcome::PermissionGranted), Some(true));
}

#[test]
fn switch_on_then_off() {
    let first = settings_toggle_action(false, Permission::Granted);
    let on = enabled_after(first, NotifOutcome::Done).unwrap();
    assert!(on);
    let second = settings_toggle_action(on, Permission::Granted);
    assert_eq!(enabled_after(second, NotifOutcome::Done), Some(false));
}

#[test]
fn notifications_state() {
    assert!(notifications_on(true, Permission::Granted));
    assert!(!notifications_on(true, Permission::Default));
    assert!(nudge_visible(true, true, Permission::Denied));
    assert!(!nudge_visible(true, true, Permission::Granted));
    assert!(should_migrate_device(false, true, Permission::Granted));
    assert!(!should_migrate_device(true, true, Permission::Granted));
}

#[test]
fn upload_form_and_publish() {
    assert!(!upload_form_invalid("", "", 1, "caption"));
    assert!(upload_form_invalid("too long", "", 1, "caption"));
    assert!(upload_form_invalid("", "", 0, "caption"));
    assert!(upload_form_invalid("", "", 1, ""));
    assert!(should_publish(Some("u1"), None, false, false));
    assert!(!should_publish(Some("u1"), Some("u1"), false, false));
    assert!(should_publish(Some("u2"), Some("u1"), false, false));
    assert!(!should_publish(Some("u1"), None, true, false));
    assert!(!should_publish(None, None, false, false));
}

#[test]
fn upload_stages() {
    assert_eq!(upload_stage(true, true, true), UploadStage::Complete);
    assert_eq!(upload_stage(false, true, true), UploadStage::ProcessingMetadata);
    assert_eq!(upload_stage(false, false, false), UploadStage::UploadingFile);
    assert_eq!(upload_stage(false, false, true), UploadStage::WaitingToPublish);
    assert_eq!(UploadStage::UploadingFile.message(), "Uploading video file...");
}

#[test]
fn login_followups_only_on_first_login() {
    let f = login_followups(true, Some(vec![1]));
    assert!(f.signup);
    assert_eq!(f.referral_reward_to, Some(vec![1]));
    let f = login_followups(false, Some(vec![1]));
    assert!(!f.signup);
    assert_eq!(f.referral_reward_to, None);
    assert!(first_login_on_registration(false));
    assert!(!first_login_on_registration(true));
}

#[test]
fn login_buttons() {
    assert_eq!(login_button_label(LoginProvider::Google, true, LoginProvider::Google), "Logging in with Google");
    assert_eq!(login_button_label(LoginProvider::Apple, true, LoginProvider::Google), "Login with Apple");
    assert_eq!(login_button_label(LoginProvider::Apple, false, LoginProvider::Apple), "Login with Apple");
    assert_eq!(connect_button_text(true, "Login"), "Connecting...");
    assert_eq!(connect_button_text(false, "Login"), "Login");
    assert!(should_redirect_on_connect(&[1], &[2]));
    assert!(!should_redirect_on_connect(&[1], &[1]));
}

#[test]
fn profile_pages() {
    assert_eq!(profile_tab_index("posts"), 0);
    assert_eq!(profile_tab_index("stakes"), 1);
    assert_eq!(profile_tab_index("other"), 0);
    assert!(settings_show_delete_popup("delete"));
    assert!(!settings_show_delete_popup("notify"));
    let user = [0u8, 0, 0, 0, 0, 0, 0, 2, 1, 1];
    assert_eq!(
        speculation_empty_text("/profile/ryjl3-tyaaa-aaaaa-aaaba-cai/stakes", &user),
        "You haven't placed any votes yet!"
    );
    assert_eq!(speculation_empty_text("/profile/other", &user), "Not played any games yet!");
    assert!(show_profile_login(false, &[1], &[1]));
    assert!(!show_profile_login(true, &[1], &[1]));
}

#[test]
fn token_airdrop_gate() {
    assert!(is_user_principal(&[1], Some(&[1])));
    assert!(!is_user_principal(&[1], None));
    assert!(show_token_airdrop(true, false, Some(&[2]), Some(&[2]), false));
    assert!(!show_token_airdrop(true, true, Some(&[2]), Some(&[2]), false));
    assert!(!show_token_airdrop(true, false, Some(&[2]), Some(&[3]), false));
    assert!(!show_token_airdrop(true, false, Some(&[2]), Some(&[2]), true));
    assert!(!show_token_airdrop(false, false, Some(&[2]), Some(&[2]), false));
}

#[test]
fn content_seeding() {
    let answer = Some(SeedAuthorization { authorized: true, principal: vec![4] });
    assert!(seed_answer_loaded(&answer, &[4]));
    assert!(!seed_answer_loaded(&answer, &[5]));
    assert!(seed_allowed(&answer));
    assert!(show_seed_upload(&answer, true));
    assert!(!show_seed_upload(&answer, false));
    assert!(!seed_allowed(&None));
}
