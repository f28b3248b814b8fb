use yral_ssr::{
    BetError, GameBadge, GameConclusion, GameInfo, GameResultV2, VoteButtonLook, VoteKind,
    bet_direction_text, compare_videos_query, participation_stake, result_line_class,
    sentiment_of, speculation_badge, total_balance_text, vote_button_look, vote_kind_image,
    vote_result_message,
};

#[test]
fn vote_direction_words_and_images() {
    assert_eq!(bet_direction_text(Some(VoteKind::Hot)), "Hot");
    assert_eq!(bet_direction_text(Some(VoteKind::Not)), "Not");
    assert_eq!(bet_direction_text(None), "");
    assert_eq!(vote_kind_image(Some(VoteKind::Hot)), "/img/hotornot/hot-circular.svg");
    assert_eq!(vote_kind_image(Some(VoteKind::Not)), "/img/hotornot/not-circular.svg");
    assert_eq!(vote_kind_image(None), "/img/hotornot/not-circular.svg");
    assert_eq!(sentiment_of(true), VoteKind::Hot);
    assert_eq!(sentiment_of(false), VoteKind::Not);
}

#[test]
fn evaluator_query() {
    assert_eq!(
        compare_videos_query("abc", Some("def")),
        "select hot_or_not_evaluator.compare_videos_hot_or_not_v2('abc', 'def')"
    );
    assert_eq!(
        compare_videos_query("abc", None),
        "select hot_or_not_evaluator.compare_videos_hot_or_not_v2('abc', NULL)"
    );
}

#[test]
fn settled_game_reports() {
    let win = GameResultV2::Win { win_amt: 30, updated_balance: 1_030 };
    let loss = GameResultV2::Loss { lose_amt: 20, updated_balance: 980 };
    assert_eq!(win.conclusion(), GameConclusion::Win);
    assert_eq!(loss.conclusion(), GameConclusion::Loss);
    assert_eq!(win.reported_amount(50), 80);
    assert_eq!(loss.reported_amount(50), 20);
    assert_eq!(win.stored_balance(), 1_030);
    assert_eq!(loss.stored_balance(), 980);
    let huge = GameResultV2::Loss { lose_amt: 1, updated_balance: u64::MAX as u128 + 1 };
    assert_eq!(huge.stored_balance(), 0);
}

#[test]
fn past_games_on_a_profile() {
    let reward = speculation_badge(GameInfo::CreatorReward { amount: 7 });
    assert_eq!(reward.badge, GameBadge::CreatorReward);
    assert_eq!(reward.amount, 7);
    assert_eq!(reward.badge.outcome_word(), "RECEIVED");
    assert_eq!(reward.badge.label(), "Creator Reward");
    let won = speculation_badge(GameInfo::VoteWin { vote_amount: 50, win_amt: 45 });
    assert_eq!((won.badge, won.amount), (GameBadge::Won, 45));
    assert_eq!(won.badge.outcome_word(), "RECEIVED");
    assert_eq!(won.badge.label(), "You Won");
    let lost = speculation_badge(GameInfo::VoteLoss { vote_amount: 50, lose_amt: 50 });
    assert_eq!((lost.badge, lost.amount), (GameBadge::Lost, 50));
    assert_eq!(lost.badge.outcome_word(), "LOST");
    assert_eq!(lost.badge.label(), "You Lost");
    assert_eq!(participation_stake(GameInfo::VoteWin { vote_amount: 100, win_amt: 90 }), 100);
    assert_eq!(participation_stake(GameInfo::VoteLoss { vote_amount: 20, lose_amt: 20 }), 20);
}

#[test]
fn vote_result_texts() {
    assert_eq!(
        vote_result_message(true, "150", "Hot", 10),
        "You won 150 SATS, by betting on Hot! 10 SATS will go to the creator."
    );
    assert_eq!(
        vote_result_message(false, "100", "Not", 10),
        "You voted Not - better luck next time. You lost 100 SATS, the creator gets 10 SATS"
    );
    assert_eq!(total_balance_text(1234), "Total balance: 1234 SATS");
    assert_eq!(result_line_class(true), "bg-[#158F5C]");
    assert_eq!(result_line_class(false), "bg-[#F14331]");
}

#[test]
fn vote_buttons_while_voting() {
    assert_eq!(vote_button_look(true, true), VoteButtonLook { grayscale: false, spinner: true });
    assert_eq!(vote_button_look(false, true), VoteButtonLook { grayscale: true, spinner: false });
    assert_eq!(vote_button_look(false, false), VoteButtonLook { grayscale: false, spinner: false });
}

#[test]
fn refused_vote_message() {
    let e = BetError::AmountTooLarge { amount: 500, max: 200 };
    assert_eq!(e.message(), "bet amount exceeds maximum allowed: 500 > 200");
}
