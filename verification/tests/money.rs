use yral_ssr::{
    AmountError, BetError, CoinState, TokenRoot, TransferError, TransferRoute, WithdrawError,
    WithdrawLabel, WithdrawLimits, can_send, cents_withdraw_button, check_destination,
    check_transfer_amount, check_vote_amount, check_withdraw_request, creator_reward,
    max_transfer_amount, same_principal, sats_from_input, sats_withdraw_button, transfer_route,
    win_display_amount,
};

const ENABLED: [CoinState; 3] = [CoinState::C10, CoinState::C50, CoinState::C100];

#[test]
fn coin_cents() {
    assert_eq!(CoinState::C10.to_cents(), 10);
    assert_eq!(CoinState::C20.to_cents(), 20);
    assert_eq!(CoinState::C50.to_cents(), 50);
    assert_eq!(CoinState::C100.to_cents(), 100);
    assert_eq!(CoinState::C200.to_cents(), 200);
}

#[test]
fn coin_from_bet_amount_round_trip() {
    for c in [CoinState::C10, CoinState::C20, CoinState::C50, CoinState::C100, CoinState::C200] {
        assert_eq!(CoinState::from_bet_amount(c.to_cents()), c);
    }
    assert_eq!(CoinState::from_bet_amount(7), CoinState::C50);
}

#[test]
fn coin_cycle_wraps() {
    assert_eq!(CoinState::C10.wrapping_next(&ENABLED, CoinState::C50), CoinState::C50);
    assert_eq!(CoinState::C100.wrapping_next(&ENABLED, CoinState::C50), CoinState::C10);
    assert_eq!(CoinState::C10.wrapping_prev(&ENABLED, CoinState::C50), CoinState::C100);
    assert_eq!(CoinState::C50.wrapping_prev(&ENABLED, CoinState::C50), CoinState::C10);
}

#[test]
fn coin_not_enabled_falls_back() {
    assert_eq!(CoinState::C20.wrapping_next(&ENABLED, CoinState::C50), CoinState::C50);
    assert_eq!(CoinState::C200.wrapping_prev(&ENABLED, CoinState::C10), CoinState::C10);
}

#[test]
fn coin_steps_undo_each_other() {
    for c in ENABLED {
        let next = c.wrapping_next(&ENABLED, CoinState::C20);
        assert_eq!(next.wrapping_prev(&ENABLED, CoinState::C20), c);
        let prev = c.wrapping_prev(&ENABLED, CoinState::C20);
        assert_eq!(prev.wrapping_next(&ENABLED, CoinState::C20), c);
    }
}

#[test]
fn vote_amount_limit() {
    assert_eq!(check_vote_amount(200, 200), Ok(()));
    assert_eq!(
        check_vote_amount(201, 200),
        Err(BetError::AmountTooLarge { amount: 201, max: 200 })
    );
}

#[test]
fn creator_share_and_win_amount() {
    assert_eq!(creator_reward(50, 10), 5);
    assert_eq!(creator_reward(15, 10), 1);
    assert_eq!(win_display_amount(40, 10), 50);
}

const LIMITS: WithdrawLimits = WithdrawLimits { min: 200, max: 500 };

#[test]
fn withdraw_request_checks_in_order() {
    let a = [1u8, 2, 3];
    let b = [1u8, 2, 4];
    assert_eq!(
        check_withdraw_request(100, LIMITS, &a, &b, false),
        Err(WithdrawError::InvalidAmount { min: 200, max: 500, amount: 100 })
    );
    assert_eq!(
        check_withdraw_request(501, LIMITS, &a, &a, true),
        Err(WithdrawError::InvalidAmount { min: 200, max: 500, amount: 501 })
    );
    assert_eq!(check_withdraw_request(300, LIMITS, &a, &b, true), Err(WithdrawError::PrincipalMismatch));
    assert_eq!(check_withdraw_request(300, LIMITS, &a, &a, false), Err(WithdrawError::UnregisteredSession));
    assert_eq!(check_withdraw_request(200, LIMITS, &a, &a, true), Ok(()));
    assert_eq!(check_withdraw_request(500, LIMITS, &a, &a, true), Ok(()));
}

#[test]
fn principal_equality() {
    assert!(same_principal(&[1, 2], &[1, 2]));
    assert!(!same_principal(&[1, 2], &[1]));
    assert!(!same_principal(&[1, 2], &[1, 3]));
}

#[test]
fn sats_button() {
    let b = sats_withdraw_button(300, 1000, LIMITS, false);
    assert!(!b.disabled);
    assert_eq!(b.label, WithdrawLabel::WithdrawNow);
    let b = sats_withdraw_button(300, 1000, LIMITS, true);
    assert_eq!(b.label, WithdrawLabel::Claiming);
    let b = sats_withdraw_button(100, 1000, LIMITS, false);
    assert!(b.disabled);
    assert_eq!(b.label, WithdrawLabel::EnterValidAmount { min: 200, max: 500 });
    // a short balance shows in the label but does not disable the button
    let b = sats_withdraw_button(300, 250, LIMITS, false);
    assert!(!b.disabled);
    assert_eq!(b.label, WithdrawLabel::NotEnoughBalance);
    let b = sats_withdraw_button(300, 0, LIMITS, false);
    assert_eq!(b.label, WithdrawLabel::NotEnoughBalance);
}

#[test]
fn cents_button() {
    let b = cents_withdraw_button(0, 10, false);
    assert!(b.disabled);
    assert_eq!(b.label, WithdrawLabel::EnterAmount);
    let b = cents_withdraw_button(20, 10, false);
    assert!(b.disabled);
    assert_eq!(b.label, WithdrawLabel::NotEnoughWinnings);
    let b = cents_withdraw_button(10, 10, true);
    assert!(!b.disabled);
    assert_eq!(b.label, WithdrawLabel::Claiming);
    let b = cents_withdraw_button(5, 10, false);
    assert_eq!(b.label, WithdrawLabel::WithdrawNow);
}

#[test]
fn sats_input_parsing() {
    assert_eq!(sats_from_input("250"), 250);
    assert_eq!(sats_from_input("+7"), 7);
    assert_eq!(sats_from_input(""), 0);
    assert_eq!(sats_from_input("12a"), 0);
    assert_eq!(sats_from_input(" 12"), 0);
    assert_eq!(sats_from_input("-3"), 0);
    assert_eq!(sats_from_input("99999999999999999999999999"), 0);
}

#[test]
fn transfer_limits() {
    assert_eq!(max_transfer_amount(100, 10), 90);
    assert_eq!(max_transfer_amount(10, 10), 0);
    assert_eq!(max_transfer_amount(5, 10), 0);
    assert_eq!(check_transfer_amount(None, 90), Err(AmountError::Invalid));
    assert_eq!(check_transfer_amount(Some(91), 90), Err(AmountError::NotEnoughFunds));
    assert_eq!(check_transfer_amount(Some(0), 90), Err(AmountError::Zero));
    assert_eq!(check_transfer_amount(Some(90), 90), Ok(90));
    assert_eq!(AmountError::NotEnoughFunds.message(), "Sorry, there are not enough funds in this account");
    assert_eq!(AmountError::Zero.message(), "Cannot send 0 tokens");
    assert!(can_send(true, true, false));
    assert!(!can_send(true, true, true));
    assert!(!can_send(false, true, false));
}

#[test]
fn destination_must_be_principal() {
    let ok = check_destination("ryjl3-tyaaa-aaaaa-aaaba-cai").unwrap();
    assert_eq!(ok, vec![0, 0, 0, 0, 0, 0, 0, 2, 1, 1]);
    assert!(check_destination("not a principal").is_err());
    assert!(check_destination("RYJL3-TYAAA-AAAAA-AAABA-CAI").is_ok());
    assert!(check_destination("ryjl3tyaaaaaaaaaaabacai").is_err());
    assert_eq!(check_destination("x").unwrap_err().message(), "Invalid principal");
}

#[test]
fn transfer_routes() {
    assert_eq!(
        transfer_route(&TokenRoot::Other { root: vec![1] }),
        Ok(TransferRoute::Sns { root: vec![1] })
    );
    assert_eq!(
        transfer_route(&TokenRoot::Btc { ledger: vec![2] }),
        Ok(TransferRoute::ChainKey { ledger: vec![2] })
    );
    assert_eq!(
        transfer_route(&TokenRoot::Usdc { ledger: vec![3] }),
        Ok(TransferRoute::ChainKey { ledger: vec![3] })
    );
    assert_eq!(transfer_route(&TokenRoot::Cents), Err(TransferError::CentsNotTransferable));
    assert_eq!(transfer_route(&TokenRoot::Sats), Err(TransferError::SatsNotTransferable));
    assert_eq!(TransferError::SatsNotTransferable.message(), "Satoshis cannot be transferred");
}
