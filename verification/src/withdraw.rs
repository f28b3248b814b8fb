//! Withdrawals: the server's checks on a sats withdrawal request, and the
//! state of the withdraw button on the sats and the cents pages.

use vstd::prelude::*;
use crate::text::{decimal_text, digits_value, parse_usize, push_decimal, push_text, without_plus, writes_unsigned};

verus! {

/// The least and the most one withdrawal may move.
#[derive(Clone, Copy, PartialEq, Eq, Structural, Debug)]
pub struct WithdrawLimits {
    pub min: u64,
    pub max: u64,
}

/// Why the server refuses a withdrawal request.
#[derive(Clone, Copy, PartialEq, Eq, Structural, Debug)]
pub enum WithdrawError {
    /// The amount lies outside the limits.
    InvalidAmount { min: u64, max: u64, amount: u128 },
    /// The receiver is not the owner of the canister paid into.
    PrincipalMismatch,
    /// The receiver's session is not a registered one.
    UnregisteredSession,
}

/// Whether an amount lies outside the limits of one withdrawal.
pub open spec fn outside_limits(amount: int, limits: WithdrawLimits) -> bool {
    amount < limits.min || amount > limits.max
}

/// An amount lies outside the limits of one withdrawal exactly when it is
/// below the minimum or above the maximum.
pub proof fn law_outside_limits_is_below_or_above(amount: int, limits: WithdrawLimits)
    ensures
        outside_limits(amount, limits) <==> (amount < limits.min || amount > limits.max),
        amount > limits.max ==> outside_limits(amount, limits),
        amount < limits.min ==> outside_limits(amount, limits),
        limits.min <= amount <= limits.max ==> !outside_limits(amount, limits),
{
}

/// Byte-wise equality of two principals.
pub fn same_principal(a: &[u8], b: &[u8]) -> (same: bool)
    ensures
        same == (a@ == b@),
{
    if a.len() != b.len() {
        return false;
    }
    let mut i: usize = 0;
    while i < a.len()
        invariant
            i <= a.len(),
            a.len() == b.len(),
            forall|j: int| 0 <= j < i ==> a@[j] == b@[j],
        decreases a.len() - i,
    {
        if a[i] != b[i] {
            return false;
        }
        i = i + 1;
    }
    assert(a@ =~= b@);
    true
}

/// The server's checks on a sats withdrawal, in the order it makes them: the
/// amount lies within the limits, the canister's owner is the receiver, and
/// the receiver's session is registered.
pub fn check_withdraw_request(
    amount: u128,
    limits: WithdrawLimits,
    owner: &[u8],
    receiver: &[u8],
    registered_session: bool,
) -> (res: Result<(), WithdrawError>)
    ensures
        (amount < limits.min || amount > limits.max) ==> res is Err,
        outside_limits(amount as int, limits) ==> res == Err::<(), WithdrawError>(
            WithdrawError::InvalidAmount { min: limits.min, max: limits.max, amount },
        ),
        (limits.min <= amount <= limits.max && owner@ != receiver@) ==> res == Err::<
            (),
            WithdrawError,
        >(WithdrawError::PrincipalMismatch),
        (limits.min <= amount <= limits.max && owner@ == receiver@ && !registered_session) ==> res
            == Err::<(), WithdrawError>(WithdrawError::UnregisteredSession),
        res is Ok <==> (limits.min <= amount <= limits.max && owner@ == receiver@
            && registered_session),
{
    if amount < limits.min as u128 || amount > limits.max as u128 {
        return Err(WithdrawError::InvalidAmount { min: limits.min, max: limits.max, amount });
    }
    if !same_principal(owner, receiver) {
        return Err(WithdrawError::PrincipalMismatch);
    }
    if !registered_session {
        return Err(WithdrawError::UnregisteredSession);
    }
    Ok(())
}

/// The sats typed into the withdraw field: the number written there, or
/// zero for anything that is not a number fitting a `usize`.
pub fn sats_from_input(text: &str) -> (sats: usize)
    ensures
        writes_unsigned(text@) && digits_value(without_plus(text@)) <= usize::MAX ==> sats
            == digits_value(without_plus(text@)),
        !(writes_unsigned(text@) && digits_value(without_plus(text@)) <= usize::MAX) ==> sats
            == 0,
{
    match parse_usize(text) {
        Some(v) => v,
        None => 0,
    }
}

/// What the withdraw button says.
#[derive(Clone, Copy, PartialEq, Eq, Structural, Debug)]
pub enum WithdrawLabel {
    NotEnoughBalance,
    EnterValidAmount { min: u64, max: u64 },
    EnterAmount,
    NotEnoughWinnings,
    Claiming,
    WithdrawNow,
}

impl WithdrawLabel {
    /// The button's text.
    pub fn message(&self) -> (text: String)
        ensures
            *self == WithdrawLabel::NotEnoughBalance ==> text@ == "Not enough balance"@,
            self matches WithdrawLabel::EnterValidAmount { min, max } ==> text@
                == "Enter valid amount, min: "@ + decimal_text(min as nat) + " max: "@
                + decimal_text(max as nat),
            *self == WithdrawLabel::EnterAmount ==> text@ == "Enter Amount"@,
            *self == WithdrawLabel::NotEnoughWinnings ==> text@ == "Not enough winnings"@,
            *self == WithdrawLabel::Claiming ==> text@ == "Claiming..."@,
            *self == WithdrawLabel::WithdrawNow ==> text@ == "Withdraw Now!"@,
    {
        match self {
            WithdrawLabel::NotEnoughBalance => String::from_str("Not enough balance"),
            WithdrawLabel::EnterValidAmount { min, max } => {
                let mut s = String::from_str("Enter valid amount, min: ");
                push_decimal(&mut s, *min as u128);
                push_text(&mut s, " max: ");
                push_decimal(&mut s, *max as u128);
                s
            },
            WithdrawLabel::EnterAmount => String::from_str("Enter Amount"),
            WithdrawLabel::NotEnoughWinnings => String::from_str("Not enough winnings"),
            WithdrawLabel::Claiming => String::from_str("Claiming..."),
            WithdrawLabel::WithdrawNow => String::from_str("Withdraw Now!"),
        }
    }
}

/// Whether the withdraw button is disabled, and what it says.
#[derive(Clone, Copy, PartialEq, Eq, Structural, Debug)]
pub struct WithdrawButton {
    pub disabled: bool,
    pub label: WithdrawLabel,
}

/// The button on the sats page. The label warns of a short balance first,
/// then of an amount outside the limits; the button is disabled only for an
/// amount outside the limits.
pub fn sats_withdraw_button(
    sats: u128,
    balance: u128,
    limits: WithdrawLimits,
    is_claiming: bool,
) -> (button: WithdrawButton)
    ensures
        button.disabled == outside_limits(sats as int, limits),
        button.disabled == (sats < limits.min || sats > limits.max),
        (sats > balance || balance == 0) ==> button.label == WithdrawLabel::NotEnoughBalance,
        !(sats > balance || balance == 0) && (sats < limits.min || sats > limits.max)
            ==> button.label == (WithdrawLabel::EnterValidAmount { min: limits.min, max: limits.max }),
        !(sats > balance || balance == 0) && !(sats < limits.min || sats > limits.max) && is_claiming
            ==> button.label == WithdrawLabel::Claiming,
        !(sats > balance || balance == 0) && !(sats < limits.min || sats > limits.max)
            && !is_claiming ==> button.label == WithdrawLabel::WithdrawNow,
{
    let invalid_input = sats < limits.min as u128 || sats > limits.max as u128;
    let invalid_balance = sats > balance || balance == 0;
    let label = if invalid_balance {
        WithdrawLabel::NotEnoughBalance
    } else if invalid_input {
        WithdrawLabel::EnterValidAmount { min: limits.min, max: limits.max }
    } else if is_claiming {
        WithdrawLabel::Claiming
    } else {
        WithdrawLabel::WithdrawNow
    };
    WithdrawButton { disabled: invalid_input, label }
}

/// The button on the cents page: nothing to do without an amount, and
/// nothing beyond what can be withdrawn.
pub fn cents_withdraw_button(cents: u128, withdrawable: u128, is_claiming: bool) -> (button:
    WithdrawButton)
    ensures
        button.disabled == (cents == 0 || withdrawable < cents),
        cents == 0 ==> button.label == WithdrawLabel::EnterAmount,
        cents != 0 && withdrawable < cents ==> button.label == WithdrawLabel::NotEnoughWinnings,
        cents != 0 && withdrawable >= cents && is_claiming ==> button.label
            == WithdrawLabel::Claiming,
        cents != 0 && withdrawable >= cents && !is_claiming ==> button.label
            == WithdrawLabel::WithdrawNow,
{
    let can_withdraw = withdrawable >= cents;
    let no_input = cents == 0;
    let label = if no_input {
        WithdrawLabel::EnterAmount
    } else if !can_withdraw {
        WithdrawLabel::NotEnoughWinnings
    } else if is_claiming {
        WithdrawLabel::Claiming
    } else {
        WithdrawLabel::WithdrawNow
    };
    WithdrawButton { disabled: no_input || !can_withdraw, label }
}


impl WithdrawError {
    /// The message the refused request reports.
    pub fn message(&self) -> (text: String)
        ensures
            self matches WithdrawError::InvalidAmount { min, max, amount } ==> text@
                == "Invalid withdraw amount, min amount: "@ + decimal_text(min as nat)
                + ", max amount: "@ + decimal_text(max as nat) + ", amount: "@ + decimal_text(
                amount as nat,
            ),
            !(self is InvalidAmount) ==> text@ == "Not allowed to withdraw"@,
    {
        match self {
            WithdrawError::InvalidAmount { min, max, amount } => {
                let mut s = String::from_str("Invalid withdraw amount, min amount: ");
                push_decimal(&mut s, *min as u128);
                push_text(&mut s, ", max amount: ");
                push_decimal(&mut s, *max as u128);
                push_text(&mut s, ", amount: ");
                push_decimal(&mut s, *amount);
                s
            },
            _ => String::from_str("Not allowed to withdraw"),
        }
    }
}

/// What a refused call to the game worker reports, with the status it got
/// and the worker's own words.
pub fn worker_error_text(status: u16, body: &str) -> (text: String)
    ensures
        text@ == "worker error["@ + decimal_text(status as nat) + "]: "@ + body@,
{
    let mut s = String::from_str("worker error[");
    push_decimal(&mut s, status as u128);
    push_text(&mut s, "]: ");
    push_text(&mut s, body);
    s
}


/// What a refused call to the game worker reports when only the worker's
/// words are given.
pub fn worker_refusal_text(body: &str) -> (text: String)
    ensures
        text@ == "worker error: "@ + body@,
{
    let mut s = String::from_str("worker error: ");
    push_text(&mut s, body);
    s
}


/// How the pump-and-dump worker answered a claim: taken on status 200,
/// otherwise "Request failed".
pub fn claim_outcome(status: u16) -> (res: Result<(), String>)
    ensures
        status == 200 ==> res is Ok,
        status != 200 ==> (res matches Err(m) && m@ == "Request failed"@),
{
    if status == 200 {
        Ok(())
    } else {
        Err(String::from_str("Request failed"))
    }
}

} // verus!
