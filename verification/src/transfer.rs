//! Sending tokens: how much may be sent, checks on the amount and the
//! destination typed in, and which ledger a token's transfer goes through.

use vstd::prelude::*;
use crate::principal::{PRINCIPAL_MAX_BYTES, parse_principal, principal_from_text};

verus! {

/// The most that can be sent from `balance` when the transfer costs `fees`:
/// the balance less the fees, or nothing when the fees eat it all.
pub fn max_transfer_amount(balance: u128, fees: u128) -> (max: u128)
    ensures
        balance > fees ==> max == balance - fees,
        balance <= fees ==> max == 0,
{
    if balance > fees {
        balance - fees
    } else {
        0
    }
}

/// What is wrong with an amount typed in.
#[derive(Clone, Copy, PartialEq, Eq, Structural, Debug)]
pub enum AmountError {
    /// The text is not an amount.
    Invalid,
    /// The amount is more than can be sent.
    NotEnoughFunds,
    /// The amount is zero.
    Zero,
}

impl AmountError {
    /// The message the form shows.
    pub fn message(&self) -> (text: &'static str)
        ensures
            *self == AmountError::Invalid ==> text@ == "Invalid amount"@,
            *self == AmountError::NotEnoughFunds ==> text@
                == "Sorry, there are not enough funds in this account"@,
            *self == AmountError::Zero ==> text@ == "Cannot send 0 tokens"@,
    {
        match self {
            AmountError::Invalid => "Invalid amount",
            AmountError::NotEnoughFunds => "Sorry, there are not enough funds in this account",
            AmountError::Zero => "Cannot send 0 tokens",
        }
    }
}

/// Checks an amount typed in, given as the amount it parses to, if any: it
/// must parse, be no more than `max`, and not be zero.
pub fn check_transfer_amount(parsed: Option<u128>, max: u128) -> (res: Result<u128, AmountError>)
    ensures
        parsed is None ==> res == Err::<u128, AmountError>(AmountError::Invalid),
        parsed matches Some(a) ==> (a > max ==> res == Err::<u128, AmountError>(
            AmountError::NotEnoughFunds,
        )),
        parsed matches Some(a) ==> (a <= max && a == 0 ==> res == Err::<u128, AmountError>(
            AmountError::Zero,
        )),
        parsed matches Some(a) ==> (a <= max && a != 0 ==> res == Ok::<u128, AmountError>(a)),
{
    match parsed {
        None => Err(AmountError::Invalid),
        Some(amount) => {
            if amount > max {
                Err(AmountError::NotEnoughFunds)
            } else if amount == 0 {
                Err(AmountError::Zero)
            } else {
                Ok(amount)
            }
        },
    }
}

/// The destination typed in is not a principal.
#[derive(Clone, Copy, PartialEq, Eq, Structural, Debug)]
pub struct InvalidPrincipal;

impl InvalidPrincipal {
    /// The message the form shows.
    pub fn message(&self) -> (text: &'static str)
        ensures
            text@ == "Invalid principal"@,
    {
        "Invalid principal"
    }
}

/// Checks a destination typed in: it must write a principal.
pub fn check_destination(text: &str) -> (res: Result<Vec<u8>, InvalidPrincipal>)
    ensures
        res is Err <==> principal_from_text(text@) is None,
        res matches Ok(b) ==> principal_from_text(text@) == Some(b@) && b@.len()
            <= PRINCIPAL_MAX_BYTES,
{
    match parse_principal(text) {
        Some(bytes) => Ok(bytes),
        None => Err(InvalidPrincipal),
    }
}

/// Whether the send button works: both fields hold valid values and no
/// transfer is under way.
pub fn can_send(amount_valid: bool, destination_valid: bool, sending: bool) -> (ok: bool)
    ensures
        ok == (amount_valid && destination_valid && !sending),
{
    amount_valid && destination_valid && !sending
}

/// The kinds of token a wallet holds, by the root they are known under.
#[derive(Clone, PartialEq, Eq, Debug)]
pub enum TokenRoot {
    /// A token with its own SNS root canister.
    Other { root: Vec<u8> },
    /// Chain-key bitcoin, held on its ledger.
    Btc { ledger: Vec<u8> },
    /// Chain-key USDC, held on its ledger.
    Usdc { ledger: Vec<u8> },
    /// Game cents.
    Cents,
    /// Game sats.
    Sats,
}

/// Where a transfer goes.
#[derive(Clone, PartialEq, Eq, Debug)]
pub enum TransferRoute {
    /// Through the ledger the SNS root lists, by the server.
    Sns { root: Vec<u8> },
    /// Straight to a chain-key ledger.
    ChainKey { ledger: Vec<u8> },
}

/// Why a token cannot be sent.
#[derive(Clone, Copy, PartialEq, Eq, Structural, Debug)]
pub enum TransferError {
    CentsNotTransferable,
    SatsNotTransferable,
}

impl TransferError {
    /// The message the transfer reports.
    pub fn message(&self) -> (text: &'static str)
        ensures
            *self == TransferError::CentsNotTransferable ==> text@ == "Cents cannot be transferred"@,
            *self == TransferError::SatsNotTransferable ==> text@
                == "Satoshis cannot be transferred"@,
    {
        match self {
            TransferError::CentsNotTransferable => "Cents cannot be transferred",
            TransferError::SatsNotTransferable => "Satoshis cannot be transferred",
        }
    }
}

/// The route a token's transfer takes: an SNS token through its root,
/// chain-key tokens through their ledger; game cents and sats cannot be sent.
pub fn transfer_route(root: &TokenRoot) -> (route: Result<TransferRoute, TransferError>)
    ensures
        root matches TokenRoot::Other { root: r } ==> route matches Ok(TransferRoute::Sns { root: x }) && x@ == r@,
        root matches TokenRoot::Btc { ledger: l } ==> route matches Ok(TransferRoute::ChainKey { ledger: x }) && x@ == l@,
        root matches TokenRoot::Usdc { ledger: l } ==> route matches Ok(TransferRoute::ChainKey { ledger: x }) && x@ == l@,
        *root == TokenRoot::Cents ==> route == Err::<TransferRoute, TransferError>(
            TransferError::CentsNotTransferable,
        ),
        *root == TokenRoot::Sats ==> route == Err::<TransferRoute, TransferError>(
            TransferError::SatsNotTransferable,
        ),
{
    match root {
        TokenRoot::Other { root } => Ok(TransferRoute::Sns { root: root.clone() }),
        TokenRoot::Btc { ledger } => Ok(TransferRoute::ChainKey { ledger: ledger.clone() }),
        TokenRoot::Usdc { ledger } => Ok(TransferRoute::ChainKey { ledger: ledger.clone() }),
        TokenRoot::Cents => Err(TransferError::CentsNotTransferable),
        TokenRoot::Sats => Err(TransferError::SatsNotTransferable),
    }
}


/// What `str::to_lowercase` makes of a text: each character in its
/// lowercase form under Unicode's rules.
pub uninterp spec fn lowercase(text: Seq<char>) -> Seq<char>;

/// `str::to_lowercase`.
#[verifier::external_body]
fn to_lowercase(text: &str) -> (lowered: String)
    ensures
        lowered@ == lowercase(text@),
{
    text.to_lowercase()
}

/// Whether a token name, already in lowercase, names bitcoin.
pub fn names_btc(lowered: &str) -> (btc: bool)
    ensures
        btc == (lowered@ == "btc"@),
{
    crate::text::text_eq(lowered, "btc")
}

/// Whether a token is bitcoin: its name, in lowercase, is "btc".
pub fn is_btc_token(name: &str) -> (btc: bool)
    ensures
        btc == (lowercase(name@) == "btc"@),
{
    let lowered = to_lowercase(name);
    names_btc(lowered.as_str())
}

/// What the destination field asks for: an OISY wallet for bitcoin, any
/// principal otherwise.
pub fn destination_placeholder(is_btc: bool) -> (text: &'static str)
    ensures
        is_btc ==> text@ == "Enter OISY wallet principal"@,
        !is_btc ==> text@ == "Enter destination principal"@,
{
    if is_btc {
        "Enter OISY wallet principal"
    } else {
        "Enter destination principal"
    }
}

/// The decimal places the balance shows: five for bitcoin, two otherwise.
pub fn balance_display_decimals(is_btc: bool) -> (places: u8)
    ensures
        is_btc ==> places == 5,
        !is_btc ==> places == 2,
{
    if is_btc {
        5
    } else {
        2
    }
}

/// What the transfer reports once sent, given the amount as the page
/// writes it.
pub fn transfer_success_text(amount: &str, token_name: &str) -> (text: String)
    ensures
        text@ == "You’ve successfully sent "@ + amount@ + " "@ + token_name@ + " to your wallet."@,
{
    let mut s = String::new();
    crate::text::push_text(&mut s, "You’ve successfully sent ");
    crate::text::push_text(&mut s, amount);
    crate::text::push_text(&mut s, " ");
    crate::text::push_text(&mut s, token_name);
    crate::text::push_text(&mut s, " to your wallet.");
    s
}

/// Whether the viewer counts as having claimed a token's airdrop: only an
/// SNS token with an owner has one, and when its status could not be had
/// it counts as claimed.
pub fn airdrop_claimed(root: &TokenRoot, has_owner: bool, status: Option<bool>) -> (claimed: bool)
    ensures
        (root is Other && has_owner) ==> claimed == (match status {
            Some(c) => c,
            None => true,
        }),
        !(root is Other && has_owner) ==> claimed,
{
    match root {
        TokenRoot::Other { .. } => {
            if has_owner {
                match status {
                    Some(c) => c,
                    None => true,
                }
            } else {
                true
            }
        },
        _ => true,
    }
}

} // verus!
