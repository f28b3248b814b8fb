//! Hot-or-not bets: the coin a player stakes, how it cycles through the
//! enabled stakes, and the checks and sums around a vote.

use vstd::prelude::*;
use crate::text::{decimal_text, push_decimal, push_text};

verus! {

/// A stake a player can bet, in cents.
#[derive(Clone, Copy, PartialEq, Eq, Structural, Debug)]
pub enum CoinState {
    C10,
    C20,
    C50,
    C100,
    C200,
}

/// The cents a coin stands for.
pub open spec fn coin_cents(c: CoinState) -> u64 {
    match c {
        CoinState::C10 => 10,
        CoinState::C20 => 20,
        CoinState::C50 => 50,
        CoinState::C100 => 100,
        CoinState::C200 => 200,
    }
}

/// The coin a bet of `amount` cents shows: the coin for that amount, or
/// `C50` for an amount no coin stands for.
pub open spec fn coin_for_amount(amount: u64) -> CoinState {
    if amount == 10 {
        CoinState::C10
    } else if amount == 20 {
        CoinState::C20
    } else if amount == 50 {
        CoinState::C50
    } else if amount == 100 {
        CoinState::C100
    } else if amount == 200 {
        CoinState::C200
    } else {
        CoinState::C50
    }
}

/// `i` is the first position of `c` in `s`.
pub open spec fn is_first_position(s: Seq<CoinState>, c: CoinState, i: int) -> bool {
    &&& 0 <= i < s.len()
    &&& s[i] == c
    &&& forall|j: int| 0 <= j < i ==> s[j] != c
}

/// The first position of `c` in `s` (meaningful when `s` contains `c`).
pub open spec fn first_position(s: Seq<CoinState>, c: CoinState) -> int {
    choose|i: int| is_first_position(s, c, i)
}

/// The coin after `c` in the cycle `enabled`, or `default` when `c` is not in it.
pub open spec fn next_in_cycle(enabled: Seq<CoinState>, default: CoinState, c: CoinState) -> CoinState {
    if enabled.contains(c) {
        enabled[(first_position(enabled, c) + 1) % (enabled.len() as int)]
    } else {
        default
    }
}

/// The coin before `c` in the cycle `enabled`, or `default` when `c` is not in it.
pub open spec fn prev_in_cycle(enabled: Seq<CoinState>, default: CoinState, c: CoinState) -> CoinState {
    if enabled.contains(c) {
        let i = first_position(enabled, c);
        if i == 0 {
            enabled[enabled.len() - 1]
        } else {
            enabled[i - 1]
        }
    } else {
        default
    }
}

/// A seq that contains `c` has exactly one first position of it.
pub proof fn lemma_first_position(s: Seq<CoinState>, c: CoinState)
    requires
        s.contains(c),
    ensures
        is_first_position(s, c, first_position(s, c)),
        forall|i: int| is_first_position(s, c, i) ==> i == first_position(s, c),
{
    let k = choose|k: int| 0 <= k < s.len() && s[k] == c;
    lemma_first_at_or_below(s, c, k);
    assert forall|i: int| is_first_position(s, c, i) implies i == first_position(s, c) by {
        let f = first_position(s, c);
        if i < f {
            assert(s[i] == c);
        } else if f < i {
            assert(s[f] == c);
        }
    }
}

proof fn lemma_first_at_or_below(s: Seq<CoinState>, c: CoinState, k: int)
    requires
        0 <= k < s.len(),
        s[k] == c,
    ensures
        exists|i: int| is_first_position(s, c, i),
    decreases k,
{
    if exists|j: int| 0 <= j < k && s[j] == c {
        let j = choose|j: int| 0 <= j < k && s[j] == c;
        lemma_first_at_or_below(s, c, j);
    } else {
        assert(is_first_position(s, c, k));
    }
}

/// In a seq without duplicates, the first position of the item at `i` is `i`.
pub proof fn lemma_position_of_distinct(s: Seq<CoinState>, i: int)
    requires
        s.no_duplicates(),
        0 <= i < s.len(),
    ensures
        s.contains(s[i]),
        first_position(s, s[i]) == i,
{
    assert(is_first_position(s, s[i], i));
    lemma_first_position(s, s[i]);
}

impl CoinState {
    /// The cents this coin stands for.
    pub fn to_cents(&self) -> (cents: u64)
        ensures
            cents == coin_cents(*self),
    {
        match self {
            CoinState::C10 => 10,
            CoinState::C20 => 20,
            CoinState::C50 => 50,
            CoinState::C100 => 100,
            CoinState::C200 => 200,
        }
    }

    /// The coin for a bet of `amount` cents; an amount no coin stands for
    /// falls back to `C50`.
    pub fn from_bet_amount(amount: u64) -> (coin: CoinState)
        ensures
            coin == coin_for_amount(amount),
    {
        if amount == 10 {
            CoinState::C10
        } else if amount == 20 {
            CoinState::C20
        } else if amount == 50 {
            CoinState::C50
        } else if amount == 100 {
            CoinState::C100
        } else if amount == 200 {
            CoinState::C200
        } else {
            CoinState::C50
        }
    }

    /// The first position of this coin in `enabled`, if it is there.
    fn position_in(&self, enabled: &[CoinState]) -> (pos: Option<usize>)
        ensures
            pos matches Some(i) ==> is_first_position(enabled@, *self, i as int),
            pos is None ==> !enabled@.contains(*self),
    {
        let mut i: usize = 0;
        while i < enabled.len()
            invariant
                i <= enabled.len(),
                forall|j: int| 0 <= j < i ==> enabled@[j] != *self,
            decreases enabled.len() - i,
        {
            if enabled[i] == *self {
                return Some(i);
            }
            i = i + 1;
        }
        None
    }

    /// The coin after this one in the cycle `enabled`, wrapping from the last
    /// to the first; `default` when this coin is not enabled.
    pub fn wrapping_next(self, enabled: &[CoinState], default: CoinState) -> (next: CoinState)
        ensures
            next == next_in_cycle(enabled@, default, self),
    {
        match self.position_in(enabled) {
            Some(idx) => {
                proof {
                    lemma_first_position(enabled@, self);
                }
                assert(idx < enabled.len());
                enabled[(idx + 1) % enabled.len()]
            },
            None => default,
        }
    }

    /// The coin before this one in the cycle `enabled`, wrapping from the
    /// first to the last; `default` when this coin is not enabled.
    pub fn wrapping_prev(self, enabled: &[CoinState], default: CoinState) -> (prev: CoinState)
        ensures
            prev == prev_in_cycle(enabled@, default, self),
    {
        match self.position_in(enabled) {
            Some(idx) => {
                proof {
                    lemma_first_position(enabled@, self);
                }
                let prev_idx = if idx == 0 {
                    enabled.len() - 1
                } else {
                    idx - 1
                };
                enabled[prev_idx]
            },
            None => default,
        }
    }
}

/// A coin's bet amount gives the coin back.
pub proof fn law_bet_amount_round_trip(c: CoinState)
    ensures
        coin_for_amount(coin_cents(c)) == c,
{
}

/// Stepping back after stepping forward through a cycle of distinct enabled
/// coins returns the coin one started from, and so does stepping forward
/// after stepping back.
pub proof fn law_cycle_steps_undo(enabled: Seq<CoinState>, default: CoinState, c: CoinState)
    requires
        enabled.no_duplicates(),
        enabled.contains(c),
    ensures
        prev_in_cycle(enabled, default, next_in_cycle(enabled, default, c)) == c,
        next_in_cycle(enabled, default, prev_in_cycle(enabled, default, c)) == c,
{
    let n = enabled.len() as int;
    lemma_first_position(enabled, c);
    let i = first_position(enabled, c);
    let j = if i + 1 < n {
        i + 1
    } else {
        0
    };
    assert((i + 1) % n == j) by (nonlinear_arith)
        requires
            0 <= i < n,
            j == (if i + 1 < n { i + 1 } else { 0 }),
    ;
    lemma_position_of_distinct(enabled, j);
    let k = if i == 0 {
        n - 1
    } else {
        i - 1
    };
    lemma_position_of_distinct(enabled, k);
    assert((k + 1) % n == i) by (nonlinear_arith)
        requires
            0 <= i < n,
            k == (if i == 0 { n - 1 } else { i - 1 }),
    ;
}

/// The coin reached from `c` by `k` steps forward through `enabled`.
pub open spec fn next_steps(enabled: Seq<CoinState>, default: CoinState, c: CoinState, k: nat) -> CoinState
    decreases k,
{
    if k == 0 {
        c
    } else {
        next_in_cycle(enabled, default, next_steps(enabled, default, c, (k - 1) as nat))
    }
}

/// The coin reached from `c` by `k` steps back through `enabled`.
pub open spec fn prev_steps(enabled: Seq<CoinState>, default: CoinState, c: CoinState, k: nat) -> CoinState
    decreases k,
{
    if k == 0 {
        c
    } else {
        prev_in_cycle(enabled, default, prev_steps(enabled, default, c, (k - 1) as nat))
    }
}

/// `k` steps from the coin at position `i` of a cycle of distinct coins
/// reach the coin at `i + k`, or `i - k`, around the cycle.
proof fn lemma_steps_position(enabled: Seq<CoinState>, default: CoinState, i: int, k: nat)
    requires
        enabled.no_duplicates(),
        0 <= i < enabled.len(),
    ensures
        next_steps(enabled, default, enabled[i], k) == enabled[(i + k) % (enabled.len() as int)],
        prev_steps(enabled, default, enabled[i], k) == enabled[(i - k) % (enabled.len() as int)],
    decreases k,
{
    let n = enabled.len() as int;
    if k == 0 {
        assert(i % n == i) by (nonlinear_arith)
            requires
                0 <= i < n,
        ;
    } else {
        lemma_steps_position(enabled, default, i, (k - 1) as nat);
        let a = (i + k - 1) % n;
        let b = (i - (k - 1)) % n;
        assert(0 <= a < n && 0 <= b < n) by (nonlinear_arith)
            requires
                n > 0,
                a == (i + k - 1) % n,
                b == (i - (k - 1)) % n,
        ;
        lemma_position_of_distinct(enabled, a);
        lemma_position_of_distinct(enabled, b);
        assert((a + 1) % n == (i + k) % n) by (nonlinear_arith)
            requires
                n > 0,
                a == (i + k - 1) % n,
        ;
        assert((if b == 0 { n - 1 } else { b - 1 }) == (i - k) % n) by (nonlinear_arith)
            requires
                n > 0,
                b == (i - (k - 1)) % n,
        ;
    }
}

/// Two numbers less than `n` apart leave different remainders by `n`.
proof fn lemma_close_mods_differ(x: int, y: int, n: int)
    requires
        n > 0,
        x < y < x + n,
    ensures
        x % n != y % n,
{
    vstd::arithmetic::div_mod::lemma_fundamental_div_mod(x, n);
    vstd::arithmetic::div_mod::lemma_fundamental_div_mod(y, n);
    if x % n == y % n {
        let d = y / n - x / n;
        assert(y - x == n * d) by (nonlinear_arith)
            requires
                x == n * (x / n) + (x % n),
                y == n * (y / n) + (y % n),
                x % n == y % n,
                d == y / n - x / n,
        ;
        if d >= 1 {
            assert(n * d >= n) by (nonlinear_arith)
                requires
                    d >= 1,
                    n > 0,
            ;
        } else {
            assert(n * d <= 0) by (nonlinear_arith)
                requires
                    d <= 0,
                    n > 0,
            ;
        }
    }
}

/// Stepping the coin selector as many times as there are enabled coins,
/// forward or back, returns to the coin one started from, and the coins
/// passed on the way are the enabled coins, each once.
pub proof fn law_selector_visits_every_coin(enabled: Seq<CoinState>, default: CoinState, c: CoinState)
    requires
        enabled.no_duplicates(),
        enabled.contains(c),
    ensures
        next_steps(enabled, default, c, enabled.len()) == c,
        prev_steps(enabled, default, c, enabled.len()) == c,
        ({
            let forward = Seq::new(enabled.len(), |k: int| next_steps(enabled, default, c, k as nat));
            &&& forward.no_duplicates()
            &&& forall|x: CoinState| forward.contains(x) <==> enabled.contains(x)
        }),
        ({
            let back = Seq::new(enabled.len(), |k: int| prev_steps(enabled, default, c, k as nat));
            &&& back.no_duplicates()
            &&& forall|x: CoinState| back.contains(x) <==> enabled.contains(x)
        }),
{
    let n = enabled.len() as int;
    lemma_first_position(enabled, c);
    let i = first_position(enabled, c);
    assert(enabled[i] == c);
    lemma_steps_position(enabled, default, i, enabled.len());
    assert((i + n) % n == i && (i - n) % n == i) by (nonlinear_arith)
        requires
            0 <= i < n,
    ;
    let forward = Seq::new(enabled.len(), |k: int| next_steps(enabled, default, c, k as nat));
    let back = Seq::new(enabled.len(), |k: int| prev_steps(enabled, default, c, k as nat));
    assert forall|k: int| 0 <= k < n implies forward[k] == enabled[(i + k) % n] && back[k]
        == enabled[(i - k) % n] && 0 <= (i + k) % n < n && 0 <= (i - k) % n < n by {
        lemma_steps_position(enabled, default, i, k as nat);
        assert(0 <= (i + k) % n < n && 0 <= (i - k) % n < n) by (nonlinear_arith)
            requires
                n > 0,
        ;
    }
    assert forall|a: int, b: int| 0 <= a < b < n implies forward[a] != forward[b] && back[a]
        != back[b] by {
        lemma_close_mods_differ(i + a, i + b, n);
        lemma_close_mods_differ(i - b, i - a, n);
    }
    assert forall|x: CoinState| enabled.contains(x) implies forward.contains(x) && back.contains(
        x,
    ) by {
        let j = choose|j: int| 0 <= j < n && enabled[j] == x;
        let kf = (j - i) % n;
        let kb = (i - j) % n;
        assert(0 <= kf < n && 0 <= kb < n && (i + kf) % n == j && (i - kb) % n == j)
            by (nonlinear_arith)
            requires
                0 <= i < n,
                0 <= j < n,
                kf == (j - i) % n,
                kb == (i - j) % n,
        ;
        assert(forward[kf] == x);
        assert(back[kb] == x);
    }
    assert forall|x: CoinState| forward.contains(x) implies enabled.contains(x) by {
        let k = choose|k: int| 0 <= k < n && forward[k] == x;
        assert(enabled[(i + k) % n] == x);
    }
    assert forall|x: CoinState| back.contains(x) implies enabled.contains(x) by {
        let k = choose|k: int| 0 <= k < n && back[k] == x;
        assert(enabled[(i - k) % n] == x);
    }
}

/// Why a vote is refused before it reaches the game.
#[derive(Clone, Copy, PartialEq, Eq, Structural, Debug)]
pub enum BetError {
    /// The vote stakes more than the most a bet may stake.
    AmountTooLarge { amount: u128, max: u64 },
}

/// Refuses a vote that stakes more than `max_bet` sats.
pub fn check_vote_amount(vote_amount: u128, max_bet: u64) -> (res: Result<(), BetError>)
    ensures
        res is Ok <==> vote_amount <= max_bet,
        res is Err ==> res == Err::<(), BetError>(
            BetError::AmountTooLarge { amount: vote_amount, max: max_bet },
        ),
{
    if vote_amount > max_bet as u128 {
        Err(BetError::AmountTooLarge { amount: vote_amount, max: max_bet })
    } else {
        Ok(())
    }
}

/// The creator's share of a vote: `commission_percent` percent of it,
/// rounded down.
pub fn creator_reward(vote_amount: u64, commission_percent: u64) -> (reward: u64)
    requires
        vote_amount * commission_percent <= u64::MAX,
    ensures
        reward == (vote_amount * commission_percent) / 100,
{
    (vote_amount * commission_percent) / 100
}

/// The amount a won game shows: the winnings together with the stake back.
pub fn win_display_amount(win_amount: u128, vote_amount: u64) -> (shown: u128)
    requires
        win_amount + vote_amount <= u128::MAX,
    ensures
        shown == win_amount + vote_amount,
{
    win_amount + vote_amount as u128
}


impl BetError {
    /// The message the refused vote reports.
    pub fn message(&self) -> (text: String)
        ensures
            self matches BetError::AmountTooLarge { amount, max } ==> text@
                == "bet amount exceeds maximum allowed: "@ + decimal_text(amount as nat) + " > "@
                + decimal_text(max as nat),
    {
        match self {
            BetError::AmountTooLarge { amount, max } => {
                let mut s = String::from_str("bet amount exceeds maximum allowed: ");
                push_decimal(&mut s, *amount);
                push_text(&mut s, " > ");
                push_decimal(&mut s, *max as u128);
                s
            },
        }
    }
}

/// How a hot or not button looks while a vote may be under way.
#[derive(Clone, Copy, PartialEq, Eq, Structural, Debug)]
pub struct VoteButtonLook {
    /// Greyed out: another side's vote is under way.
    pub grayscale: bool,
    /// A spinner in place of the icon: this side's vote is under way.
    pub spinner: bool,
}

/// The look of the button for the side `is_chosen_side` says whether the
/// viewer picked, while `running` says whether a vote is under way.
pub fn vote_button_look(is_chosen_side: bool, running: bool) -> (look: VoteButtonLook)
    ensures
        look.grayscale == (!is_chosen_side && running),
        look.spinner == (running && is_chosen_side),
{
    VoteButtonLook { grayscale: !is_chosen_side && running, spinner: running && is_chosen_side }
}

/// What the result of a settled vote says, given the amount as the page
/// writes it and the side voted.
pub fn vote_result_message(won: bool, amount: &str, direction: &str, creator_reward: u64) -> (text:
    String)
    ensures
        won ==> text@ == "You won "@ + amount@ + " SATS, by betting on "@ + direction@ + "! "@
            + decimal_text(creator_reward as nat) + " SATS will go to the creator."@,
        !won ==> text@ == "You voted "@ + direction@ + " - better luck next time. You lost "@
            + amount@ + " SATS, the creator gets "@ + decimal_text(creator_reward as nat)
            + " SATS"@,
{
    let mut s = String::new();
    if won {
        push_text(&mut s, "You won ");
        push_text(&mut s, amount);
        push_text(&mut s, " SATS, by betting on ");
        push_text(&mut s, direction);
        push_text(&mut s, "! ");
        push_decimal(&mut s, creator_reward as u128);
        push_text(&mut s, " SATS will go to the creator.");
    } else {
        push_text(&mut s, "You voted ");
        push_text(&mut s, direction);
        push_text(&mut s, " - better luck next time. You lost ");
        push_text(&mut s, amount);
        push_text(&mut s, " SATS, the creator gets ");
        push_decimal(&mut s, creator_reward as u128);
        push_text(&mut s, " SATS");
    }
    s
}

/// The balance line under a result.
pub fn total_balance_text(balance: u64) -> (text: String)
    ensures
        text@ == "Total balance: "@ + decimal_text(balance as nat) + " SATS"@,
{
    let mut s = String::from_str("Total balance: ");
    push_decimal(&mut s, balance as u128);
    push_text(&mut s, " SATS");
    s
}

/// The colour of the balance line: green after a win, red after a loss.
pub fn result_line_class(won: bool) -> (class: &'static str)
    ensures
        won ==> class@ == "bg-[#158F5C]"@,
        !won ==> class@ == "bg-[#F14331]"@,
{
    if won {
        "bg-[#158F5C]"
    } else {
        "bg-[#F14331]"
    }
}

} // verus!
