//! The hot-or-not game around a vote: the evaluator query, how a settled
//! game reads, and what a past game shows on a profile.

use vstd::prelude::*;
use crate::text::{decimal_text, push_text};

verus! {

/// The side a vote takes.
#[derive(Clone, Copy, PartialEq, Eq, Structural, Debug)]
pub enum VoteKind {
    Hot,
    Not,
}

/// The word for the side a viewer voted, or nothing before they voted.
pub fn bet_direction_text(direction: Option<VoteKind>) -> (text: &'static str)
    ensures
        direction == Some(VoteKind::Hot) ==> text@ == "Hot"@,
        direction == Some(VoteKind::Not) ==> text@ == "Not"@,
        direction is None ==> text@ == ""@,
{
    match direction {
        Some(VoteKind::Hot) => "Hot",
        Some(VoteKind::Not) => "Not",
        None => "",
    }
}

/// The badge beside a result: the hot badge for a hot vote, the not badge
/// otherwise.
pub fn vote_kind_image(direction: Option<VoteKind>) -> (path: &'static str)
    ensures
        direction == Some(VoteKind::Hot) ==> path@ == "/img/hotornot/hot-circular.svg"@,
        direction != Some(VoteKind::Hot) ==> path@ == "/img/hotornot/not-circular.svg"@,
{
    match direction {
        Some(VoteKind::Hot) => "/img/hotornot/hot-circular.svg",
        _ => "/img/hotornot/not-circular.svg",
    }
}

/// The side the evaluator found a video on.
pub fn sentiment_of(hot_or_not: bool) -> (kind: VoteKind)
    ensures
        hot_or_not ==> kind == VoteKind::Hot,
        !hot_or_not ==> kind == VoteKind::Not,
{
    if hot_or_not {
        VoteKind::Hot
    } else {
        VoteKind::Not
    }
}

/// The query that asks the evaluator to compare a video with the one watched
/// before it, or with none.
pub fn compare_videos_query(uid: &str, prev_uid: Option<&str>) -> (query: String)
    ensures
        prev_uid matches Some(p) ==> query@ == "select hot_or_not_evaluator.compare_videos_hot_or_not_v2('"@
            + uid@ + "', "@ + "'"@ + p@ + "'"@ + ")"@,
        prev_uid is None ==> query@ == "select hot_or_not_evaluator.compare_videos_hot_or_not_v2('"@
            + uid@ + "', "@ + "NULL"@ + ")"@,
{
    let mut q = String::new();
    push_text(&mut q, "select hot_or_not_evaluator.compare_videos_hot_or_not_v2('");
    push_text(&mut q, uid);
    push_text(&mut q, "', ");
    match prev_uid {
        Some(p) => {
            push_text(&mut q, "'");
            push_text(&mut q, p);
            push_text(&mut q, "'");
        },
        None => {
            push_text(&mut q, "NULL");
        },
    }
    push_text(&mut q, ")");
    q
}

/// A settled game as the worker reports it: what was won or lost, and the
/// player's balance after.
#[derive(Clone, Copy, PartialEq, Eq, Structural, Debug)]
pub enum GameResultV2 {
    Win { win_amt: u128, updated_balance: u128 },
    Loss { lose_amt: u128, updated_balance: u128 },
}

/// How a game ended for the player.
#[derive(Clone, Copy, PartialEq, Eq, Structural, Debug)]
pub enum GameConclusion {
    Win,
    Loss,
}

impl GameResultV2 {
    /// Whether the player won.
    pub fn conclusion(&self) -> (c: GameConclusion)
        ensures
            self is Win ==> c == GameConclusion::Win,
            self is Loss ==> c == GameConclusion::Loss,
    {
        match self {
            GameResultV2::Win { .. } => GameConclusion::Win,
            GameResultV2::Loss { .. } => GameConclusion::Loss,
        }
    }

    /// The amount a settled game reports: a win's winnings with the stake
    /// back, or a loss's loss.
    pub fn reported_amount(&self, bet_amount: u64) -> (amount: u128)
        requires
            self matches GameResultV2::Win { win_amt, .. } ==> win_amt + bet_amount <= u128::MAX,
        ensures
            self matches GameResultV2::Win { win_amt, .. } ==> amount == win_amt + bet_amount,
            self matches GameResultV2::Loss { lose_amt, .. } ==> amount == lose_amt,
    {
        match self {
            GameResultV2::Win { win_amt, .. } => *win_amt + bet_amount as u128,
            GameResultV2::Loss { lose_amt, .. } => *lose_amt,
        }
    }

    /// The balance the wallet keeps after the game: the updated balance when
    /// it fits 64 bits, zero otherwise.
    pub fn stored_balance(&self) -> (balance: u64)
        ensures
            self matches GameResultV2::Win { updated_balance, .. } ==> balance == (if updated_balance
                <= u64::MAX {
                updated_balance as u64
            } else {
                0
            }),
            self matches GameResultV2::Loss { updated_balance, .. } ==> balance == (
            if updated_balance <= u64::MAX {
                updated_balance as u64
            } else {
                0
            }),
    {
        let b = match self {
            GameResultV2::Win { updated_balance, .. } => *updated_balance,
            GameResultV2::Loss { updated_balance, .. } => *updated_balance,
        };
        if b <= u64::MAX as u128 {
            b as u64
        } else {
            0
        }
    }
}

/// A game as a profile lists it: a creator's reward, or a vote and how it
/// went.
#[derive(Clone, Copy, PartialEq, Eq, Structural, Debug)]
pub enum GameInfo {
    CreatorReward { amount: u64 },
    VoteWin { vote_amount: u128, win_amt: u64 },
    VoteLoss { vote_amount: u128, lose_amt: u64 },
}

/// What a past game shows.
#[derive(Clone, Copy, PartialEq, Eq, Structural, Debug)]
pub enum GameBadge {
    CreatorReward,
    Won,
    Lost,
}

impl GameBadge {
    /// The word above the amount: what the player received, or lost.
    pub fn outcome_word(&self) -> (word: &'static str)
        ensures
            *self == GameBadge::Lost ==> word@ == "LOST"@,
            *self != GameBadge::Lost ==> word@ == "RECEIVED"@,
    {
        match self {
            GameBadge::Lost => "LOST",
            _ => "RECEIVED",
        }
    }

    /// The badge's text.
    pub fn label(&self) -> (text: &'static str)
        ensures
            *self == GameBadge::CreatorReward ==> text@ == "Creator Reward"@,
            *self == GameBadge::Won ==> text@ == "You Won"@,
            *self == GameBadge::Lost ==> text@ == "You Lost"@,
    {
        match self {
            GameBadge::CreatorReward => "Creator Reward",
            GameBadge::Won => "You Won",
            GameBadge::Lost => "You Lost",
        }
    }
}

/// The badge and the amount a past game shows on a profile.
#[derive(Clone, Copy, PartialEq, Eq, Structural, Debug)]
pub struct SpeculationLine {
    pub badge: GameBadge,
    pub amount: u64,
}

/// The badge and the amount a past game shows on a profile.
pub fn speculation_badge(info: GameInfo) -> (shown: SpeculationLine)
    ensures
        info matches GameInfo::CreatorReward { amount } ==> shown.badge == GameBadge::CreatorReward
            && shown.amount == amount,
        info matches GameInfo::VoteWin { win_amt, .. } ==> shown.badge == GameBadge::Won
            && shown.amount == win_amt,
        info matches GameInfo::VoteLoss { lose_amt, .. } ==> shown.badge == GameBadge::Lost
            && shown.amount == lose_amt,
{
    match info {
        GameInfo::CreatorReward { amount } => SpeculationLine { badge: GameBadge::CreatorReward, amount },
        GameInfo::VoteWin { win_amt, .. } => SpeculationLine { badge: GameBadge::Won, amount: win_amt },
        GameInfo::VoteLoss { lose_amt, .. } => SpeculationLine { badge: GameBadge::Lost, amount: lose_amt },
    }
}

/// The stake of the viewer's own vote on a post, as the result screen shows
/// it; a game on the viewer's own post never reaches this screen, and no
/// vote stakes more than 64 bits.
pub fn participation_stake(info: GameInfo) -> (stake: u64)
    requires
        !(info is CreatorReward),
        info matches GameInfo::VoteWin { vote_amount, .. } ==> vote_amount <= u64::MAX,
        info matches GameInfo::VoteLoss { vote_amount, .. } ==> vote_amount <= u64::MAX,
    ensures
        info matches GameInfo::VoteWin { vote_amount, .. } ==> stake == vote_amount,
        info matches GameInfo::VoteLoss { vote_amount, .. } ==> stake == vote_amount,
{
    match info {
        GameInfo::VoteWin { vote_amount, .. } => vote_amount as u64,
        GameInfo::VoteLoss { vote_amount, .. } => vote_amount as u64,
        GameInfo::CreatorReward { .. } => 0,
    }
}


/// What a vote comes to before the game worker takes it, from what the
/// lookups gave: refused when it stakes more than `max_bet` (checked first),
/// when the post's lookup failed or found no post, and when the previous
/// post's lookup (made only when a previous post is given) failed or found
/// none; otherwise the query that asks the evaluator to compare the post
/// with the previous one.
pub fn vote_evaluation_query(
    vote_amount: u128,
    max_bet: u64,
    post_uid: Result<Option<&str>, &str>,
    prev_uid: Option<Result<Option<&str>, &str>>,
) -> (res: Result<String, String>)
    ensures
        vote_amount > max_bet ==> (res matches Err(e) && e@ == "bet amount exceeds maximum allowed: "@
            + decimal_text(vote_amount as nat) + " > "@ + decimal_text(max_bet as nat)),
        vote_amount <= max_bet ==> (post_uid matches Err(e) ==> (res matches Err(m) && m@ == e@)),
        vote_amount <= max_bet ==> (post_uid matches Ok(None) ==> (res matches Err(m) && m@
            == "post not found"@)),
        vote_amount <= max_bet ==> (post_uid matches Ok(Some(u)) ==> (prev_uid matches Some(Err(
            e,
        )) ==> (res matches Err(m) && m@ == e@))),
        vote_amount <= max_bet ==> (post_uid matches Ok(Some(u)) ==> (prev_uid matches Some(Ok(None))
            ==> (res matches Err(m) && m@ == "previous post not found"@))),
        vote_amount <= max_bet ==> (post_uid matches Ok(Some(u)) ==> (prev_uid matches Some(Ok(Some(p)))
            ==> (res matches Ok(q) && q@ == "select hot_or_not_evaluator.compare_videos_hot_or_not_v2('"@
            + u@ + "', "@ + "'"@ + p@ + "'"@ + ")"@))),
        vote_amount <= max_bet ==> (post_uid matches Ok(Some(u)) ==> (prev_uid is None ==> (res matches Ok(
            q,
        ) && q@ == "select hot_or_not_evaluator.compare_videos_hot_or_not_v2('"@ + u@ + "', "@
            + "NULL"@ + ")"@))),
{
    if let Err(e) = crate::bet::check_vote_amount(vote_amount, max_bet) {
        return Err(e.message());
    }
    let uid = match post_uid {
        Err(e) => return Err(String::from_str(e)),
        Ok(None) => return Err(String::from_str("post not found")),
        Ok(Some(u)) => u,
    };
    let prev = match prev_uid {
        None => None,
        Some(Err(e)) => return Err(String::from_str(e)),
        Some(Ok(None)) => return Err(String::from_str("previous post not found")),
        Some(Ok(Some(p))) => Some(p),
    };
    Ok(compare_videos_query(uid, prev))
}

/// The side the evaluator put the post on, from its answer: an error when
/// it gave no value, the reading's error when the value could not be read,
/// and otherwise hot or not as it found.
pub fn evaluation_sentiment(answer: Option<Result<bool, &str>>) -> (res: Result<VoteKind, String>)
    ensures
        answer is None ==> (res matches Err(m) && m@
            == "hot_or_not_evaluator.compare_videos_hot_or_not_v2 returned no value"@),
        answer matches Some(Err(e)) ==> (res matches Err(m) && m@ == e@),
        answer matches Some(Ok(h)) ==> (res matches Ok(k) && (h ==> k == VoteKind::Hot) && (!h ==> k
            == VoteKind::Not)),
{
    match answer {
        None => Err(String::from_str("hot_or_not_evaluator.compare_videos_hot_or_not_v2 returned no value")),
        Some(Err(e)) => Err(String::from_str(e)),
        Some(Ok(h)) => Ok(sentiment_of(h)),
    }
}



/// The vote the game worker takes: the post's publisher and id, the stake,
/// the side voted, the side the evaluator found, the voter's signature, and
/// the post's creator.
#[derive(Clone, PartialEq, Eq, Debug)]
pub struct VoteWorkerRequest<S> {
    pub publisher_principal: Vec<u8>,
    pub post_id: u64,
    pub vote_amount: u128,
    pub direction: VoteKind,
    pub fetched_sentiment: VoteKind,
    pub signature: S,
    pub post_creator: Option<Vec<u8>>,
}

/// The vote the worker is sent for a post whose poster is `poster`: the
/// voter's request with the poster as publisher and creator, the side the
/// evaluator found, and the voter's signature.
pub fn vote_worker_request<S>(
    poster: &Vec<u8>,
    post_id: u64,
    vote_amount: u128,
    direction: VoteKind,
    fetched_sentiment: VoteKind,
    signature: S,
) -> (req: VoteWorkerRequest<S>)
    ensures
        req.publisher_principal@ == poster@,
        req.post_id == post_id,
        req.vote_amount == vote_amount,
        req.direction == direction,
        req.fetched_sentiment == fetched_sentiment,
        req.signature == signature,
        req.post_creator matches Some(c) && c@ == poster@,
{
    let mut publisher: Vec<u8> = Vec::new();
    let mut creator: Vec<u8> = Vec::new();
    let mut i: usize = 0;
    while i < poster.len()
        invariant
            i <= poster.len(),
            publisher@ == poster@.take(i as int),
            creator@ == poster@.take(i as int),
        decreases poster.len() - i,
    {
        publisher.push(poster[i]);
        creator.push(poster[i]);
        assert(poster@.take(i + 1) =~= poster@.take(i as int).push(poster@[i as int]));
        i = i + 1;
    }
    assert(poster@.take(poster.len() as int) =~= poster@);
    VoteWorkerRequest {
        publisher_principal: publisher,
        post_id,
        vote_amount,
        direction,
        fetched_sentiment,
        signature,
        post_creator: Some(creator),
    }
}

/// A settled vote as the page gets it: the worker's result and the
/// evaluator's comparison.
#[derive(Clone, PartialEq, Eq, Debug)]
pub struct VoteAPIRes<G, R> {
    pub game_result: G,
    pub video_comparison_result: R,
}

/// What the page gets once the worker answered a vote: on status 200, the
/// result the worker sent (or the error of reading it) with the
/// evaluator's comparison; otherwise an error with the worker's words.
pub fn vote_result<G, R>(status: u16, body: &str, reply: Result<G, String>, comparison: R) -> (res:
    Result<VoteAPIRes<G, R>, String>)
    ensures
        status != 200 ==> (res matches Err(m) && m@ == "worker error: "@ + body@),
        status == 200 ==> (reply matches Ok(g) ==> res == Ok::<VoteAPIRes<G, R>, String>(
            VoteAPIRes { game_result: g, video_comparison_result: comparison },
        )),
        status == 200 ==> (reply matches Err(e) ==> (res matches Err(m) && m@ == e@)),
{
    if status != 200 {
        return Err(crate::withdraw::worker_refusal_text(body));
    }
    match reply {
        Ok(g) => Ok(VoteAPIRes { game_result: g, video_comparison_result: comparison }),
        Err(e) => Err(e),
    }
}

} // verus!
