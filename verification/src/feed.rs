//! The post feed's queue: posts the viewer scrolls through, the slots the
//! player renders, and a backlog of fetched posts ordered by priority.

use vstd::prelude::*;
use indexmap::IndexSet;
use crate::store::{
    Backlog, backlog_items, backlog_len, backlog_new, backlog_pop_max, backlog_push,
    post_set_drain_front, post_set_get_index,
    post_set_insert, post_set_items, post_set_len, post_set_new, priority_le,
};

verus! {

/// How many new posts one refill from the backlog moves into the queue, at most.
pub const BACKLOG_MOVE_CAP: usize = 10;

/// A fetched post goes straight into the queue while at most this many
/// queued posts lie at or ahead of the viewer's position.
pub const QUEUE_LOOKAHEAD: usize = 10;

/// The feed fetches more posts while its backlog holds fewer than this.
pub const BACKLOG_REFILL_BELOW: usize = 100;

/// How many posts behind the viewer survive when a queue is restored.
pub const KEPT_BEHIND: usize = 6;

/// The backlog priority of the post at `position` in fetch batch `batch`:
/// later batches first, and within a batch, earlier positions first.
pub open spec fn feed_priority(batch: usize, position: usize) -> (usize, usize) {
    (batch, (usize::MAX - position) as usize)
}

/// The backlog hands out later batches first, and within a batch, posts in
/// the order they were fetched.
pub proof fn law_feed_priority_order(batch: usize, position: usize, other_batch: usize, other_position: usize)
    ensures
        batch < other_batch ==> priority_le(feed_priority(batch, position), feed_priority(other_batch, other_position))
            && feed_priority(batch, position) != feed_priority(other_batch, other_position),
        batch == other_batch && position < other_position ==> priority_le(
            feed_priority(other_batch, other_position),
            feed_priority(batch, position),
        ) && feed_priority(batch, position) != feed_priority(other_batch, other_position),
{
}

/// `a - b`, or zero when `b` is larger.
pub open spec fn sat_sub(a: int, b: int) -> int {
    if a > b {
        a - b
    } else {
        0
    }
}

/// The queue after offering it `item`: appended unless already present.
pub open spec fn with_new(q: Seq<u64>, item: u64) -> Seq<u64> {
    if q.contains(item) {
        q
    } else {
        q.push(item)
    }
}

/// The queue after offering it the items of `s` in order.
pub open spec fn append_new(q: Seq<u64>, s: Seq<u64>) -> Seq<u64>
    decreases s.len(),
{
    if s.len() == 0 {
        q
    } else {
        with_new(append_new(q, s.drop_last()), s.last())
    }
}

/// How many items of `s` entered the queue with it no longer than `max`
/// afterwards, when offered in order.
pub open spec fn moved_count(q: Seq<u64>, s: Seq<u64>, max: nat) -> nat
    decreases s.len(),
{
    if s.len() == 0 {
        0
    } else {
        let before = append_new(q, s.drop_last());
        moved_count(q, s.drop_last(), max) + if !before.contains(s.last()) && before.len() + 1
            <= max {
            1nat
        } else {
            0nat
        }
    }
}

/// The queue and backlog after one fetched post at `position` of batch `batch`
/// arrives while the viewer is at `cur`.
pub open spec fn ingest_step(
    q: Seq<u64>,
    b: Map<u64, (usize, usize)>,
    cur: int,
    batch: usize,
    position: usize,
    post: u64,
) -> (Seq<u64>, Map<u64, (usize, usize)>) {
    if sat_sub(q.len() as int, cur) <= QUEUE_LOOKAHEAD {
        (with_new(q, post), b)
    } else {
        (q, b.insert(post, feed_priority(batch, position)))
    }
}

/// The queue and backlog after a fetched batch arrives, post by post.
pub open spec fn ingest_model(
    q: Seq<u64>,
    b: Map<u64, (usize, usize)>,
    cur: int,
    batch: usize,
    posts: Seq<u64>,
) -> (Seq<u64>, Map<u64, (usize, usize)>)
    decreases posts.len(),
{
    if posts.len() == 0 {
        (q, b)
    } else {
        let prev = ingest_model(q, b, cur, batch, posts.drop_last());
        ingest_step(prev.0, prev.1, cur, batch, (posts.len() - 1) as usize, posts.last())
    }
}

/// Offering posts to a queue keeps what it held, in place, and leaves each
/// offered post in it.
pub proof fn lemma_append_new_keeps(q: Seq<u64>, s: Seq<u64>)
    ensures
        append_new(q, s).len() >= q.len(),
        forall|i: int| 0 <= i < q.len() ==> #[trigger] append_new(q, s)[i] == q[i],
        forall|i: int| 0 <= i < s.len() ==> append_new(q, s).contains(#[trigger] s[i]),
    decreases s.len(),
{
    if s.len() > 0 {
        let prev = append_new(q, s.drop_last());
        lemma_append_new_keeps(q, s.drop_last());
        assert forall|i: int| 0 <= i < s.len() implies append_new(q, s).contains(#[trigger] s[i]) by {
            if i < s.len() - 1 {
                assert(s.drop_last()[i] == s[i]);
                assert(prev.contains(s[i]));
                let k = choose|k: int| 0 <= k < prev.len() && prev[k] == s[i];
                assert(append_new(q, s)[k] == s[i]);
            } else {
                if !prev.contains(s.last()) {
                    assert(append_new(q, s)[prev.len() as int] == s.last());
                }
            }
        }
    }
}

/// A fetched batch loses no post: each ends up in the queue or waiting in
/// the backlog, and what the queue and the backlog held before stays there.
pub proof fn law_ingest_keeps_every_post(
    q: Seq<u64>,
    b: Map<u64, (usize, usize)>,
    cur: int,
    batch: usize,
    posts: Seq<u64>,
)
    ensures
        ({
            let after = ingest_model(q, b, cur, batch, posts);
            &&& forall|i: int| 0 <= i < q.len() ==> #[trigger] after.0[i] == q[i]
            &&& after.0.len() >= q.len()
            &&& forall|k: u64| b.contains_key(k) ==> #[trigger] after.1.contains_key(k)
                || after.0.contains(k)
            &&& forall|i: int| 0 <= i < posts.len() ==> after.0.contains(#[trigger] posts[i])
                || after.1.contains_key(posts[i])
        }),
    decreases posts.len(),
{
    if posts.len() > 0 {
        let prev = ingest_model(q, b, cur, batch, posts.drop_last());
        law_ingest_keeps_every_post(q, b, cur, batch, posts.drop_last());
        let after = ingest_model(q, b, cur, batch, posts);
        let p = posts.last();
        assert(after == ingest_step(prev.0, prev.1, cur, batch, (posts.len() - 1) as usize, p));
        lemma_append_new_keeps(prev.0, seq![p]);
        assert(append_new(prev.0, seq![p]) == with_new(prev.0, p)) by {
            assert(seq![p].drop_last() =~= Seq::<u64>::empty());
            assert(append_new(prev.0, Seq::<u64>::empty()) == prev.0);
            assert(seq![p].last() == p);
        }
        assert forall|k: u64| b.contains_key(k) implies #[trigger] after.1.contains_key(k)
            || after.0.contains(k) by {
            if prev.0.contains(k) {
                let j = choose|j: int| 0 <= j < prev.0.len() && prev.0[j] == k;
                assert(after.0[j] == k);
            }
        }
        assert forall|i: int| 0 <= i < posts.len() implies after.0.contains(#[trigger] posts[i])
            || after.1.contains_key(posts[i]) by {
            if i < posts.len() - 1 {
                assert(posts.drop_last()[i] == posts[i]);
                if prev.0.contains(posts[i]) {
                    let j = choose|j: int| 0 <= j < prev.0.len() && prev.0[j] == posts[i];
                    assert(after.0[j] == posts[i]);
                }
            } else {
                assert(seq![p][0] == p);
            }
        }
    }
}

/// The window of the feed source's list the next fetch asks for: `limit`
/// posts from `start`.
#[derive(Clone, Copy, PartialEq, Eq, Debug)]
pub struct FetchCursor {
    pub start: u64,
    pub limit: u64,
}

impl FetchCursor {
    /// Sets how many posts the window covers.
    pub fn set_limit(&mut self, limit: u64)
        ensures
            final(self).start == old(self).start,
            final(self).limit == limit,
    {
        self.limit = limit;
    }

    /// Moves the window past the posts it covers, and sets how many the next
    /// one covers.
    pub fn advance_and_set_limit(&mut self, limit: u64)
        requires
            old(self).start + old(self).limit <= u64::MAX,
        ensures
            final(self).start == old(self).start + old(self).limit,
            final(self).limit == limit,
    {
        self.start = self.start + self.limit;
        self.limit = limit;
    }
}

/// The page size the feed falls back to when its source is not the
/// recommendation feed.
pub const FALLBACK_PAGE: u64 = 50;

/// The state of the scrolling post feed.
///
/// Posts are keys chosen by the caller; the feed never looks inside them.
pub struct PostViewCtx {
    video_queue: IndexSet<u64>,
    video_queue_for_feed: Vec<Option<u64>>,
    current_idx: usize,
    queue_end: bool,
    priority_q: Backlog,
    batch_cnt: usize,
    max_feed_elements: usize,
    fetch_cursor: FetchCursor,
}

impl PostViewCtx {
    /// The posts of the queue, oldest first.
    pub closed spec fn queue(self) -> Seq<u64> {
        post_set_items(self.video_queue)
    }

    /// The backlog: each waiting post with its priority.
    pub closed spec fn backlog(self) -> Map<u64, (usize, usize)> {
        backlog_items(self.priority_q)
    }

    /// The player's slots.
    pub closed spec fn slots(self) -> Seq<Option<u64>> {
        self.video_queue_for_feed@
    }

    pub closed spec fn current(self) -> usize {
        self.current_idx
    }

    pub closed spec fn ended(self) -> bool {
        self.queue_end
    }

    pub closed spec fn batch(self) -> usize {
        self.batch_cnt
    }

    pub closed spec fn max_elements(self) -> usize {
        self.max_feed_elements
    }

    /// The window the next fetch asks for.
    pub closed spec fn cursor(self) -> FetchCursor {
        self.fetch_cursor
    }

    /// The feed's invariant: the queue holds no post twice, the backlog is
    /// finite, there are no more slots than the feed allows, and every slot the
    /// queue reaches shows the queue's post at that position.
    pub closed spec fn wf(self) -> bool {
        &&& self.queue().no_duplicates()
        &&& self.backlog().dom().finite()
        &&& self.slots().len() <= self.max_feed_elements
        &&& forall|i: int|
            0 <= i < self.queue().len() && i < self.slots().len() ==> #[trigger] self.slots()[i]
                == Some(self.queue()[i])
    }

    /// What restoring the queue requires: the posts to forget behind the viewer
    /// exist in the queue and in the slots, or, for a queue of at most one
    /// post, a first slot to show the restored post in.
    pub open spec fn restorable(self) -> bool {
        if self.queue().len() > 1 {
            &&& sat_sub(self.current() as int, KEPT_BEHIND as int) <= self.queue().len()
            &&& sat_sub(self.current() as int, KEPT_BEHIND as int) <= self.slots().len()
        } else {
            self.slots().len() > 0
        }
    }

    /// An empty feed with `max_feed_elements` empty slots.
    pub fn new(max_feed_elements: usize, cursor: FetchCursor) -> (ctx: Self)
        ensures
            ctx.cursor() == cursor,
            ctx.wf(),
            ctx.queue() == Seq::<u64>::empty(),
            ctx.backlog().dom().is_empty(),
            ctx.slots() == Seq::new(max_feed_elements as nat, |i: int| None::<u64>),
            ctx.current() == 0,
            !ctx.ended(),
            ctx.batch() == 0,
            ctx.max_elements() == max_feed_elements,
    {
        let mut slots: Vec<Option<u64>> = Vec::new();
        let mut i: usize = 0;
        while i < max_feed_elements
            invariant
                i <= max_feed_elements,
                slots@ == Seq::new(i as nat, |j: int| None::<u64>),
            decreases max_feed_elements - i,
        {
            slots.push(None);
            i = i + 1;
        }
        let ctx = PostViewCtx {
            video_queue: post_set_new(),
            video_queue_for_feed: slots,
            current_idx: 0,
            queue_end: false,
            priority_q: backlog_new(),
            batch_cnt: 0,
            max_feed_elements,
            fetch_cursor: cursor,
        };
        proof {
            assert(ctx.backlog().dom() =~= Set::<u64>::empty());
        }
        ctx
    }

    /// The position the viewer is at.
    pub fn current_idx(&self) -> (idx: usize)
        ensures
            idx == self.current(),
    {
        self.current_idx
    }

    /// Moves the viewer to `idx`.
    pub fn set_current_idx(&mut self, idx: usize)
        requires
            old(self).wf(),
        ensures
            final(self).wf(),
            final(self).current() == idx,
            final(self).queue() == old(self).queue(),
            final(self).backlog() == old(self).backlog(),
            final(self).slots() == old(self).slots(),
            final(self).ended() == old(self).ended(),
            final(self).batch() == old(self).batch(),
            final(self).max_elements() == old(self).max_elements(),
            final(self).cursor() == old(self).cursor(),
    {
        self.current_idx = idx;
    }

    /// Whether the source has no more posts to give.
    pub fn queue_end(&self) -> (end: bool)
        ensures
            end == self.ended(),
    {
        self.queue_end
    }

    /// The number of posts in the queue.
    pub fn queue_len(&self) -> (n: usize)
        ensures
            n == self.queue().len(),
    {
        post_set_len(&self.video_queue)
    }

    /// The post at a queue position, if there is one.
    pub fn post_at(&self, idx: usize) -> (post: Option<u64>)
        ensures
            idx < self.queue().len() ==> post == Some(self.queue()[idx as int]),
            idx >= self.queue().len() ==> post is None,
    {
        post_set_get_index(&self.video_queue, idx)
    }

    /// The post before a queue position, if there is one.
    pub fn previous_post(&self, idx: usize) -> (post: Option<u64>)
        ensures
            0 < idx <= self.queue().len() ==> post == Some(self.queue()[idx - 1]),
            idx == 0 || idx > self.queue().len() ==> post is None,
    {
        if idx > 0 {
            post_set_get_index(&self.video_queue, idx - 1)
        } else {
            None
        }
    }

    /// The post the viewer is at, if the queue reaches that far.
    pub fn current_post(&self) -> (post: Option<u64>)
        ensures
            self.current() < self.queue().len() ==> post == Some(self.queue()[self.current() as int]),
            self.current() >= self.queue().len() ==> post is None,
    {
        post_set_get_index(&self.video_queue, self.current_idx)
    }

    /// What the player's slot `i` shows, if the slot exists.
    pub fn slot(&self, i: usize) -> (post: Option<Option<u64>>)
        ensures
            i < self.slots().len() ==> post == Some(self.slots()[i as int]),
            i >= self.slots().len() ==> post is None,
    {
        if i < self.video_queue_for_feed.len() {
            Some(self.video_queue_for_feed[i])
        } else {
            None
        }
    }

    /// Whether the backlog has run low enough to fetch another batch.
    pub fn needs_backfill(&self) -> (fetch: bool)
        requires
            self.wf(),
        ensures
            fetch == (self.backlog().dom().len() < BACKLOG_REFILL_BELOW),
    {
        backlog_len(&self.priority_q) < BACKLOG_REFILL_BELOW
    }

    /// Whether scrolling near the end should ask for more posts: only when no
    /// fetch is under way and the source has not run out.
    pub fn should_fetch_more(&self, fetch_pending: bool) -> (fetch: bool)
        ensures
            fetch == (!fetch_pending && !self.ended()),
    {
        !fetch_pending && !self.queue_end
    }

    /// The window the next fetch asks for.
    pub fn fetch_cursor(&self) -> (cursor: FetchCursor)
        ensures
            cursor == self.cursor(),
    {
        self.fetch_cursor
    }

    /// A feed that opens on a post: one whose cursor is past its first page,
    /// or whose source has ended, recovers its earlier state and keeps its
    /// cursor; any other starts its cursor at 1, the opened post being the
    /// first. Says whether it recovers.
    pub fn resume_on_post(&mut self) -> (recovering: bool)
        requires
            old(self).wf(),
        ensures
            final(self).wf(),
            recovering == (old(self).cursor().start > 1 || old(self).ended()),
            recovering ==> final(self).cursor() == old(self).cursor(),
            !recovering ==> final(self).cursor() == (FetchCursor {
                start: 1,
                limit: old(self).cursor().limit,
            }),
            final(self).queue() == old(self).queue(),
            final(self).backlog() == old(self).backlog(),
            final(self).slots() == old(self).slots(),
            final(self).current() == old(self).current(),
            final(self).ended() == old(self).ended(),
            final(self).batch() == old(self).batch(),
            final(self).max_elements() == old(self).max_elements(),
    {
        if self.fetch_cursor.start > 1 || self.queue_end {
            true
        } else {
            self.fetch_cursor.start = 1;
            false
        }
    }

    /// After a fetch: when the source was not the recommendation feed, the
    /// cursor's page becomes `FALLBACK_PAGE` posts and it moves past one
    /// such page.
    pub fn after_fetch(&mut self, recommendation_feed: bool)
        requires
            old(self).wf(),
            !recommendation_feed ==> old(self).cursor().start + FALLBACK_PAGE <= u64::MAX,
        ensures
            final(self).wf(),
            recommendation_feed ==> final(self).cursor() == old(self).cursor(),
            !recommendation_feed ==> final(self).cursor() == (FetchCursor {
                start: (old(self).cursor().start + FALLBACK_PAGE) as u64,
                limit: FALLBACK_PAGE,
            }),
            final(self).queue() == old(self).queue(),
            final(self).backlog() == old(self).backlog(),
            final(self).slots() == old(self).slots(),
            final(self).current() == old(self).current(),
            final(self).ended() == old(self).ended(),
            final(self).batch() == old(self).batch(),
            final(self).max_elements() == old(self).max_elements(),
    {
        if !recommendation_feed {
            self.fetch_cursor.set_limit(FALLBACK_PAGE);
            self.fetch_cursor.advance_and_set_limit(FALLBACK_PAGE);
        }
    }

    /// Offers `item` to the queue; a newly queued post is shown in the slot of
    /// its position when the queue is within the feed's limit and the slot
    /// exists. Says whether the post counts as moved: new, and within the limit.
    fn enqueue(&mut self, item: u64) -> (moved: bool)
        requires
            old(self).wf(),
        ensures
            final(self).wf(),
            final(self).queue() == with_new(old(self).queue(), item),
            moved == (!old(self).queue().contains(item) && old(self).queue().len() + 1
                <= old(self).max_elements()),
            final(self).slots().len() == old(self).slots().len(),
            forall|i: int|
                final(self).queue().len() <= i < final(self).slots().len() ==> #[trigger] final(self).slots()[i] == old(self).slots()[i],
            final(self).backlog() == old(self).backlog(),
            final(self).current() == old(self).current(),
            final(self).ended() == old(self).ended(),
            final(self).batch() == old(self).batch(),
            final(self).max_elements() == old(self).max_elements(),
            final(self).cursor() == old(self).cursor(),
    {
        let ghost q0 = self.queue();
        let added = post_set_insert(&mut self.video_queue, item);
        if added {
            let len = post_set_len(&self.video_queue);
            assert(len == q0.len() + 1);
            if len <= self.max_feed_elements {
                if len - 1 < self.video_queue_for_feed.len() {
                    self.video_queue_for_feed.set(len - 1, Some(item));
                }
                proof {
                    assert(self.queue() == q0.push(item));
                    assert(self.queue().no_duplicates());
                }
                return true;
            }
            proof {
                assert(self.queue() == q0.push(item));
            }
        }
        false
    }

    /// Moves posts from the backlog into the queue, greatest priority first,
    /// until `BACKLOG_MOVE_CAP` posts have moved or the backlog is empty; says
    /// how many moved.
    pub fn drain_backlog(&mut self) -> (moved: usize)
        requires
            old(self).wf(),
        ensures
            final(self).wf(),
            exists|popped: Seq<u64>| #[trigger] old(self).drained_into(popped, *final(self), moved),
            moved <= 10,
            final(self).backlog().dom().is_empty() || moved == 10,
            forall|k: u64| #[trigger] final(self).backlog().contains_key(k) ==> old(self).backlog().contains_key(k)
                && final(self).backlog()[k] == old(self).backlog()[k],
            forall|k: u64| #[trigger] old(self).backlog().contains_key(k) ==> final(self).backlog().contains_key(k)
                || final(self).queue().contains(k),
            forall|k: u64, m: u64|
                #![trigger final(self).backlog().contains_key(k), old(self).backlog().contains_key(m)]
                final(self).backlog().contains_key(k) && old(self).backlog().contains_key(m)
                    && !final(self).backlog().contains_key(m) ==> (old(self).backlog()[k].0
                    < old(self).backlog()[m].0 || (old(self).backlog()[k].0 == old(self).backlog()[m].0
                    && old(self).backlog()[k].1 <= old(self).backlog()[m].1)),
            final(self).current() == old(self).current(),
            final(self).ended() == old(self).ended(),
            final(self).batch() == old(self).batch(),
            final(self).max_elements() == old(self).max_elements(),
            final(self).cursor() == old(self).cursor(),
    {
        let ghost b0 = self.backlog();
        let ghost q0 = self.queue();
        let ghost s0 = self.slots();
        let ghost max = self.max_feed_elements as nat;
        let ghost mut popped: Seq<u64> = Seq::empty();
        let mut moved: usize = 0;
        loop
            invariant
                self.wf(),
                self.max_feed_elements == max,
                self.fetch_cursor == old(self).fetch_cursor,
                max == old(self).max_feed_elements as nat,
                self.current() == old(self).current(),
                self.ended() == old(self).ended(),
                self.batch() == old(self).batch(),
                b0 == old(self).backlog(),
                q0 == old(self).queue(),
                s0 == old(self).slots(),
                self.queue() == append_new(q0, popped),
                self.backlog() == b0.remove_keys(popped.to_set()),
                popped.no_duplicates(),
                forall|i: int| 0 <= i < popped.len() ==> b0.contains_key(#[trigger] popped[i]),
                forall|i: int, j: int|
                    0 <= i < j < popped.len() ==> priority_le(
                        b0[#[trigger] popped[j]],
                        b0[#[trigger] popped[i]],
                    ),
                forall|i: int, k: u64|
                    0 <= i < popped.len() && #[trigger] self.backlog().contains_key(k)
                        ==> priority_le(b0[k], b0[#[trigger] popped[i]]),
                moved == moved_count(q0, popped, max),
                moved < BACKLOG_MOVE_CAP,
                self.slots().len() == s0.len(),
                forall|i: int|
                    self.queue().len() <= i < self.slots().len() ==> #[trigger] self.slots()[i]
                        == s0[i],
            decreases self.backlog().dom().len(),
        {
            let ghost before = self.backlog();
            match backlog_pop_max(&mut self.priority_q) {
                None => {
                    proof {
                        if popped.len() > 0 {
                            assert(moved_count(q0, popped, max) >= moved_count(q0, popped.drop_last(), max));
                        }
                        assert(old(self).drained_into(popped, *self, moved));
                        lemma_drained_facts(*old(self), popped, *self, moved);
                    }
                    return moved;
                },
                Some(pair) => {
                    let next = pair.0;
                    let ghost prev_popped = popped;
                    proof {
                        popped = popped.push(next);
                        assert(popped.drop_last() == prev_popped);
                        assert(b0.contains_key(next));
                        assert(!prev_popped.contains(next));
                        assert forall|a: u64|
                            popped.to_set().contains(a) == prev_popped.to_set().insert(next).contains(
                                a,
                            ) by {
                            if prev_popped.contains(a) {
                                let i = choose|i: int| 0 <= i < prev_popped.len() && prev_popped[i] == a;
                                assert(popped[i] == a);
                            }
                            if popped.contains(a) {
                                let i = choose|i: int| 0 <= i < popped.len() && popped[i] == a;
                                if i < prev_popped.len() {
                                    assert(prev_popped[i] == a);
                                }
                            }
                            if a == next {
                                assert(popped[popped.len() - 1] == next);
                            }
                        }
                        assert(popped.to_set() =~= prev_popped.to_set().insert(next));
                        assert(b0.remove_keys(popped.to_set()).dom() =~= before.remove(next).dom());
                        assert(b0.remove_keys(popped.to_set()) =~= before.remove(next));
                    }
                    let counts = self.enqueue(next);
                    if counts {
                        moved = moved + 1;
                    }
                    proof {
                        assert forall|i: int, j: int|
                            0 <= i < j < popped.len() implies priority_le(
                            b0[#[trigger] popped[j]],
                            b0[#[trigger] popped[i]],
                        ) by {
                            if j == popped.len() - 1 {
                                assert(before.contains_key(next));
                            }
                        }
                        assert forall|i: int, k: u64|
                            0 <= i < popped.len() && #[trigger] self.backlog().contains_key(
                                k,
                            ) implies priority_le(b0[k], b0[#[trigger] popped[i]]) by {
                            assert(before.contains_key(k));
                        }
                        assert(self.backlog().dom().len() < before.dom().len());
                    }
                    if moved >= BACKLOG_MOVE_CAP {
                        proof {
                            assert(old(self).drained_into(popped, *self, moved));
                            lemma_drained_facts(*old(self), popped, *self, moved);
                        }
                        return moved;
                    }
                },
            }
        }
    }

    /// Takes in a fetched batch, post by post: while at most `QUEUE_LOOKAHEAD`
    /// queued posts lie at or ahead of the viewer, the post is offered to the
    /// queue; otherwise it waits in the backlog with the priority of its
    /// position in this batch. Then marks the source ended if it says so, and
    /// counts the batch.
    pub fn ingest_batch(&mut self, posts: &Vec<u64>, end: bool)
        requires
            old(self).wf(),
            old(self).batch() < usize::MAX,
        ensures
            final(self).wf(),
            (final(self).queue(), final(self).backlog()) == ingest_model(
                old(self).queue(),
                old(self).backlog(),
                old(self).current() as int,
                old(self).batch(),
                posts@,
            ),
            final(self).slots().len() == old(self).slots().len(),
            forall|i: int|
                final(self).queue().len() <= i < final(self).slots().len() ==> #[trigger] final(self).slots()[i] == old(self).slots()[i],
            final(self).current() == old(self).current(),
            final(self).ended() == (old(self).ended() || end),
            final(self).batch() == old(self).batch() + 1,
            final(self).max_elements() == old(self).max_elements(),
            final(self).cursor() == old(self).cursor(),
            old(self).queue().len() + posts.len() <= old(self).current() + QUEUE_LOOKAHEAD + 1
                ==> final(self).backlog() == old(self).backlog() && (forall|i: int|
                0 <= i < posts.len() ==> final(self).queue().contains(#[trigger] posts@[i])) && (
                forall|i: int|
                    0 <= i < old(self).queue().len() ==> #[trigger] final(self).queue()[i] == old(
                        self,
                    ).queue()[i]),
            old(self).queue().len() - old(self).current() > QUEUE_LOOKAHEAD && posts@.no_duplicates()
                ==> final(self).queue() == old(self).queue() && (forall|i: int|
                0 <= i < posts.len() ==> final(self).backlog().contains_key(#[trigger] posts@[i])
                    && final(self).backlog()[posts@[i]] == (old(self).batch(), (usize::MAX
                    - i) as usize)),
    {
        let batch = self.batch_cnt;
        let ghost q0 = self.queue();
        let ghost b0 = self.backlog();
        let ghost s0 = self.slots();
        let mut i: usize = 0;
        while i < posts.len()
            invariant
                i <= posts.len(),
                self.wf(),
                batch == old(self).batch(),
                self.batch_cnt == batch,
                self.current_idx == old(self).current(),
                self.queue_end == old(self).ended(),
                self.max_feed_elements == old(self).max_elements(),
                self.fetch_cursor == old(self).fetch_cursor,
                q0 == old(self).queue(),
                b0 == old(self).backlog(),
                s0 == old(self).slots(),
                (self.queue(), self.backlog()) == ingest_model(
                    q0,
                    b0,
                    self.current_idx as int,
                    batch,
                    posts@.subrange(0, i as int),
                ),
                self.slots().len() == s0.len(),
                forall|j: int|
                    self.queue().len() <= j < self.slots().len() ==> #[trigger] self.slots()[j]
                        == s0[j],
            decreases posts.len() - i,
        {
            let post = posts[i];
            let len = post_set_len(&self.video_queue);
            let ahead = if len > self.current_idx {
                len - self.current_idx
            } else {
                0
            };
            proof {
                assert(posts@.subrange(0, i + 1).drop_last() =~= posts@.subrange(0, i as int));
            }
            if ahead <= QUEUE_LOOKAHEAD {
                self.enqueue(post);
            } else {
                backlog_push(&mut self.priority_q, post, (batch, usize::MAX - i));
            }
            i = i + 1;
        }
        proof {
            assert(posts@.subrange(0, posts.len() as int) =~= posts@);
            if q0.len() + posts@.len() <= old(self).current() + QUEUE_LOOKAHEAD + 1 {
                law_batch_within_lookahead_is_queued(q0, b0, old(self).current() as int, batch, posts@);
            }
            if q0.len() - old(self).current() > QUEUE_LOOKAHEAD && posts@.no_duplicates() {
                law_batch_beyond_lookahead_waits(q0, b0, old(self).current() as int, batch, posts@);
            }
        }
        if end {
            self.queue_end = true;
        }
        self.batch_cnt = batch + 1;
    }

    /// Drops `count` slots from the front of `slots`.
    fn drop_front_slots(slots: &Vec<Option<u64>>, count: usize) -> (rest: Vec<Option<u64>>)
        requires
            count <= slots.len(),
        ensures
            rest@ == slots@.subrange(count as int, slots.len() as int),
    {
        let mut rest: Vec<Option<u64>> = Vec::new();
        let mut i: usize = count;
        while i < slots.len()
            invariant
                count <= i <= slots.len(),
                rest@ == slots@.subrange(count as int, i as int),
            decreases slots.len() - i,
        {
            rest.push(slots[i]);
            i = i + 1;
        }
        rest
    }

    /// Restores the queue when the feed opens on `initial`: a queue of more
    /// than one post forgets all but `KEPT_BEHIND` of the posts behind the
    /// viewer, from the queue and the slots alike, and the viewer's position
    /// shifts with them; any other queue becomes just `initial`, shown in the
    /// first slot.
    pub fn restore_queue(&mut self, initial: u64)
        requires
            old(self).wf(),
            old(self).restorable(),
        ensures
            final(self).wf(),
            old(self).queue().len() > 1 ==> {
                let rem = sat_sub(old(self).current() as int, KEPT_BEHIND as int);
                &&& final(self).queue() == old(self).queue().subrange(rem, old(self).queue().len() as int)
                &&& final(self).slots() == old(self).slots().subrange(rem, old(self).slots().len() as int)
                &&& final(self).current() == old(self).current() - rem
            },
            old(self).queue().len() <= 1 ==> {
                &&& final(self).queue() == seq![initial]
                &&& final(self).slots() == old(self).slots().update(0, Some(initial))
                &&& final(self).current() == old(self).current()
            },
            final(self).backlog() == old(self).backlog(),
            final(self).ended() == old(self).ended(),
            final(self).batch() == old(self).batch(),
            final(self).max_elements() == old(self).max_elements(),
            final(self).cursor() == old(self).cursor(),
    {
        let len = post_set_len(&self.video_queue);
        if len > 1 {
            let rem = if self.current_idx > KEPT_BEHIND {
                self.current_idx - KEPT_BEHIND
            } else {
                0
            };
            let ghost q0 = self.queue();
            let ghost s0 = self.slots();
            self.current_idx = self.current_idx - rem;
            post_set_drain_front(&mut self.video_queue, rem);
            self.video_queue_for_feed = Self::drop_front_slots(&self.video_queue_for_feed, rem);
            proof {
                assert forall|i: int|
                    0 <= i < self.queue().len() && i < self.slots().len() implies #[trigger] self.slots()[i]
                        == Some(self.queue()[i]) by {
                    assert(s0[i + rem] == Some(q0[i + rem]));
                }
            }
            return;
        }
        self.video_queue = post_set_new();
        post_set_insert(&mut self.video_queue, initial);
        self.video_queue_for_feed.set(0, Some(initial));
        proof {
            assert(self.queue() =~= seq![initial]);
        }
    }

    /// What a refill that popped `popped` from this feed's backlog and moved
    /// `moved` posts leaves as `after`: the popped posts came out of the
    /// backlog in order of non-increasing priority, none of them below any post
    /// left behind; they were offered to the queue in that order; `moved`
    /// counts those that entered within the feed's limit; the refill stopped
    /// when the backlog ran dry or `BACKLOG_MOVE_CAP` posts had moved, and not
    /// before; slots past the new queue are untouched.
    pub open spec fn drained_into(self, popped: Seq<u64>, after: Self, moved: usize) -> bool {
        let b0 = self.backlog();
        let max = self.max_elements() as nat;
        &&& popped.no_duplicates()
        &&& forall|i: int| 0 <= i < popped.len() ==> b0.contains_key(#[trigger] popped[i])
        &&& forall|i: int, j: int|
            0 <= i < j < popped.len() ==> priority_le(
                b0[#[trigger] popped[j]],
                b0[#[trigger] popped[i]],
            )
        &&& forall|i: int, k: u64|
            0 <= i < popped.len() && #[trigger] after.backlog().contains_key(k) ==> priority_le(
                b0[k],
                b0[#[trigger] popped[i]],
            )
        &&& after.backlog() == b0.remove_keys(popped.to_set())
        &&& after.queue() == append_new(self.queue(), popped)
        &&& moved == moved_count(self.queue(), popped, max)
        &&& (after.backlog().dom().is_empty() || moved == BACKLOG_MOVE_CAP)
        &&& (popped.len() > 0 ==> moved_count(self.queue(), popped.drop_last(), max)
            < BACKLOG_MOVE_CAP)
        &&& after.slots().len() == self.slots().len()
        &&& forall|i: int|
            after.queue().len() <= i < after.slots().len() ==> #[trigger] after.slots()[i]
                == self.slots()[i]
    }
}

/// What a refill leaves, stated plainly: at most `BACKLOG_MOVE_CAP` posts
/// moved, and fewer only when the backlog ran dry; what still waits kept its
/// priority; what waited before still waits or is queued; and nothing left
/// waiting has a higher priority than a post taken out.
proof fn lemma_drained_facts(before: PostViewCtx, popped: Seq<u64>, after: PostViewCtx, moved: usize)
    requires
        before.drained_into(popped, after, moved),
    ensures
        moved <= 10,
        after.backlog().dom().is_empty() || moved == 10,
        forall|k: u64| #[trigger] after.backlog().contains_key(k) ==> before.backlog().contains_key(k)
            && after.backlog()[k] == before.backlog()[k],
        forall|k: u64| #[trigger] before.backlog().contains_key(k) ==> after.backlog().contains_key(k)
            || after.queue().contains(k),
        forall|k: u64, m: u64|
            #![trigger after.backlog().contains_key(k), before.backlog().contains_key(m)]
            after.backlog().contains_key(k) && before.backlog().contains_key(m)
                && !after.backlog().contains_key(m) ==> (before.backlog()[k].0 < before.backlog()[m].0
                || (before.backlog()[k].0 == before.backlog()[m].0 && before.backlog()[k].1
                <= before.backlog()[m].1)),
{
    law_drain_keeps_every_post(before, popped, after, moved);
    let q = before.queue();
    let max = before.max_elements() as nat;
    if popped.len() > 0 {
        assert(moved_count(q, popped, max) <= moved_count(q, popped.drop_last(), max) + 1);
    }
    let b0 = before.backlog();
    assert forall|k: u64, m: u64|
        after.backlog().contains_key(k) && b0.contains_key(m) && !after.backlog().contains_key(m)
        implies (b0[k].0 < b0[m].0 || (b0[k].0 == b0[m].0 && b0[k].1 <= b0[m].1)) by {
        assert(popped.to_set().contains(m));
        let i = choose|i: int| 0 <= i < popped.len() && popped[i] == m;
        assert(priority_le(b0[k], b0[popped[i]]));
    }
}

/// A refill from the backlog loses no post: each post that waited either
/// still waits or is now in the queue, and the queue keeps what it held, in
/// place.
pub proof fn law_drain_keeps_every_post(before: PostViewCtx, popped: Seq<u64>, after: PostViewCtx, moved: usize)
    requires
        before.drained_into(popped, after, moved),
    ensures
        forall|k: u64| #[trigger] before.backlog().contains_key(k) ==> after.backlog().contains_key(k)
            || after.queue().contains(k),
        after.queue().len() >= before.queue().len(),
        forall|i: int| 0 <= i < before.queue().len() ==> #[trigger] after.queue()[i] == before.queue()[i],
{
    lemma_append_new_keeps(before.queue(), popped);
    assert forall|k: u64| #[trigger] before.backlog().contains_key(k) implies after.backlog().contains_key(k)
        || after.queue().contains(k) by {
        if popped.to_set().contains(k) {
            let i = choose|i: int| 0 <= i < popped.len() && popped[i] == k;
            assert(append_new(before.queue(), popped).contains(popped[i]));
        }
    }
}

/// Restoring a queue of more than one post leaves the viewer on the post
/// they were at, with at most `KEPT_BEHIND` posts behind them.
pub proof fn law_restore_keeps_viewer_on_post(q: Seq<u64>, cur: int)
    requires
        q.len() > 1,
        0 <= cur < q.len(),
    ensures
        ({
            let rem = sat_sub(cur, KEPT_BEHIND as int);
            &&& q.subrange(rem, q.len() as int)[cur - rem] == q[cur]
            &&& cur - rem <= KEPT_BEHIND
            &&& cur - rem >= 0
        }),
{
}


/// One fetched post goes straight into the queue exactly when at most
/// `QUEUE_LOOKAHEAD` queued posts lie at or ahead of the viewer (the queue's
/// length less the viewer's position, however long the queue is); it is
/// then appended unless already queued, and the backlog is untouched.
/// Otherwise the queue is untouched and the post waits in the backlog with
/// the first priority of its batch.
pub proof fn law_one_post_goes_by_lookahead(
    q: Seq<u64>,
    b: Map<u64, (usize, usize)>,
    cur: int,
    batch: usize,
    p: u64,
)
    ensures
        ({
            let after = ingest_model(q, b, cur, batch, seq![p]);
            &&& q.len() - cur <= QUEUE_LOOKAHEAD ==> after.1 == b && (if q.contains(p) {
                after.0 == q
            } else {
                after.0 == q.push(p)
            })
            &&& q.len() - cur > QUEUE_LOOKAHEAD ==> after.0 == q && after.1 == b.insert(
                p,
                (batch, usize::MAX),
            )
        }),
{
    assert(seq![p].drop_last() =~= Seq::<u64>::empty());
    assert(ingest_model(q, b, cur, batch, Seq::<u64>::empty()) == (q, b));
    assert(seq![p].last() == p);
}

/// A batch that fits within the lookahead enters the queue whole: when the
/// queue's length plus the batch's, less the viewer's position, is at most
/// one more than `QUEUE_LOOKAHEAD`, every post of the batch ends up queued,
/// what was queued stays in place, the queue grows by at most the batch,
/// and the backlog is untouched.
pub proof fn law_batch_within_lookahead_is_queued(
    q: Seq<u64>,
    b: Map<u64, (usize, usize)>,
    cur: int,
    batch: usize,
    posts: Seq<u64>,
)
    requires
        q.len() + posts.len() <= cur + QUEUE_LOOKAHEAD + 1,
    ensures
        ({
            let after = ingest_model(q, b, cur, batch, posts);
            &&& after.1 == b
            &&& forall|i: int| 0 <= i < posts.len() ==> after.0.contains(#[trigger] posts[i])
            &&& q.len() <= after.0.len() <= q.len() + posts.len()
            &&& forall|i: int| 0 <= i < q.len() ==> #[trigger] after.0[i] == q[i]
        }),
    decreases posts.len(),
{
    if posts.len() > 0 {
        let d = posts.drop_last();
        law_batch_within_lookahead_is_queued(q, b, cur, batch, d);
        let prev = ingest_model(q, b, cur, batch, d);
        let p = posts.last();
        let after = ingest_model(q, b, cur, batch, posts);
        assert(sat_sub(prev.0.len() as int, cur) <= QUEUE_LOOKAHEAD);
        assert(after == (with_new(prev.0, p), prev.1));
        assert forall|i: int| 0 <= i < posts.len() implies after.0.contains(#[trigger] posts[i]) by {
            if i < posts.len() - 1 {
                assert(d[i] == posts[i]);
                let j = choose|j: int| 0 <= j < prev.0.len() && prev.0[j] == posts[i];
                assert(after.0[j] == posts[i]);
            } else if !prev.0.contains(p) {
                assert(after.0[prev.0.len() as int] == p);
            }
        }
    }
}

/// While more than `QUEUE_LOOKAHEAD` queued posts lie at or ahead of the
/// viewer, a batch of distinct posts leaves the queue untouched and waits
/// whole in the backlog: the post at position `i` with priority
/// `(batch, usize::MAX - i)`, so that earlier posts come out first; what
/// waited before and is not in the batch keeps its priority.
pub proof fn law_batch_beyond_lookahead_waits(
    q: Seq<u64>,
    b: Map<u64, (usize, usize)>,
    cur: int,
    batch: usize,
    posts: Seq<u64>,
)
    requires
        q.len() - cur > QUEUE_LOOKAHEAD,
        posts.no_duplicates(),
        posts.len() <= usize::MAX,
    ensures
        ({
            let after = ingest_model(q, b, cur, batch, posts);
            &&& after.0 == q
            &&& forall|i: int| 0 <= i < posts.len() ==> after.1.contains_key(#[trigger] posts[i])
                && after.1[posts[i]] == (batch, (usize::MAX - i) as usize)
            &&& forall|k: u64| b.contains_key(k) && !posts.contains(k) ==> #[trigger] after.1.contains_key(k)
                && after.1[k] == b[k]
            &&& forall|k: u64| #[trigger] after.1.contains_key(k) ==> b.contains_key(k) || posts.contains(k)
        }),
    decreases posts.len(),
{
    if posts.len() > 0 {
        let d = posts.drop_last();
        assert(d.no_duplicates());
        law_batch_beyond_lookahead_waits(q, b, cur, batch, d);
        let prev = ingest_model(q, b, cur, batch, d);
        let p = posts.last();
        let n = posts.len() as int;
        let after = ingest_model(q, b, cur, batch, posts);
        assert(after == (prev.0, prev.1.insert(p, feed_priority(batch, (n - 1) as usize))));
        assert forall|i: int| 0 <= i < posts.len() implies after.1.contains_key(#[trigger] posts[i])
            && after.1[posts[i]] == (batch, (usize::MAX - i) as usize) by {
            if i < n - 1 {
                assert(d[i] == posts[i]);
                assert(posts[i] != posts[n - 1]);
            }
        }
        assert forall|k: u64| b.contains_key(k) && !posts.contains(k) implies #[trigger] after.1.contains_key(k)
            && after.1[k] == b[k] by {
            assert(k != posts[n - 1]);
            if d.contains(k) {
                let j = choose|j: int| 0 <= j < d.len() && d[j] == k;
                assert(d[j] == posts[j]);
                assert(posts.contains(k));
                assert(false);
            }
            assert(!d.contains(k));
            law_batch_beyond_lookahead_waits(q, b, cur, batch, d);
            assert(prev.1.contains_key(k));
            assert(prev.1[k] == b[k]);
        }
        assert forall|k: u64| #[trigger] after.1.contains_key(k) implies b.contains_key(k) || posts.contains(k) by {
            if k == p {
                assert(posts[n - 1] == k);
            } else {
                assert(prev.1.contains_key(k));
                if !b.contains_key(k) {
                    assert(d.contains(k));
                    let j = choose|j: int| 0 <= j < d.len() && d[j] == k;
                    assert(posts[j] == k);
                }
            }
        }
    } else {
        assert(ingest_model(q, b, cur, batch, posts) == (q, b));
    }
}

} // verus!
