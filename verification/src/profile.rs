//! The posts a profile lists and plays: the queue of a user's posts, the
//! slots the player renders them in, and where the listing stands.

use vstd::prelude::*;
use indexmap::IndexSet;
use crate::store::{post_set_drain_front, post_set_items, post_set_len, post_set_new};

verus! {

/// A slot of the player: its fixed key, and the post it shows, if any.
#[derive(Clone, Copy, PartialEq, Eq, Structural, Debug)]
pub struct FeedSlot {
    pub key: usize,
    pub value: Option<u64>,
}

/// The state a profile's post listing and player share.
///
/// Posts are keys chosen by the caller; the listing never looks inside them.
pub struct ProfilePostsContext {
    video_queue: IndexSet<u64>,
    video_queue_for_feed: Vec<FeedSlot>,
    start_index: usize,
    current_index: usize,
    queue_end: bool,
}

impl ProfilePostsContext {
    /// The posts listed so far, in the order they arrived.
    pub closed spec fn queue(&self) -> Seq<u64> {
        post_set_items(self.video_queue)
    }

    /// The player's slots.
    pub closed spec fn slots(&self) -> Seq<FeedSlot> {
        self.video_queue_for_feed@
    }

    /// Where the next page of the listing starts.
    pub closed spec fn start(&self) -> usize {
        self.start_index
    }

    /// The post the player shows.
    pub closed spec fn current(&self) -> usize {
        self.current_index
    }

    /// Whether the listing has reached the user's last post.
    pub closed spec fn ended(&self) -> bool {
        self.queue_end
    }

    /// A fresh context with `max_elements` empty slots, keyed 0 onwards: no
    /// posts, nothing played, the listing at its start.
    pub fn with_slots(max_elements: usize) -> (ctx: Self)
        ensures
            ctx.queue().len() == 0,
            ctx.slots().len() == max_elements,
            forall|i: int| 0 <= i < max_elements ==> #[trigger] ctx.slots()[i] == (FeedSlot {
                key: i as usize,
                value: None,
            }),
            ctx.start() == 0,
            ctx.current() == 0,
            !ctx.ended(),
    {
        let mut slots: Vec<FeedSlot> = Vec::new();
        let mut i: usize = 0;
        while i < max_elements
            invariant
                i <= max_elements,
                slots@.len() == i,
                forall|j: int| 0 <= j < i ==> #[trigger] slots@[j] == (FeedSlot {
                    key: j as usize,
                    value: None,
                }),
            decreases max_elements - i,
        {
            slots.push(FeedSlot { key: i, value: None });
            i = i + 1;
        }
        ProfilePostsContext {
            video_queue: post_set_new(),
            video_queue_for_feed: slots,
            start_index: 0,
            current_index: 0,
            queue_end: false,
        }
    }

    /// Opening a profile forgets the posts listed for the previous one and
    /// starts its listing over; the player's slots and position stay.
    pub fn reset_for_profile(&mut self)
        ensures
            final(self).queue().len() == 0,
            final(self).start() == 0,
            final(self).slots() == old(self).slots(),
            final(self).current() == old(self).current(),
            final(self).ended() == old(self).ended(),
    {
        let n = post_set_len(&self.video_queue);
        post_set_drain_front(&mut self.video_queue, n);
        self.start_index = 0;
    }

    /// How many posts are listed.
    pub fn queue_len(&self) -> (n: usize)
        ensures
            n == self.queue().len(),
    {
        post_set_len(&self.video_queue)
    }

    /// Where the next page of the listing starts.
    pub fn start_index(&self) -> (start: usize)
        ensures
            start == self.start(),
    {
        self.start_index
    }

    /// The post the player shows.
    pub fn current_index(&self) -> (current: usize)
        ensures
            current == self.current(),
    {
        self.current_index
    }

    /// Whether the listing has reached the user's last post.
    pub fn queue_end(&self) -> (ended: bool)
        ensures
            ended == self.ended(),
    {
        self.queue_end
    }

    /// The player's slot at `i`.
    pub fn slot(&self, i: usize) -> (slot: FeedSlot)
        requires
            i < self.slots().len(),
        ensures
            slot == self.slots()[i as int],
    {
        self.video_queue_for_feed[i]
    }
}

} // verus!
