//! Paging through a user's posts: the window a page covers, and the page a
//! user canister's answer makes.

use vstd::prelude::*;

verus! {

/// A window into a paginated list of posts: `limit` items starting at `start`.
///
/// `LIMIT` is the page size every page after the current one uses.
#[derive(Clone, Copy, PartialEq, Eq, Debug)]
pub struct FixedFetchCursor<const LIMIT: u64> {
    pub start: u64,
    pub limit: u64,
}

impl<const LIMIT: u64> FixedFetchCursor<LIMIT> {
    /// Moves the window past the page it covers; the next page has `LIMIT` items.
    pub fn advance(&mut self)
        requires
            old(self).start + old(self).limit <= u64::MAX,
        ensures
            final(self).start == old(self).start + old(self).limit,
            final(self).limit == LIMIT,
            (final(self).start as int, final(self).limit as int) == advanced_window(
                old(self).start as int,
                old(self).limit as int,
                LIMIT as int,
                1,
            ),
    {
        assert(advanced_window(self.start as int, self.limit as int, LIMIT as int, 0) == (
            self.start as int,
            self.limit as int,
        ));
        self.start = self.start + self.limit;
        self.limit = LIMIT;
    }
}

/// The window `(start, limit)` a cursor covers after `n` advances from
/// `(start, limit)`, each later page having `page` items.
pub open spec fn advanced_window(start: int, limit: int, page: int, n: nat) -> (int, int)
    decreases n,
{
    if n == 0 {
        (start, limit)
    } else {
        let w = advanced_window(start, limit, page, (n - 1) as nat);
        (w.0 + w.1, page)
    }
}

/// Advancing a cursor `n >= 1` times from `(start, limit)` lands it at
/// `start + limit + (n - 1) * LIMIT` with `LIMIT` items; the windows it
/// passes through tile the list: each begins exactly where the one before
/// it ended, and every window after the first has `LIMIT` items.
pub proof fn law_advances_tile_the_list(start: int, limit: int, page: int, n: nat)
    requires
        n >= 1,
    ensures
        advanced_window(start, limit, page, n) == (start + limit + (n - 1) * page, page),
        forall|k: nat|
            k < n ==> #[trigger] advanced_window(start, limit, page, k + 1).0 == advanced_window(
                start,
                limit,
                page,
                k,
            ).0 + advanced_window(start, limit, page, k).1,
        forall|k: nat| 1 <= k <= n ==> #[trigger] advanced_window(start, limit, page, k).1 == page,
    decreases n,
{
    assert(advanced_window(start, limit, page, 0) == (start, limit));
    if n > 1 {
        law_advances_tile_the_list(start, limit, page, (n - 1) as nat);
        assert((n - 2) * page + page == (n - 1) * page) by (nonlinear_arith)
            requires
                n > 1,
        ;
    } else {
        assert((n - 1) * page == 0) by (nonlinear_arith)
            requires
                n == 1,
        ;
    }
    assert forall|k: nat| 1 <= k <= n implies #[trigger] advanced_window(start, limit, page, k).1
        == page by {
        assert(advanced_window(start, limit, page, k) == (
            advanced_window(start, limit, page, (k - 1) as nat).0 + advanced_window(
                start,
                limit,
                page,
                (k - 1) as nat,
            ).1,
            page,
        ));
    }
}

/// The source of a user's profile posts, paged `LIMIT` at a time.
pub struct ProfileVideoStream<const LIMIT: u64>;

/// A user canister's answer to a request for a page of posts.
pub enum PostsReply<P> {
    /// The posts of the page.
    Page(Vec<P>),
    /// The request starts past the last post.
    ReachedEnd,
    /// The canister would not send posts.
    Refused,
    /// The call to the canister failed, for the reason given.
    CallFailed(String),
}

/// A page of posts, and whether it is the last.
pub struct PostsRes<P> {
    pub posts: Vec<P>,
    pub end: bool,
}

/// Why a page of posts could not be had.
#[derive(Clone, PartialEq, Eq, Debug)]
pub enum PostsFetchError {
    /// The user canister refused to send posts.
    Refused,
    /// The call to the canister failed, for the reason given.
    CallFailed(String),
}

impl PostsFetchError {
    /// The message the error carries.
    pub fn message(&self) -> (text: String)
        ensures
            *self == PostsFetchError::Refused ==> text@ == "user canister refused to send posts"@,
            self matches PostsFetchError::CallFailed(e) ==> text@ == e@,
    {
        match self {
            PostsFetchError::Refused => String::from_str("user canister refused to send posts"),
            PostsFetchError::CallFailed(e) => e.clone(),
        }
    }
}

impl<const LIMIT: u64> ProfileVideoStream<LIMIT> {
    /// The page a canister's answer makes: its posts, the last page when
    /// shorter than `LIMIT`; an empty last page past the end; an error when
    /// the canister refused or the call failed.
    pub fn posts_from_reply<P>(reply: PostsReply<P>) -> (res: Result<PostsRes<P>, PostsFetchError>)
        ensures
            reply matches PostsReply::Page(v) ==> (res matches Ok(page) && page.posts@ == v@
                && page.end == (v@.len() < (LIMIT as usize) as int)),
            reply matches PostsReply::ReachedEnd ==> (res matches Ok(page) && page.posts@.len()
                == 0 && page.end),
            reply matches PostsReply::Refused ==> (res matches Err(e) && e
                == PostsFetchError::Refused),
            reply matches PostsReply::CallFailed(m) ==> (res matches Err(e) && e
                matches PostsFetchError::CallFailed(x) && x@ == m@),
    {
        match reply {
            PostsReply::Page(v) => {
                let end = v.len() < LIMIT as usize;
                Ok(PostsRes { posts: v, end })
            },
            PostsReply::ReachedEnd => Ok(PostsRes { posts: Vec::new(), end: true }),
            PostsReply::Refused => Err(PostsFetchError::Refused),
            PostsReply::CallFailed(m) => Err(PostsFetchError::CallFailed(m)),
        }
    }
}

} // verus!
