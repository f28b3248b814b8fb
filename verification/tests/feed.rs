use yral_ssr::{
    FetchCursor, FixedFetchCursor, PostViewCtx, PostsFetchError, PostsReply, ProfileVideoStream,
};

const START: FetchCursor = FetchCursor { start: 0, limit: 10 };

fn queue_of(f: &PostViewCtx) -> Vec<u64> {
    (0..f.queue_len()).map(|i| f.post_at(i).unwrap()).collect()
}

#[test]
fn cursor_advance_moves_past_page() {
    let mut c = FixedFetchCursor::<10> { start: 0, limit: 5 };
    c.advance();
    assert_eq!(c, FixedFetchCursor::<10> { start: 5, limit: 10 });
    c.advance();
    assert_eq!(c.start, 15);
    assert_eq!(c.limit, 10);
}

#[test]
fn short_page_is_last() {
    let res = ProfileVideoStream::<10>::posts_from_reply(PostsReply::Page(vec![1u8, 2, 3])).ok().unwrap();
    assert_eq!(res.posts, vec![1, 2, 3]);
    assert!(res.end);
    let full = ProfileVideoStream::<3>::posts_from_reply(PostsReply::Page(vec![1u8, 2, 3])).ok().unwrap();
    assert!(!full.end);
}

#[test]
fn reached_end_and_refusal() {
    let res = ProfileVideoStream::<10>::posts_from_reply(PostsReply::<u8>::ReachedEnd).ok().unwrap();
    assert!(res.posts.is_empty());
    assert!(res.end);
    let err = ProfileVideoStream::<10>::posts_from_reply(PostsReply::<u8>::Refused).err().unwrap();
    assert_eq!(err, PostsFetchError::Refused);
    assert_eq!(err.message(), "user canister refused to send posts");
    let failed = ProfileVideoStream::<10>::posts_from_reply(PostsReply::<u8>::CallFailed(
        "agent error".to_string(),
    ))
    .err()
    .unwrap();
    assert_eq!(failed, PostsFetchError::CallFailed("agent error".to_string()));
    assert_eq!(failed.message(), "agent error");
}

#[test]
fn new_feed_is_empty() {
    let f = PostViewCtx::new(4, START);
    assert_eq!(f.queue_len(), 0);
    assert_eq!(f.current_post(), None);
    assert_eq!(f.slot(3), Some(None));
    assert_eq!(f.slot(4), None);
    assert!(f.needs_backfill());
    assert!(f.should_fetch_more(false));
    assert!(!f.should_fetch_more(true));
}

#[test]
fn batch_fills_queue_then_backlog() {
    let mut f = PostViewCtx::new(20, START);
    let posts: Vec<u64> = (1..=15).collect();
    f.ingest_batch(&posts, false);
    // posts enter the queue while at most ten lie ahead of the viewer
    assert_eq!(queue_of(&f), (1..=11).collect::<Vec<u64>>());
    assert_eq!(f.slot(0), Some(Some(1)));
    assert_eq!(f.slot(10), Some(Some(11)));
    assert_eq!(f.slot(11), Some(None));
    let moved = f.drain_backlog();
    assert_eq!(moved, 4);
    assert_eq!(queue_of(&f), (1..=15).collect::<Vec<u64>>());
    assert_eq!(f.slot(14), Some(Some(15)));
}

#[test]
fn later_batch_drains_first() {
    let mut f = PostViewCtx::new(40, START);
    let first: Vec<u64> = (1..=11).collect();
    f.ingest_batch(&first, false);
    f.ingest_batch(&vec![100, 101], false);
    f.ingest_batch(&vec![200, 201], true);
    assert!(f.queue_end());
    assert!(!f.should_fetch_more(false));
    let moved = f.drain_backlog();
    assert_eq!(moved, 4);
    assert_eq!(queue_of(&f)[11..].to_vec(), vec![200, 201, 100, 101]);
}

#[test]
fn drain_stops_after_cap() {
    let mut f = PostViewCtx::new(100, START);
    let posts: Vec<u64> = (1..=25).collect();
    f.ingest_batch(&posts, false);
    assert_eq!(f.queue_len(), 11);
    let moved = f.drain_backlog();
    assert_eq!(moved, 10);
    assert_eq!(f.queue_len(), 21);
    let moved = f.drain_backlog();
    assert_eq!(moved, 4);
    assert_eq!(queue_of(&f), (1..=25).collect::<Vec<u64>>());
    assert_eq!(f.drain_backlog(), 0);
}

#[test]
fn duplicates_do_not_count_as_moved() {
    let mut f = PostViewCtx::new(100, START);
    let posts: Vec<u64> = (1..=11).collect();
    f.ingest_batch(&posts, false);
    f.ingest_batch(&vec![3, 4, 50], false);
    let moved = f.drain_backlog();
    assert_eq!(moved, 1);
    assert_eq!(f.queue_len(), 12);
    assert_eq!(f.post_at(11), Some(50));
}

#[test]
fn posts_beyond_the_slots_are_queued_without_slots() {
    let mut f = PostViewCtx::new(3, START);
    f.ingest_batch(&vec![1, 2, 3, 4, 5], false);
    assert_eq!(f.queue_len(), 5);
    assert_eq!(f.slot(2), Some(Some(3)));
    assert_eq!(f.slot(3), None);
}

#[test]
fn restore_keeps_six_behind_viewer() {
    let mut f = PostViewCtx::new(20, START);
    f.ingest_batch(&(1..=11).collect(), false);
    f.set_current_idx(10);
    f.restore_queue(99);
    assert_eq!(f.current_idx(), 6);
    assert_eq!(f.post_at(0), Some(5));
    assert_eq!(f.current_post(), Some(11));
    assert_eq!(f.slot(0), Some(Some(5)));
    assert_eq!(f.previous_post(6), Some(10));
    assert_eq!(f.previous_post(0), None);
}

#[test]
fn restore_of_short_queue_starts_over() {
    let mut f = PostViewCtx::new(3, START);
    f.restore_queue(42);
    assert_eq!(f.queue_len(), 1);
    assert_eq!(f.post_at(0), Some(42));
    assert_eq!(f.slot(0), Some(Some(42)));
}

#[test]
fn resume_recovers_past_first_page() {
    let mut f = PostViewCtx::new(3, FetchCursor { start: 5, limit: 10 });
    assert!(f.resume_on_post());
    assert_eq!(f.fetch_cursor(), FetchCursor { start: 5, limit: 10 });
    let mut g = PostViewCtx::new(3, START);
    assert!(!g.resume_on_post());
    assert_eq!(g.fetch_cursor(), FetchCursor { start: 1, limit: 10 });
}

#[test]
fn fallback_source_moves_cursor_by_fifty() {
    let mut f = PostViewCtx::new(3, FetchCursor { start: 1, limit: 10 });
    f.after_fetch(true);
    assert_eq!(f.fetch_cursor(), FetchCursor { start: 1, limit: 10 });
    f.after_fetch(false);
    assert_eq!(f.fetch_cursor(), FetchCursor { start: 51, limit: 50 });
    f.after_fetch(false);
    assert_eq!(f.fetch_cursor(), FetchCursor { start: 101, limit: 50 });
}
