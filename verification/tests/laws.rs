use yral_ssr::{NavKind, PostParams, principal_from_str, yral_nav_items};
use yral_ssr::{
    CoinState, FixedFetchCursor, VoteKind, claim_outcome, delete_user_outcome,
    evaluation_sentiment, map_to_err, parse_usize, registration_needs_update,
    registration_outcome, upload_url_fetch_outcome, vote_evaluation_query, vote_result,
    vote_worker_request, VoteAPIRes,
};

#[test]
fn cursor_windows_tile_the_list() {
    let mut c = FixedFetchCursor::<10> { start: 3, limit: 4 };
    let mut end = c.start + c.limit;
    for n in 1..=5u64 {
        c.advance();
        assert_eq!(c.start, end);
        assert_eq!(c.start, 3 + 4 + (n - 1) * 10);
        assert_eq!(c.limit, 10);
        end = c.start + c.limit;
    }
}

#[test]
fn coin_selector_visits_every_enabled_coin() {
    let enabled = [CoinState::C50, CoinState::C100, CoinState::C200];
    for start in enabled {
        let mut seen = Vec::new();
        let mut c = start;
        for _ in 0..enabled.len() {
            seen.push(c);
            c = c.wrapping_next(&enabled, CoinState::C50);
        }
        assert_eq!(c, start);
        for e in enabled {
            assert_eq!(seen.iter().filter(|&&x| x == e).count(), 1);
        }
        let mut back = start;
        for _ in 0..enabled.len() {
            back = back.wrapping_prev(&enabled, CoinState::C50);
        }
        assert_eq!(back, start);
    }
}

#[test]
fn error_message_mapped_twice_stays() {
    for e in ["IC agent error: x", "TypeError: y", "plain", "http fetch error"] {
        let once = map_to_err(e);
        assert_eq!(map_to_err(&once), once);
    }
}

#[test]
fn first_login_reported_once() {
    assert!(registration_needs_update(false));
    assert!(!registration_needs_update(true));
    assert_eq!(registration_outcome(false, Ok(())), Ok(true));
    assert_eq!(registration_outcome(true, Ok(())), Ok(false));
    assert_eq!(registration_outcome(true, Err("x")), Ok(false));
    assert_eq!(
        registration_outcome(false, Err("boom")),
        Err("failed to mark user as registered boom".to_string())
    );
}

#[test]
fn vote_flow_before_the_worker() {
    assert_eq!(
        vote_evaluation_query(300, 200, Ok(Some("a")), None),
        Err("bet amount exceeds maximum allowed: 300 > 200".to_string())
    );
    assert_eq!(
        vote_evaluation_query(50, 200, Err("canister down"), None),
        Err("canister down".to_string())
    );
    assert_eq!(vote_evaluation_query(50, 200, Ok(None), None), Err("post not found".to_string()));
    assert_eq!(
        vote_evaluation_query(50, 200, Ok(Some("a")), Some(Ok(None))),
        Err("previous post not found".to_string())
    );
    assert_eq!(
        vote_evaluation_query(50, 200, Ok(Some("a")), Some(Ok(Some("b")))),
        Ok("select hot_or_not_evaluator.compare_videos_hot_or_not_v2('a', 'b')".to_string())
    );
    assert_eq!(
        vote_evaluation_query(50, 200, Ok(Some("a")), None),
        Ok("select hot_or_not_evaluator.compare_videos_hot_or_not_v2('a', NULL)".to_string())
    );
    assert_eq!(
        evaluation_sentiment(None),
        Err("hot_or_not_evaluator.compare_videos_hot_or_not_v2 returned no value".to_string())
    );
    assert_eq!(evaluation_sentiment(Some(Err("bad"))), Err("bad".to_string()));
    assert_eq!(evaluation_sentiment(Some(Ok(true))), Ok(VoteKind::Hot));
    assert_eq!(evaluation_sentiment(Some(Ok(false))), Ok(VoteKind::Not));
    let req = vote_worker_request(&vec![1, 2], 7, 50, VoteKind::Hot, VoteKind::Not, "sig");
    assert_eq!(req.publisher_principal, vec![1, 2]);
    assert_eq!(req.post_creator, Some(vec![1, 2]));
    assert_eq!((req.post_id, req.vote_amount), (7, 50));
    assert_eq!((req.direction, req.fetched_sentiment, req.signature), (VoteKind::Hot, VoteKind::Not, "sig"));
    assert_eq!(
        vote_result(200, "", Ok(3u8), true),
        Ok(VoteAPIRes { game_result: 3u8, video_comparison_result: true })
    );
    assert_eq!(vote_result::<u8, bool>(200, "", Err("bad json".to_string()), true), Err("bad json".to_string()));
    assert_eq!(vote_result::<u8, bool>(500, "oops", Ok(3), true), Err("worker error: oops".to_string()));
}

#[test]
fn request_outcomes() {
    assert_eq!(claim_outcome(200), Ok(()));
    assert_eq!(claim_outcome(201), Err("Request failed".to_string()));
    assert_eq!(upload_url_fetch_outcome(204), Ok(()));
    assert_eq!(
        upload_url_fetch_outcome(503),
        Err("Failed to get upload URL: status 503".to_string())
    );
    assert_eq!(delete_user_outcome(200, "200 OK"), Ok(()));
    assert_eq!(
        delete_user_outcome(404, "404 Not Found"),
        Err("Delete user failed with status: 404 Not Found".to_string())
    );
}

#[test]
fn usize_parsing_as_std_does() {
    for t in ["0", "+7", "0042", "18446744073709551615", "", "+", "-1", "1a", " 1", "18446744073709551616", "é"] {
        assert_eq!(parse_usize(t), t.parse::<usize>().ok(), "{t}");
    }
}

#[test]
fn bottom_navigation_items() {
    let user = principal_from_str("ryjl3-tyaaa-aaaaa-aaaba-cai").unwrap();
    let current = Some(PostParams { canister_id: user.clone(), post_id: 9 });
    let items = yral_nav_items("/wallet/ryjl3-tyaaa-aaaaa-aaaba-cai", Some(&user), &current);
    let kinds: Vec<NavKind> = items.iter().map(|i| i.kind).collect();
    assert_eq!(kinds, vec![NavKind::Home, NavKind::Wallet, NavKind::Upload, NavKind::Profile, NavKind::Menu]);
    let hrefs: Vec<&str> = items.iter().map(|i| i.href.as_str()).collect();
    assert_eq!(
        hrefs,
        vec!["/hot-or-not/ryjl3-tyaaa-aaaaa-aaaba-cai/9", "/wallet", "/upload", "/profile/token", "/menu"]
    );
    let selected: Vec<bool> = items.iter().map(|i| i.selected).collect();
    assert_eq!(selected, vec![false, true, false, false, false]);
    let home = yral_nav_items("/", None, &None);
    assert_eq!(home[0].href, "/");
    assert!(home[0].selected && !home[1].selected && !home[3].selected);
}
