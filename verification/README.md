# yral_ssr

The logic of the YRAL web app — a short-video feed where viewers stake sats
on whether a video is "hot or not" — written in Verus and proved against its
contracts.

## Layout

- `src/` — the verified library.
  - `feed.rs` — the scrolling feed: the queue of posts, the player's slots,
    and the backlog of fetched posts ordered by batch and position, with its
    invariant and the laws that no post is lost.
  - `store.rs` — the declarations of `indexmap::IndexSet` and
    `priority_queue::DoublePriorityQueue` the feed is built on, with the
    contracts of the methods it calls.
  - `cursor.rs`, `profile.rs` — paging through a user's posts and the state a
    profile's listing keeps.
  - `bet.rs`, `game.rs` — the coin a vote stakes and how it cycles, the
    checks on a vote, and how a settled game reads.
  - `withdraw.rs`, `transfer.rs` — withdrawals and token transfers.
  - `session.rs`, `principal.rs` — refresh tokens, delegation expiry, the
    cookie key, and principals as text (through `candid`).
  - `routes.rs`, `messages.rs`, `text.rs` — the links and texts the pages
    build, and the text helpers beneath them.
  - `account.rs`, `overlay.rs`, `notifications.rs`, `banner.rs`,
    `onboarding.rs`, `upload.rs`, `player.rs` — the decisions the pages make.
- `tests/` — tests on concrete values.
- `app/` — what stays outside the proofs: the environment, the clock, JSON
  on the wire, and the few decisions made on floating-point values.
