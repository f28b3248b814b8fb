//! What the error page says, and where the social links lead.

use vstd::prelude::*;
use crate::text::{occurs_at, seq_contains_seq, text_contains, text_eq};

verus! {

/// What the error page says instead of a failure in the backend.
pub open spec fn coffee_break_text() -> Seq<char> {
    "It looks like our system is taking a coffee break. Try again in a bit, and we'll have it back to work!"@
}

/// Whether an error names a failure of the backend, by one of the phrases
/// such failures carry.
pub open spec fn is_backend_failure(err: Seq<char>) -> bool {
    ||| seq_contains_seq(err, "IC agent error"@)
    ||| seq_contains_seq(err, "error running server function"@)
    ||| seq_contains_seq(err, "Canister error"@)
    ||| seq_contains_seq(err, "http fetch error"@)
    ||| seq_contains_seq(err, "ServerError"@)
    ||| seq_contains_seq(err, "TypeError"@)
    ||| seq_contains_seq(err, "CanisterError"@)
}

/// The message the error page shows for `err`: a friendly one for a failure
/// of the backend, and the error itself for anything else.
pub fn map_to_err(err: &str) -> (message: String)
    ensures
        is_backend_failure(err@) ==> message@ == coffee_break_text(),
        !is_backend_failure(err@) ==> message@ == err@,
{
    if text_contains(err, "IC agent error") || text_contains(err, "error running server function")
        || text_contains(err, "Canister error") || text_contains(err, "http fetch error")
        || text_contains(err, "ServerError") || text_contains(err, "TypeError") || text_contains(
        err,
        "CanisterError",
    ) {
        String::from_str(
            "It looks like our system is taking a coffee break. Try again in a bit, and we'll have it back to work!",
        )
    } else {
        String::from_str(err)
    }
}

/// A text in which `p` occurs holds each character of `p`.
proof fn lemma_occurrence_holds_char(s: Seq<char>, p: Seq<char>, j: int)
    requires
        seq_contains_seq(s, p),
        0 <= j < p.len(),
    ensures
        exists|k: int| 0 <= k < s.len() && s[k] == p[j],
{
    let i = choose|i: int| occurs_at(s, p, i);
    assert(s.subrange(i, i + p.len())[j] == s[i + j]);
}

/// A text in which `p` occurs holds each pair of neighbouring characters of
/// `p`.
proof fn lemma_occurrence_holds_pair(s: Seq<char>, p: Seq<char>, j: int)
    requires
        seq_contains_seq(s, p),
        0 <= j,
        j + 1 < p.len(),
    ensures
        exists|k: int| 0 <= k && k + 1 < s.len() && #[trigger] s[k] == p[j] && s[k + 1] == p[j + 1],
{
    let i = choose|i: int| occurs_at(s, p, i);
    assert(s.subrange(i, i + p.len())[j] == s[i + j]);
    assert(s.subrange(i, i + p.len())[j + 1] == s[i + j + 1]);
}

/// The friendly message names no failure of the backend.
proof fn lemma_coffee_break_is_no_failure()
    ensures
        !is_backend_failure(coffee_break_text()),
{
    let t = coffee_break_text();
    reveal_strlit(
        "It looks like our system is taking a coffee break. Try again in a bit, and we'll have it back to work!",
    );
    reveal_strlit("IC agent error");
    reveal_strlit("error running server function");
    reveal_strlit("Canister error");
    reveal_strlit("http fetch error");
    reveal_strlit("ServerError");
    reveal_strlit("TypeError");
    reveal_strlit("CanisterError");
    assert forall|k: int| 0 <= k < t.len() implies t[k] != 'C' && t[k] != 'S' && t[k] != 'E'
        && t[k] != 'p' by {}
    assert forall|k: int| 0 <= k && k + 1 < t.len() implies !(#[trigger] t[k] == 'r' && t[k + 1] == 'r') by {}
    if seq_contains_seq(t, "IC agent error"@) {
        lemma_occurrence_holds_char(t, "IC agent error"@, 1);
    }
    if seq_contains_seq(t, "error running server function"@) {
        lemma_occurrence_holds_pair(t, "error running server function"@, 1);
    }
    if seq_contains_seq(t, "Canister error"@) {
        lemma_occurrence_holds_char(t, "Canister error"@, 0);
    }
    if seq_contains_seq(t, "http fetch error"@) {
        lemma_occurrence_holds_char(t, "http fetch error"@, 3);
    }
    if seq_contains_seq(t, "ServerError"@) {
        lemma_occurrence_holds_char(t, "ServerError"@, 0);
    }
    if seq_contains_seq(t, "TypeError"@) {
        lemma_occurrence_holds_char(t, "TypeError"@, 4);
    }
    if seq_contains_seq(t, "CanisterError"@) {
        lemma_occurrence_holds_char(t, "CanisterError"@, 0);
    }
}

/// The message for an error, mapped again, stays as it is: the friendly
/// message names no failure of the backend.
pub proof fn law_error_message_settles(err: Seq<char>)
    ensures
        ({
            let once = if is_backend_failure(err) { coffee_break_text() } else { err };
            let twice = if is_backend_failure(once) { coffee_break_text() } else { once };
            twice == once
        }),
{
    lemma_coffee_break_is_no_failure();
}

/// The names of the social links.
pub open spec fn is_social_name(base: Seq<char>) -> bool {
    base == "TELEGRAM"@ || base == "TWITTER"@ || base == "DISCORD"@ || base == "IC_WEBSITE"@
}

/// Where the social link of that name leads.
pub fn domain_specific_href(base: &str) -> (href: &'static str)
    requires
        is_social_name(base@),
    ensures
        base@ == "TELEGRAM"@ ==> href@ == "https://t.me/+c-LTX0Cp-ENmMzI1"@,
        base@ == "TWITTER"@ ==> href@ == "https://twitter.com/Yral_app"@,
        base@ == "DISCORD"@ ==> href@ == "https://discord.gg/GZ9QemnZuj"@,
        base@ == "IC_WEBSITE"@ ==> href@ == "https://vyatz-hqaaa-aaaam-qauea-cai.ic0.app"@,
{
    proof {
        reveal_strlit("TELEGRAM");
        reveal_strlit("TWITTER");
        reveal_strlit("DISCORD");
        reveal_strlit("IC_WEBSITE");
        assert("TELEGRAM"@[1] != "TWITTER"@[1]);
        assert("TELEGRAM"@[0] != "DISCORD"@[0]);
        assert("TELEGRAM"@[0] != "IC_WEBSITE"@[0]);
        assert("TWITTER"@[0] != "DISCORD"@[0]);
        assert("TWITTER"@[0] != "IC_WEBSITE"@[0]);
        assert("DISCORD"@[0] != "IC_WEBSITE"@[0]);
    }
    if text_eq(base, "TELEGRAM") {
        "https://t.me/+c-LTX0Cp-ENmMzI1"
    } else if text_eq(base, "TWITTER") {
        "https://twitter.com/Yral_app"
    } else if text_eq(base, "DISCORD") {
        "https://discord.gg/GZ9QemnZuj"
    } else {
        "https://vyatz-hqaaa-aaaam-qauea-cai.ic0.app"
    }
}


/// The title of a page: the app's name, a dash, and the page's name, as in
/// "YRAL - Menu".
pub fn page_title(app_name: &str, page: &str) -> (title: String)
    ensures
        title@ == app_name@ + " - "@ + page@,
{
    let mut t = String::new();
    crate::text::push_text(&mut t, app_name);
    crate::text::push_text(&mut t, " - ");
    crate::text::push_text(&mut t, page);
    t
}


/// What the error page shows: the message for the error its link carries,
/// or "Server Error" when the link carries none.
pub fn server_error_message(err: Option<&str>) -> (message: String)
    ensures
        err is None ==> message@ == "Server Error"@,
        err matches Some(e) ==> (is_backend_failure(e@) ==> message@ == coffee_break_text()),
        err matches Some(e) ==> (!is_backend_failure(e@) ==> message@ == e@),
{
    match err {
        None => String::from_str("Server Error"),
        Some(e) => map_to_err(e),
    }
}

} // verus!
