//! Visited-page history: the newest visit first, at most `MAX_HISTORY`
//! entries. Loading and saving `history.json` is left to the caller.

use vstd::prelude::*;
use crate::text::{chars_eq_str, chars_of};

verus! {

/// How many visits are kept.
pub const MAX_HISTORY: usize = 200;

/// One completed top-level visit.
pub struct HistoryEntry {
    pub url: String,
    /// Unix seconds, UTC.
    pub visited_at: i64,
}

pub struct HistoryView {
    pub url: Seq<char>,
    pub visited_at: i64,
}

impl View for HistoryEntry {
    type V = HistoryView;

    open spec fn view(&self) -> HistoryView {
        HistoryView { url: self.url@, visited_at: self.visited_at }
    }
}

pub open spec fn history_views(v: Seq<HistoryEntry>) -> Seq<HistoryView> {
    v.map_values(|e: HistoryEntry| e@)
}

/// `s` cut to its first `n` items.
pub open spec fn capped<A>(s: Seq<A>, n: int) -> Seq<A> {
    if s.len() > n {
        s.take(n)
    } else {
        s
    }
}

/// The history after a visit to `url` at `at`: when `url` is already the
/// newest entry only its time changes, else the visit goes in front; then
/// the list is cut to `MAX_HISTORY`.
pub open spec fn recorded(h: Seq<HistoryView>, url: Seq<char>, at: i64) -> Seq<HistoryView> {
    let v = HistoryView { url, visited_at: at };
    let h2 = if h.len() > 0 && h[0].url == url {
        h.update(0, v)
    } else {
        seq![v] + h
    };
    capped(h2, MAX_HISTORY as int)
}

/// Records a visit at the front (see `recorded`); the caller saves.
pub fn record(history: &mut Vec<HistoryEntry>, url: &str, visited_at: i64)
    ensures
        history_views(final(history)@) == recorded(history_views(old(history)@), url@, visited_at),
{
    let ghost h = history_views(history@);
    let same_top = history.len() > 0 && chars_eq_str(
        chars_of(history[0].url.as_str()).as_slice(),
        url,
    );
    if same_top {
        let mut top = history.remove(0);
        top.visited_at = visited_at;
        history.insert(0, top);
        assert(history_views(history@) =~= h.update(0, HistoryView { url: url@, visited_at }));
    } else {
        history.insert(0, HistoryEntry { url: url.to_string(), visited_at });
        assert(history_views(history@) =~= seq![HistoryView { url: url@, visited_at }] + h);
    }
    let ghost h2 = history_views(history@);
    history.truncate(MAX_HISTORY);
    assert(history_views(history@) =~= capped(h2, MAX_HISTORY as int));
}

/// After a visit, the newest entry is that visit, and the list never
/// grows past `MAX_HISTORY`.
pub proof fn law_history_newest_first(h: Seq<HistoryView>, url: Seq<char>, at: i64)
    ensures
        recorded(h, url, at).len() >= 1,
        recorded(h, url, at)[0] == (HistoryView { url, visited_at: at }),
        recorded(h, url, at).len() <= if h.len() < MAX_HISTORY { h.len() + 1 } else {
            MAX_HISTORY as nat
        },
{
}

/// Visiting the newest URL again only refreshes its time.
pub proof fn law_history_revisit_top(h: Seq<HistoryView>, url: Seq<char>, a: i64, b: i64)
    requires
        h.len() <= MAX_HISTORY,
    ensures
        recorded(recorded(h, url, a), url, b) == recorded(h, url, b),
{
    let v = HistoryView { url, visited_at: b };
    let once = recorded(h, url, a);
    if h.len() > 0 && h[0].url == url {
        assert(recorded(once, url, b) =~= recorded(h, url, b));
    } else {
        let w = seq![HistoryView { url, visited_at: a }] + h;
        let wb = seq![v] + h;
        assert(capped(w, MAX_HISTORY as int).update(0, v) =~= capped(wb, MAX_HISTORY as int));
    }
}

} // verus!
