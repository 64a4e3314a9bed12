//! What was typed into the omnibox: a capped list of distinct raw inputs,
//! most recent first. Loading and saving `typed_history.json` is left to
//! the caller.

use vstd::prelude::*;
use crate::history::capped;
use crate::text::{chars_eq_str, chars_of};
use crate::url_match::string_seq_views;

verus! {

/// How many typed entries are kept (and offered as quick-repeat chips).
pub const MAX_TYPED_HISTORY: usize = 50;

/// The list after typing `raw`: earlier copies of `raw` leave, `raw` goes
/// in front, and the list is cut to `MAX_TYPED_HISTORY`.
pub open spec fn typed_after(h: Seq<Seq<char>>, raw: Seq<char>) -> Seq<Seq<char>> {
    capped(seq![raw] + without(h, raw), MAX_TYPED_HISTORY as int)
}

/// `h` without the entries equal to `raw`, in order.
pub open spec fn without(h: Seq<Seq<char>>, raw: Seq<char>) -> Seq<Seq<char>> {
    h.filter(differs_from(raw))
}

/// The test "is not `raw`".
pub open spec fn differs_from(raw: Seq<char>) -> spec_fn(Seq<char>) -> bool {
    |e: Seq<char>| e != raw
}

/// Records `raw` as the most recent entry (moved to the front if it was
/// already present); the caller saves.
pub fn record(typed_history: &mut Vec<String>, raw: &str)
    ensures
        string_seq_views(final(typed_history)@) == typed_after(
            string_seq_views(old(typed_history)@),
            raw@,
        ),
{
    let ghost h = string_seq_views(typed_history@);
    let mut kept: Vec<String> = Vec::new();
    let mut i: usize = 0;
    while i < typed_history.len()
        invariant
            h == string_seq_views(typed_history@),
            i <= typed_history@.len(),
            string_seq_views(kept@) == without(h.take(i as int), raw@),
        decreases typed_history@.len() - i,
    {
        let e = typed_history[i].clone();
        proof {
            lemma_without_push(h.take(i as int), h[i as int], raw@);
        }
        assert(h.take(i + 1) == h.take(i as int).push(h[i as int]));
        if !chars_eq_str(chars_of(e.as_str()).as_slice(), raw) {
            kept.push(e);
        }
        i = i + 1;
    }
    assert(h.take(h.len() as int) == h);
    let ghost k = string_seq_views(kept@);
    kept.insert(0, raw.to_string());
    assert(string_seq_views(kept@) =~= seq![raw@] + k);
    let ghost k2 = string_seq_views(kept@);
    kept.truncate(MAX_TYPED_HISTORY);
    assert(string_seq_views(kept@) =~= capped(k2, MAX_TYPED_HISTORY as int));
    *typed_history = kept;
}

/// No entry occurs twice.
pub open spec fn distinct(h: Seq<Seq<char>>) -> bool {
    forall|i: int, j: int| 0 <= i < j < h.len() ==> h[i] != h[j]
}

/// Typing keeps the entries distinct, puts `raw` first, and never grows
/// the list past `MAX_TYPED_HISTORY`.
pub proof fn law_typed_distinct(h: Seq<Seq<char>>, raw: Seq<char>)
    requires
        distinct(h),
    ensures
        distinct(typed_after(h, raw)),
        typed_after(h, raw)[0] == raw,
        typed_after(h, raw).len() <= MAX_TYPED_HISTORY,
{
    let f = without(h, raw);
    lemma_filter_distinct(h, raw);
    let full = seq![raw] + f;
    assert forall|i: int, j: int| 0 <= i < j < full.len() implies full[i] != full[j] by {
        if i == 0 {
            assert(f.contains(full[j]));
        }
    }
}

proof fn lemma_filter_distinct(h: Seq<Seq<char>>, raw: Seq<char>)
    requires
        distinct(h),
    ensures
        distinct(without(h, raw)),
        forall|x: Seq<char>| #[trigger] without(h, raw).contains(x) ==> x != raw && h.contains(x),
    decreases h.len(),
{
    if h.len() > 0 {
        let init = h.drop_last();
        let last = h.last();
        let w = without(init, raw);
        assert(distinct(init));
        lemma_filter_distinct(init, raw);
        lemma_without_push(init, last, raw);
        assert(init.push(last) == h);
        assert forall|x: Seq<char>| init.contains(x) implies h.contains(x) by {
            let k = choose|k: int| 0 <= k < init.len() && init[k] == x;
            assert(h[k] == x);
        }
        if last != raw {
            assert forall|x: Seq<char>| w.contains(x) implies x != last by {
                assert(init.contains(x));
                let k = choose|k: int| 0 <= k < init.len() && init[k] == x;
                assert(h[k] == init[k]);
                assert(h[k] != h[h.len() - 1]);
            }
            let wp = w.push(last);
            assert(without(h, raw) == wp);
            assert forall|i: int, j: int| 0 <= i < j < wp.len() implies wp[i] != wp[j] by {
                if j == wp.len() - 1 {
                    assert(w.contains(wp[i]));
                }
            }
            assert forall|x: Seq<char>| wp.contains(x) implies x != raw && h.contains(x) by {
                let k = choose|k: int| 0 <= k < wp.len() && wp[k] == x;
                if k < w.len() {
                    assert(w.contains(x));
                }
            }
        } else {
            assert(without(h, raw) == w);
        }
    } else {
        lemma_without_empty(raw);
    }
}

/// Typing the same text twice in a row is the same as typing it once.
pub proof fn law_typed_repeat(h: Seq<Seq<char>>, raw: Seq<char>)
    ensures
        typed_after(typed_after(h, raw), raw) == typed_after(h, raw),
{
    let once = typed_after(h, raw);
    let f = without(h, raw);
    lemma_filter_all_kept(h, raw);
    let g = once.drop_first();
    assert(once =~= seq![raw] + g);
    assert(without(g, raw) == g) by {
        lemma_filter_prefix_kept(f, raw, g);
    }
    lemma_without_lead(g, raw);
}

proof fn lemma_filter_all_kept(s: Seq<Seq<char>>, raw: Seq<char>)
    ensures
        forall|i: int| 0 <= i < without(s, raw).len() ==> #[trigger] without(s, raw)[i] != raw,
    decreases s.len(),
{
    if s.len() > 0 {
        lemma_filter_all_kept(s.drop_last(), raw);
        lemma_without_push(s.drop_last(), s.last(), raw);
        assert(s.drop_last().push(s.last()) == s);
    } else {
        lemma_without_empty(raw);
    }
}

proof fn lemma_filter_prefix_kept(f: Seq<Seq<char>>, raw: Seq<char>, g: Seq<Seq<char>>)
    requires
        forall|i: int| 0 <= i < f.len() ==> #[trigger] f[i] != raw,
        g.len() <= f.len(),
        forall|i: int| 0 <= i < g.len() ==> #[trigger] g[i] == f[i],
    ensures
        without(g, raw) == g,
    decreases g.len(),
{
    if g.len() > 0 {
        lemma_filter_prefix_kept(f, raw, g.drop_last());
        lemma_without_push(g.drop_last(), g.last(), raw);
        assert(g.drop_last().push(g.last()) == g);
        assert(g.last() == f[g.len() - 1]);
    } else {
        lemma_without_empty(raw);
        assert(g =~= Seq::<Seq<char>>::empty());
    }
}

proof fn lemma_without_lead(g: Seq<Seq<char>>, raw: Seq<char>)
    ensures
        without(seq![raw] + g, raw) == without(g, raw),
    decreases g.len(),
{
    if g.len() == 0 {
        lemma_without_push(Seq::<Seq<char>>::empty(), raw, raw);
        lemma_without_empty(raw);
        assert(Seq::<Seq<char>>::empty().push(raw) == seq![raw] + g);
        assert(g =~= Seq::<Seq<char>>::empty());
    } else {
        lemma_without_lead(g.drop_last(), raw);
        lemma_without_push(seq![raw] + g.drop_last(), g.last(), raw);
        lemma_without_push(g.drop_last(), g.last(), raw);
        assert((seq![raw] + g.drop_last()).push(g.last()) == seq![raw] + g);
        assert(g.drop_last().push(g.last()) == g);
    }
}

proof fn lemma_without_push(s: Seq<Seq<char>>, x: Seq<char>, raw: Seq<char>)
    ensures
        without(s.push(x), raw) == if x != raw {
            without(s, raw).push(x)
        } else {
            without(s, raw)
        },
{
    s.lemma_filter_push(x, differs_from(raw));
}

proof fn lemma_without_empty(raw: Seq<char>)
    ensures
        without(Seq::<Seq<char>>::empty(), raw) == Seq::<Seq<char>>::empty(),
{
    assert(Seq::<Seq<char>>::empty().filter(differs_from(raw)) =~= Seq::<Seq<char>>::empty());
}

} // verus!
