//! Strips common tracking query parameters (`utm_*`, `fbclid`, ...) from
//! top-level navigations. Parameters that double as auth tokens are left
//! alone. A cleaned URL has nothing left to strip.

use vstd::prelude::*;
use crate::text::{
    all_lack, lacks, lemma_join_lacks, lemma_split_join, lemma_split_once_concat,
    lemma_split_once_parts, lemma_split_pieces, lemma_find_char_none,
    before_char, before_char_chars, chars_eq_str, chars_of, join, join_chars, push_all, slice_copy,
    split, split_chars, split_once, split_once_chars, starts_with, starts_with_str, string_of, views,
};

verus! {

/// The on/off switch that Settings toggles (on at startup).
pub struct CleanUrlsSwitch {
    pub enabled: bool,
}

impl CleanUrlsSwitch {
    pub fn new() -> (r: Self)
        ensures
            r.enabled,
    {
        CleanUrlsSwitch { enabled: true }
    }
}

/// Startup + Settings toggle.
pub fn set_enabled(switch: &mut CleanUrlsSwitch, enabled: bool)
    ensures
        final(switch).enabled == enabled,
{
    switch.enabled = enabled;
}

/// Attribution ids only (`utm_*` goes by prefix); not auth or identity tokens.
pub open spec fn is_tracking_name(name: Seq<char>) -> bool {
    starts_with(name, "utm_"@) || name == "fbclid"@ || name == "gclid"@ || name == "gclsrc"@
        || name == "dclid"@ || name == "msclkid"@ || name == "twclid"@ || name == "ttclid"@
        || name == "yclid"@ || name == "igshid"@ || name == "mc_eid"@ || name == "mc_cid"@
        || name == "_hsenc"@ || name == "_hsmi"@ || name == "vero_id"@ || name == "wickedid"@
        || name == "ncid"@ || name == "spm"@ || name == "scm"@ || name == "si"@
        || name == "ref_src"@
}

/// A query pair is tracking when the text before its first `=` is.
pub open spec fn is_tracking_pair(pair: Seq<char>) -> bool {
    is_tracking_name(before_char(pair, '='))
}

/// The pairs of `parts` that are not tracking, in order.
pub open spec fn kept_pairs(parts: Seq<Seq<char>>) -> Seq<Seq<char>>
    decreases parts.len(),
{
    if parts.len() == 0 {
        parts
    } else if is_tracking_pair(parts.last()) {
        kept_pairs(parts.drop_last())
    } else {
        kept_pairs(parts.drop_last()).push(parts.last())
    }
}

/// What `clean` returns for `url` while enabled: the URL without its
/// tracking pairs, or `None` when it has no query or nothing to strip.
pub open spec fn cleaned(url: Seq<char>) -> Option<Seq<char>> {
    let (before_fragment, fragment) = match split_once(url, '#') {
        Some((b, f)) => (b, Some(f)),
        None => (url, None::<Seq<char>>),
    };
    match split_once(before_fragment, '?') {
        None => None,
        Some((base, query)) => {
            let parts = split(query, '&');
            let kept = kept_pairs(parts);
            if kept.len() == parts.len() {
                None
            } else {
                let with_query = if kept.len() > 0 {
                    base + seq!['?'] + join(kept, seq!['&'])
                } else {
                    base
                };
                Some(
                    match fragment {
                        Some(f) => with_query + seq!['#'] + f,
                        None => with_query,
                    },
                )
            }
        },
    }
}

pub fn is_tracking_param(name: &[char]) -> (r: bool)
    ensures
        r == is_tracking_name(name@),
{
    starts_with_str(name, "utm_") || chars_eq_str(name, "fbclid") || chars_eq_str(name, "gclid")
        || chars_eq_str(name, "gclsrc") || chars_eq_str(name, "dclid") || chars_eq_str(
        name,
        "msclkid",
    ) || chars_eq_str(name, "twclid") || chars_eq_str(name, "ttclid") || chars_eq_str(
        name,
        "yclid",
    ) || chars_eq_str(name, "igshid") || chars_eq_str(name, "mc_eid") || chars_eq_str(
        name,
        "mc_cid",
    ) || chars_eq_str(name, "_hsenc") || chars_eq_str(name, "_hsmi") || chars_eq_str(
        name,
        "vero_id",
    ) || chars_eq_str(name, "wickedid") || chars_eq_str(name, "ncid") || chars_eq_str(
        name,
        "spm",
    ) || chars_eq_str(name, "scm") || chars_eq_str(name, "si") || chars_eq_str(name, "ref_src")
}

proof fn lemma_kept_len(parts: Seq<Seq<char>>)
    ensures
        kept_pairs(parts).len() <= parts.len(),
    decreases parts.len(),
{
    if parts.len() > 0 {
        lemma_kept_len(parts.drop_last());
    }
}

/// `Some(cleaned)` when a tracking pair was removed; `None` leaves the URL
/// alone (also whenever the switch is off).
pub fn clean(switch: &CleanUrlsSwitch, url: &str) -> (r: Option<String>)
    ensures
        match r {
            Some(s) => switch.enabled && cleaned(url@) == Some(s@),
            None => !switch.enabled || cleaned(url@) is None,
        },
{
    if !switch.enabled {
        return None;
    }
    let u = chars_of(url);
    let (before_fragment, fragment) = match split_once_chars(u.as_slice(), '#') {
        Some((b, f)) => (b, Some(f)),
        None => (u, None),
    };
    let (base, query) = match split_once_chars(before_fragment.as_slice(), '?') {
        Some(bq) => bq,
        None => return None,
    };
    let parts = split_chars(query.as_slice(), '&');
    let mut kept: Vec<Vec<char>> = Vec::new();
    let mut removed_any = false;
    let mut i: usize = 0;
    while i < parts.len()
        invariant
            i <= parts@.len(),
            views(kept@) == kept_pairs(views(parts@).take(i as int)),
            removed_any == (kept_pairs(views(parts@).take(i as int)).len() < i),
        decreases parts@.len() - i,
    {
        let ghost pv = views(parts@);
        assert(pv.take(i + 1).drop_last() == pv.take(i as int));
        assert(pv.take(i + 1).last() == parts@[i as int]@);
        proof {
            lemma_kept_len(pv.take(i as int));
        }
        let name = before_char_chars(parts[i].as_slice(), '=');
        let tracking = is_tracking_param(name.as_slice());
        if tracking {
            removed_any = true;
        } else {
            let ghost old_kept = kept@;
            let pair = slice_copy(parts[i].as_slice(), 0, parts[i].len());
            assert(pair@ == parts@[i as int]@);
            kept.push(pair);
            assert(views(kept@) =~= views(old_kept).push(pair@));
        }
        i = i + 1;
    }
    assert(views(parts@).take(parts@.len() as int) == views(parts@));
    proof {
        lemma_kept_len(views(parts@));
    }
    if !removed_any {
        return None;
    }
    let ghost kept_v = views(kept@);
    let mut result = base;
    let ghost base_v = result@;
    if kept.len() > 0 {
        result.push('?');
        let mut amp: Vec<char> = Vec::new();
        amp.push('&');
        assert(amp@ == seq!['&']);
        let joined = join_chars(&kept, amp.as_slice());
        push_all(&mut result, joined.as_slice());
        assert(result@ == base_v + seq!['?'] + join(kept_v, seq!['&']));
    }
    let ghost with_query = result@;
    match fragment {
        Some(f) => {
            result.push('#');
            push_all(&mut result, f.as_slice());
            assert(result@ == with_query + seq!['#'] + f@);
        },
        None => {},
    }
    Some(string_of(result.as_slice()))
}

proof fn lemma_kept_props(parts: Seq<Seq<char>>, d: char)
    ensures
        forall|i: int|
            0 <= i < kept_pairs(parts).len() ==> !is_tracking_pair(#[trigger] kept_pairs(parts)[i]),
        all_lack(parts, d) ==> all_lack(kept_pairs(parts), d),
    decreases parts.len(),
{
    if parts.len() > 0 {
        let init = parts.drop_last();
        lemma_kept_props(init, d);
        if all_lack(parts, d) {
            assert(forall|i: int| 0 <= i < init.len() ==> #[trigger] init[i] == parts[i]);
            assert(all_lack(init, d));
            assert(lacks(parts.last(), d));
        }
        let k = kept_pairs(init);
        if !is_tracking_pair(parts.last()) {
            assert(forall|i: int| 0 <= i < k.len() ==> #[trigger] k.push(parts.last())[i] == k[i]);
        }
    }
}

proof fn lemma_kept_all_clean(parts: Seq<Seq<char>>)
    requires
        forall|i: int| 0 <= i < parts.len() ==> !is_tracking_pair(#[trigger] parts[i]),
    ensures
        kept_pairs(parts) == parts,
    decreases parts.len(),
{
    if parts.len() > 0 {
        let init = parts.drop_last();
        assert(forall|i: int| 0 <= i < init.len() ==> #[trigger] init[i] == parts[i]);
        lemma_kept_all_clean(init);
        assert(init.push(parts.last()) == parts);
    }
}

/// The attribution ids that are stripped: every `utm_*` name, and the click
/// and campaign ids of Facebook, Google, DoubleClick, Bing, Twitter,
/// TikTok, Yandex, Instagram, Mailchimp, HubSpot, Vero, Wicked Reports,
/// and the `ncid`, `spm`, `scm`, `si` and `ref_src` markers.
pub proof fn law_tracking_names(rest: Seq<char>)
    ensures
        is_tracking_name("utm_"@ + rest),
        is_tracking_name("fbclid"@),
        is_tracking_name("gclid"@),
        is_tracking_name("gclsrc"@),
        is_tracking_name("dclid"@),
        is_tracking_name("msclkid"@),
        is_tracking_name("twclid"@),
        is_tracking_name("ttclid"@),
        is_tracking_name("yclid"@),
        is_tracking_name("igshid"@),
        is_tracking_name("mc_eid"@),
        is_tracking_name("mc_cid"@),
        is_tracking_name("_hsenc"@),
        is_tracking_name("_hsmi"@),
        is_tracking_name("vero_id"@),
        is_tracking_name("wickedid"@),
        is_tracking_name("ncid"@),
        is_tracking_name("spm"@),
        is_tracking_name("scm"@),
        is_tracking_name("si"@),
        is_tracking_name("ref_src"@),
{
    reveal_strlit("utm_");
    assert(("utm_"@ + rest).take(4) =~= "utm_"@);
}

proof fn lemma_kept_drops(parts: Seq<Seq<char>>, i: int)
    requires
        0 <= i < parts.len(),
        is_tracking_pair(parts[i]),
    ensures
        kept_pairs(parts).len() < parts.len(),
    decreases parts.len(),
{
    lemma_kept_len(parts.drop_last());
    if i < parts.len() - 1 {
        assert(parts.drop_last()[i] == parts[i]);
        lemma_kept_drops(parts.drop_last(), i);
    }
}

/// A URL whose query has a pair with a tracking name is always cleaned
/// (and, by `law_clean_idempotent`, what comes out has none left).
pub proof fn law_tracking_pair_stripped(base: Seq<char>, query: Seq<char>, i: int)
    requires
        lacks(base, '?'),
        lacks(base, '#'),
        lacks(query, '#'),
        0 <= i < split(query, '&').len(),
        is_tracking_pair(split(query, '&')[i]),
    ensures
        cleaned(base + seq!['?'] + query) is Some,
{
    let url = base + seq!['?'] + query;
    assert forall|k: int| 0 <= k < url.len() implies url[k] != '#' by {
        if k < base.len() {
            assert(url[k] == base[k]);
        } else if k > base.len() {
            assert(url[k] == query[k - base.len() - 1]);
        }
    }
    assert(lacks(url, '#'));
    lemma_find_char_none(url, '#');
    let b = seq!['?'] + query;
    assert(url == base + b);
    lemma_split_once_concat(base, b, '?');
    assert(b.drop_first() == query);
    lemma_kept_drops(split(query, '&'), i);
}

/// A cleaned URL has nothing left to strip: cleaning it again changes nothing.
pub proof fn law_clean_idempotent(url: Seq<char>)
    requires
        cleaned(url) is Some,
    ensures
        cleaned(cleaned(url)->0) is None,
{
    let c = cleaned(url)->0;
    lemma_split_once_parts(url, '#', '#');
    let (bf, frag) = match split_once(url, '#') {
        Some((b, f)) => (b, Some(f)),
        None => (url, None::<Seq<char>>),
    };
    assert(lacks(bf, '#'));
    lemma_split_once_parts(bf, '?', '#');
    let (base, query) = split_once(bf, '?')->0;
    let parts = split(query, '&');
    lemma_split_pieces(query, '&', '#');
    let kept = kept_pairs(parts);
    lemma_kept_props(parts, '#');
    lemma_kept_props(parts, '&');
    let with_query = if kept.len() > 0 {
        base + seq!['?'] + join(kept, seq!['&'])
    } else {
        base
    };
    assert(lacks(seq!['&'], '#'));
    lemma_join_lacks(kept, seq!['&'], '#');
    let j = join(kept, seq!['&']);
    assert(lacks(with_query, '#')) by {
        if kept.len() > 0 {
            assert(lacks(seq!['?'], '#'));
        }
    }
    // The fragment split of the cleaned URL finds the same fragment.
    match frag {
        Some(f) => {
            assert(c == with_query + (seq!['#'] + f));
            lemma_split_once_concat(with_query, seq!['#'] + f, '#');
            assert((seq!['#'] + f).drop_first() == f);
        },
        None => {
            assert(c == with_query);
            lemma_find_char_none(c, '#');
        },
    }
    if kept.len() > 0 {
        assert(with_query == base + (seq!['?'] + j));
        lemma_split_once_concat(base, seq!['?'] + j, '?');
        assert((seq!['?'] + j).drop_first() == j);
        lemma_split_join(kept, '&');
        lemma_kept_all_clean(kept);
    } else {
        lemma_find_char_none(base, '?');
    }
}

} // verus!
