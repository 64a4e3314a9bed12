//! URL patterns shared by userscripts and userstyles: `*` wildcard globs
//! against the full URL, the `*.example.com` apex-domain fallback, and the
//! `spatial-ui` tokens that select the built-in ephemeral pages.

use vstd::prelude::*;
use crate::text::{
    split, occurs_at, starts_with, ends_with, find_from, split_chars, views, chars_eq,
    chars_eq_str, chars_of, find_from_exec, starts_with_chars, ends_with_chars,
    lemma_find_from_props, lemma_split_lacking, lemma_split_join, lemma_split_nonempty, lacks, join,
};

verus! {

/// `t[pos..]` runs through `parts` in order: each part but the last stands
/// somewhere after the previous one, and the last one ends the text.
/// Between the parts (and before the first) any characters may stand.
pub open spec fn parts_from(parts: Seq<Seq<char>>, t: Seq<char>, pos: int) -> bool
    decreases parts.len(),
{
    if parts.len() == 0 {
        true
    } else if parts.len() == 1 {
        pos + parts[0].len() <= t.len() && ends_with(t, parts[0])
    } else {
        exists|k: int|
            pos <= k && #[trigger] occurs_at(t, parts[0], k) && parts_from(
                parts.drop_first(),
                t,
                k + parts[0].len(),
            )
    }
}

/// `text` matches `pattern`, in which each `*` stands for any run of
/// characters (possibly empty) and every other character for itself.
pub open spec fn glob_matches(pattern: Seq<char>, text: Seq<char>) -> bool {
    let parts = split(pattern, '*');
    if parts.len() == 1 {
        text == pattern
    } else {
        starts_with(text, parts[0]) && parts_from(parts.drop_first(), text, parts[0].len() as int)
    }
}

/// A later start only narrows the choices.
proof fn lemma_parts_from_earlier(parts: Seq<Seq<char>>, t: Seq<char>, pos: int, j: int)
    requires
        pos <= j,
        parts_from(parts, t, j),
    ensures
        parts_from(parts, t, pos),
    decreases parts.len(),
{
    if parts.len() >= 2 {
        let k = choose|k: int|
            j <= k && #[trigger] occurs_at(t, parts[0], k) && parts_from(
                parts.drop_first(),
                t,
                k + parts[0].len(),
            );
        assert(pos <= k && occurs_at(t, parts[0], k));
    }
}

/// An empty part that is not the last can be dropped.
proof fn lemma_parts_from_empty_head(parts: Seq<Seq<char>>, t: Seq<char>, pos: int)
    requires
        parts.len() >= 2,
        parts[0].len() == 0,
        0 <= pos <= t.len(),
    ensures
        parts_from(parts, t, pos) == parts_from(parts.drop_first(), t, pos),
{
    if parts_from(parts, t, pos) {
        let k = choose|k: int|
            pos <= k && #[trigger] occurs_at(t, parts[0], k) && parts_from(
                parts.drop_first(),
                t,
                k + parts[0].len(),
            );
        lemma_parts_from_earlier(parts.drop_first(), t, pos, k);
    }
    if parts_from(parts.drop_first(), t, pos) {
        assert(t.subrange(pos, pos) == parts[0]);
        assert(occurs_at(t, parts[0], pos));
    }
}

/// A part that is not the last may be taken at its first occurrence.
proof fn lemma_parts_from_leftmost(parts: Seq<Seq<char>>, t: Seq<char>, pos: int)
    requires
        parts.len() >= 2,
        0 <= pos,
    ensures
        match find_from(t, parts[0], pos) {
            Some(i) => parts_from(parts, t, pos) == parts_from(
                parts.drop_first(),
                t,
                i + parts[0].len(),
            ),
            None => !parts_from(parts, t, pos),
        },
{
    lemma_find_from_props(t, parts[0], pos);
    match find_from(t, parts[0], pos) {
        Some(i) => {
            if parts_from(parts, t, pos) {
                let k = choose|k: int|
                    pos <= k && #[trigger] occurs_at(t, parts[0], k) && parts_from(
                        parts.drop_first(),
                        t,
                        k + parts[0].len(),
                    );
                assert(i <= k);
                lemma_parts_from_earlier(parts.drop_first(), t, i + parts[0].len(), k + parts[0].len());
            }
            if parts_from(parts.drop_first(), t, i + parts[0].len()) {
                assert(occurs_at(t, parts[0], i));
            }
        },
        None => {
            if parts_from(parts, t, pos) {
                let k = choose|k: int|
                    pos <= k && #[trigger] occurs_at(t, parts[0], k) && parts_from(
                        parts.drop_first(),
                        t,
                        k + parts[0].len(),
                    );
                assert(!occurs_at(t, parts[0], k));
            }
        },
    }
}

/// Wildcard glob (`*` = anything) of `pattern` against all of `text`.
pub fn glob_match(pattern: &[char], text: &[char]) -> (r: bool)
    ensures
        r == glob_matches(pattern@, text@),
{
    let parts = split_chars(pattern, '*');
    let ghost ps = views(parts@);
    proof {
        lemma_split_nonempty(pattern@, '*');
    }
    if parts.len() == 1 {
        return chars_eq(pattern, text);
    }
    let n = parts.len();
    assert(n >= 2);
    let first = parts[0].as_slice();
    if !starts_with_chars(text, first) {
        return false;
    }
    let mut pos: usize = parts[0].len();
    let mut i: usize = 1;
    while i < n
        invariant
            ps == views(parts@),
            n == parts@.len(),
            n >= 2,
            1 <= i <= n,
            pos <= text@.len(),
            glob_matches(pattern@, text@) == parts_from(ps.skip(i as int), text@, pos as int),
        decreases n - i,
    {
        let part = parts[i].as_slice();
        let ghost rest = ps.skip(i as int);
        assert(rest[0] == part@);
        assert(rest.drop_first() == ps.skip(i + 1));
        if part.len() == 0 {
            if i + 1 < n {
                proof {
                    lemma_parts_from_empty_head(rest, text@, pos as int);
                }
            } else {
                assert(rest.len() == 1);
                assert(text@.skip(text@.len() - 0) == part@);
                assert(ps.skip(i + 1).len() == 0);
            }
        } else if i + 1 == n {
            assert(rest.len() == 1);
            return part.len() <= text.len() - pos && ends_with_chars(text, part);
        } else {
            proof {
                lemma_parts_from_leftmost(rest, text@, pos as int);
            }
            match find_from_exec(text, part, pos) {
                Some(idx) => {
                    proof {
                        lemma_find_from_props(text@, part@, pos as int);
                    }
                    assert(occurs_at(text@, part@, idx as int));
                    assert(idx + part@.len() <= text@.len());
                    assert(text@.len() == text.len());
                    assert(part@.len() == part.len());
                    pos = idx + part.len();
                },
                None => {
                    return false;
                },
            }
        }
        i = i + 1;
    }
    assert(ps.skip(n as int).len() == 0);
    true
}

/// The two characters `*.` whose removal gives the apex-domain pattern.
pub open spec fn star_dot() -> Seq<char> {
    seq!['*', '.']
}

/// `s` with every `*.` removed, scanning left to right (`str::replace(s, "*.", "")`).
pub open spec fn without_star_dot(s: Seq<char>) -> Seq<char>
    decreases s.len(),
{
    if s.len() == 0 {
        s
    } else if s.len() >= 2 && s[0] == '*' && s[1] == '.' {
        without_star_dot(s.skip(2))
    } else {
        seq![s[0]] + without_star_dot(s.skip(1))
    }
}

fn remove_star_dot(s: &[char]) -> (r: Vec<char>)
    ensures
        r@ == without_star_dot(s@),
{
    let mut out: Vec<char> = Vec::new();
    let mut i: usize = 0;
    assert(s@.skip(0) == s@);
    while i < s.len()
        invariant
            i <= s@.len(),
            out@ + without_star_dot(s@.skip(i as int)) == without_star_dot(s@),
        decreases s@.len() - i,
    {
        let ghost rest = s@.skip(i as int);
        if i + 1 < s.len() && s[i] == '*' && s[i + 1] == '.' {
            assert(rest.skip(2) == s@.skip(i + 2));
            i = i + 2;
        } else {
            assert(rest.skip(1) == s@.skip(i + 1));
            out.push(s[i]);
            i = i + 1;
        }
    }
    assert(s@.skip(i as int).len() == 0);
    out
}

/// `pattern` names the built-in ephemeral pages rather than URLs.
pub open spec fn spatial_ui_token(pattern: Seq<char>) -> bool {
    pattern == "spatial-ui"@ || pattern == "spatial:*"@ || pattern == "spatial://*"@ || pattern
        == "spatial://ui"@
}

pub fn is_spatial_ui_token(pattern: &[char]) -> (r: bool)
    ensures
        r == spatial_ui_token(pattern@),
{
    chars_eq_str(pattern, "spatial-ui") || chars_eq_str(pattern, "spatial:*") || chars_eq_str(
        pattern,
        "spatial://*",
    ) || chars_eq_str(pattern, "spatial://ui")
}

/// One `@match` / `@exclude` pattern against a URL: the spatial-ui tokens
/// select ephemeral pages; otherwise a glob, and for a pattern with `*.`,
/// the same glob with `*.` removed (so `*.example.com` covers the apex).
pub open spec fn pattern_matches(pattern: Seq<char>, url: Seq<char>, ephemeral: bool) -> bool {
    if spatial_ui_token(pattern) {
        ephemeral
    } else {
        glob_matches(pattern, url) || ((exists|i: int| occurs_at(pattern, star_dot(), i))
            && glob_matches(without_star_dot(pattern), url))
    }
}

pub fn matches_pattern(pattern: &[char], url: &[char], ephemeral: bool) -> (r: bool)
    ensures
        r == pattern_matches(pattern@, url@, ephemeral),
{
    if is_spatial_ui_token(pattern) {
        return ephemeral;
    }
    if glob_match(pattern, url) {
        return true;
    }
    let sd = vec!['*', '.'];
    assert(sd@ == star_dot());
    let found = find_from_exec(pattern, sd.as_slice(), 0);
    proof {
        lemma_find_from_props(pattern@, star_dot(), 0);
    }
    if found.is_some() {
        let stripped = remove_star_dot(pattern);
        return glob_match(stripped.as_slice(), url);
    }
    false
}

/// Some pattern of `patterns` matches.
pub open spec fn any_matches(patterns: Seq<Seq<char>>, url: Seq<char>, ephemeral: bool) -> bool {
    exists|i: int| 0 <= i < patterns.len() && #[trigger] pattern_matches(patterns[i], url, ephemeral)
}

/// An enabled script or style applies to `url` when one of its `@match`
/// patterns matches and none of its `@exclude` patterns does.
pub open spec fn applies(
    enabled: bool,
    matches: Seq<Seq<char>>,
    excludes: Seq<Seq<char>>,
    url: Seq<char>,
    ephemeral: bool,
) -> bool {
    enabled && any_matches(matches, url, ephemeral) && !any_matches(excludes, url, ephemeral)
}

pub open spec fn string_seq_views(v: Seq<String>) -> Seq<Seq<char>> {
    v.map_values(|s: String| s@)
}

pub fn any_pattern_matches(patterns: &Vec<String>, url: &[char], ephemeral: bool) -> (r: bool)
    ensures
        r == any_matches(string_seq_views(patterns@), url@, ephemeral),
{
    let ghost ps = string_seq_views(patterns@);
    let mut i: usize = 0;
    while i < patterns.len()
        invariant
            ps == string_seq_views(patterns@),
            i <= patterns@.len(),
            forall|j: int| 0 <= j < i ==> !#[trigger] pattern_matches(ps[j], url@, ephemeral),
        decreases patterns@.len() - i,
    {
        let p = chars_of(patterns[i].as_str());
        if matches_pattern(p.as_slice(), url, ephemeral) {
            assert(pattern_matches(ps[i as int], url@, ephemeral));
            return true;
        }
        i = i + 1;
    }
    false
}

pub fn applies_to(
    enabled: bool,
    matches: &Vec<String>,
    excludes: &Vec<String>,
    url: &[char],
    ephemeral: bool,
) -> (r: bool)
    ensures
        r == applies(
            enabled,
            string_seq_views(matches@),
            string_seq_views(excludes@),
            url@,
            ephemeral,
        ),
{
    if !enabled {
        return false;
    }
    if !any_pattern_matches(matches, url, ephemeral) {
        return false;
    }
    !any_pattern_matches(excludes, url, ephemeral)
}

/// A pattern with no `*` matches exactly the text equal to it.
pub proof fn law_glob_literal(pattern: Seq<char>, text: Seq<char>)
    requires
        lacks(pattern, '*'),
    ensures
        glob_matches(pattern, text) == (pattern == text),
{
    lemma_split_lacking(pattern, '*');
}

/// The pattern `*` matches every text.
pub proof fn law_glob_star_matches_all(text: Seq<char>)
    ensures
        glob_matches(seq!['*'], text),
{
    let e = Seq::<char>::empty();
    let parts = seq![e, e];
    assert(lacks(parts[0], '*') && lacks(parts[1], '*'));
    lemma_split_join(parts, '*');
    assert(join(parts, seq!['*']) == join(parts.drop_last(), seq!['*']) + seq!['*'] + e);
    assert(join(parts, seq!['*']) =~= seq!['*']);
    assert(text.take(0) == e);
    assert(parts.drop_first() =~= seq![e]);
    assert(text.skip(text.len() as int) =~= e);
}

/// A text that begins with `a` and ends with `b`, the two not overlapping,
/// matches the pattern `a*b` (`a` and `b` free of `*`).
pub proof fn law_glob_prefix_suffix(a: Seq<char>, b: Seq<char>, mid: Seq<char>)
    requires
        lacks(a, '*'),
        lacks(b, '*'),
    ensures
        glob_matches(a + seq!['*'] + b, a + mid + b),
{
    let p = a + seq!['*'] + b;
    let t = a + mid + b;
    let parts = seq![a, b];
    assert(lacks(parts[0], '*') && lacks(parts[1], '*'));
    lemma_split_join(parts, '*');
    assert(parts.drop_last() =~= seq![a]);
    assert(join(parts, seq!['*']) == join(parts.drop_last(), seq!['*']) + seq!['*'] + b);
    assert(join(parts, seq!['*']) == p);
    assert(t.take(a.len() as int) =~= a);
    assert(parts.drop_first() =~= seq![b]);
    assert(t.skip(t.len() - b.len()) =~= b);
}

} // verus!
