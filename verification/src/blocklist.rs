//! Host-suffix ad/tracker blocking: a request's host is blocked when one
//! of its dot-suffixes is on the compiled-in list, or it is (a subdomain
//! of) a host the user added. The list text and the switch state are
//! handed in by the caller.

use vstd::prelude::*;
use crate::text::{
    before_any, split, trim, split_once, ends_with, chars_of, split_chars, trim_chars, string_of,
    before_any_chars, split_once_chars, split_once_str_chars, chars_eq, ends_with_chars, views,
    lemma_find_char_props,
};
use crate::bookmarks::after_scheme;
use crate::url_match::string_seq_views;

verus! {

/// The host of a request URL: after the scheme, before `/`, `?`, `#` or `:`
/// (so without the port).
pub open spec fn request_host(url: Seq<char>) -> Seq<char> {
    before_any(after_scheme(url), seq!['/', '?', '#', ':'])
}

pub fn host_of(url: &str) -> (r: String)
    ensures
        r@ == request_host(url@),
{
    let u = chars_of(url);
    let rest = match split_once_str_chars(u.as_slice(), "://") {
        Some((_, rest)) => rest,
        None => u,
    };
    let stops = vec!['/', '?', '#', ':'];
    assert(stops@ == seq!['/', '?', '#', ':']);
    string_of(before_any_chars(rest.as_slice(), stops.as_slice()).as_slice())
}

/// `host` is `domain` or a subdomain of it.
pub open spec fn in_domain(host: Seq<char>, domain: Seq<char>) -> bool {
    host == domain || ends_with(host, seq!['.'] + domain)
}

pub fn matches_domain(host: &[char], domain: &[char]) -> (r: bool)
    ensures
        r == in_domain(host@, domain@),
{
    if chars_eq(host, domain) {
        return true;
    }
    let mut dotted: Vec<char> = Vec::new();
    dotted.push('.');
    crate::text::push_all(&mut dotted, domain);
    assert(dotted@ == seq!['.'] + domain@);
    ends_with_chars(host, dotted.as_slice())
}

/// `a.b.example.com`, `b.example.com`, `example.com`, `com`: the host and
/// what follows each of its dots.
pub open spec fn suffixes(host: Seq<char>) -> Seq<Seq<char>>
    decreases host.len(),
{
    match split_once(host, '.') {
        Some((_, rest)) => {
            proof {
                lemma_find_char_props(host, '.');
            }
            seq![host] + suffixes(rest)
        },
        None => seq![host],
    }
}

/// The compiled-in list: its lines, trimmed, without empty ones.
pub open spec fn listed_domains(text: Seq<char>) -> Seq<Seq<char>> {
    split(text, '\n').map_values(|l: Seq<char>| trim(l)).filter(|l: Seq<char>| l.len() > 0)
}

/// Reads the blocked-domain list text into domains.
pub fn parse_domain_list(text: &str) -> (r: Vec<String>)
    ensures
        string_seq_views(r@) == listed_domains(text@),
{
    let t = chars_of(text);
    let lines = split_chars(t.as_slice(), '\n');
    let ghost ls = views(lines@);
    let ghost trimmed = ls.map_values(|l: Seq<char>| trim(l));
    let mut out: Vec<String> = Vec::new();
    let mut i: usize = 0;
    assert(trimmed.take(0).filter(|l: Seq<char>| l.len() > 0) =~= Seq::<Seq<char>>::empty());
    while i < lines.len()
        invariant
            ls == views(lines@),
            trimmed == ls.map_values(|l: Seq<char>| trim(l)),
            i <= ls.len(),
            string_seq_views(out@) == trimmed.take(i as int).filter(|l: Seq<char>| l.len() > 0),
        decreases ls.len() - i,
    {
        let l = trim_chars(lines[i].as_slice());
        proof {
            trimmed.take(i as int).lemma_filter_push(trimmed[i as int], |l: Seq<char>| l.len() > 0);
            assert(trimmed.take(i + 1) == trimmed.take(i as int).push(trimmed[i as int]));
        }
        if l.len() > 0 {
            let ghost before = string_seq_views(out@);
            out.push(string_of(l.as_slice()));
            assert(string_seq_views(out@) =~= before.push(l@));
        }
        i = i + 1;
    }
    assert(trimmed.take(ls.len() as int) == trimmed);
    out
}

/// What the blocker is switched to.
pub struct BlockState {
    /// Master switch.
    pub enabled: bool,
    /// Whether the compiled-in list takes part.
    pub peter_lowe_enabled: bool,
    /// Hosts the user added in the settings.
    pub custom_hosts: Vec<String>,
}

/// Some of `list` equals `s`.
pub open spec fn listed(list: Seq<Seq<char>>, s: Seq<char>) -> bool {
    exists|i: int| 0 <= i < list.len() && #[trigger] list[i] == s
}

/// A host is blocked when blocking is on and either a suffix of it is on
/// the list (while the list is on) or it lies in a custom host's domain.
pub open spec fn blocked(
    host: Seq<char>,
    enabled: bool,
    peter_lowe: bool,
    list: Seq<Seq<char>>,
    custom: Seq<Seq<char>>,
) -> bool {
    enabled && ((peter_lowe && exists|i: int|
        0 <= i < suffixes(host).len() && listed(list, #[trigger] suffixes(host)[i])) || exists|
        j: int,
    |
        0 <= j < custom.len() && in_domain(host, #[trigger] custom[j]))
}

fn listed_exec(list: &Vec<String>, s: &[char]) -> (r: bool)
    ensures
        r == listed(string_seq_views(list@), s@),
{
    let ghost lv = string_seq_views(list@);
    let mut i: usize = 0;
    while i < list.len()
        invariant
            lv == string_seq_views(list@),
            i <= list@.len(),
            forall|k: int| 0 <= k < i ==> #[trigger] lv[k] != s@,
        decreases list@.len() - i,
    {
        let c = chars_of(list[i].as_str());
        if chars_eq(c.as_slice(), s) {
            assert(lv[i as int] == s@);
            return true;
        }
        i = i + 1;
    }
    false
}

/// Some suffix of `host` is on the list.
fn suffix_listed(host: &[char], list: &Vec<String>) -> (r: bool)
    ensures
        r == exists|i: int|
            0 <= i < suffixes(host@).len() && listed(
                string_seq_views(list@),
                #[trigger] suffixes(host@)[i],
            ),
    decreases host@.len(),
{
    let ghost lv = string_seq_views(list@);
    if listed_exec(list, host) {
        assert(suffixes(host@)[0] == host@);
        return true;
    }
    match split_once_chars(host, '.') {
        Some((_, rest)) => {
            proof {
                lemma_find_char_props(host@, '.');
            }
            let r = suffix_listed(rest.as_slice(), list);
            proof {
                let sh = suffixes(host@);
                assert(sh == seq![host@] + suffixes(rest@));
                if r {
                    let i = choose|i: int|
                        0 <= i < suffixes(rest@).len() && listed(lv, #[trigger] suffixes(rest@)[i]);
                    assert(sh[i + 1] == suffixes(rest@)[i]);
                } else {
                    assert forall|i: int| 0 <= i < sh.len() implies !listed(lv, #[trigger] sh[i]) by {
                        if i > 0 {
                            assert(sh[i] == suffixes(rest@)[i - 1]);
                        }
                    }
                }
            }
            r
        },
        None => {
            assert(suffixes(host@) == seq![host@]);
            false
        },
    }
}

/// Whether requests to `host` are cancelled.
pub fn is_blocked(host: &str, state: &BlockState, list: &Vec<String>) -> (r: bool)
    ensures
        r == blocked(
            host@,
            state.enabled,
            state.peter_lowe_enabled,
            string_seq_views(list@),
            string_seq_views(state.custom_hosts@),
        ),
{
    if !state.enabled {
        return false;
    }
    let h = chars_of(host);
    if state.peter_lowe_enabled && suffix_listed(h.as_slice(), list) {
        return true;
    }
    let ghost cv = string_seq_views(state.custom_hosts@);
    let mut j: usize = 0;
    while j < state.custom_hosts.len()
        invariant
            cv == string_seq_views(state.custom_hosts@),
            j <= cv.len(),
            h@ == host@,
            state.enabled,
            !(state.peter_lowe_enabled && exists|i: int|
                0 <= i < suffixes(host@).len() && listed(
                    string_seq_views(list@),
                    #[trigger] suffixes(host@)[i],
                )),
            forall|k: int| 0 <= k < j ==> !in_domain(host@, #[trigger] cv[k]),
        decreases cv.len() - j,
    {
        let d = chars_of(state.custom_hosts[j].as_str());
        assert(cv[j as int] == d@);
        if matches_domain(h.as_slice(), d.as_slice()) {
            assert(in_domain(host@, cv[j as int]));
            return true;
        }
        j = j + 1;
    }
    false
}

/// Whether a resource request is cancelled: with blocking on, when the
/// filter engine says so or the URL's host is blocked.
pub open spec fn cancels(enabled: bool, engine_blocks: bool, host_blocked: bool) -> bool {
    enabled && (engine_blocks || host_blocked)
}

/// Whether a request for `url` is cancelled, given what the filter
/// engine answered for it (`engine_blocks`).
pub fn request_verdict(url: &str, engine_blocks: bool, state: &BlockState, list: &Vec<String>) -> (r: bool)
    ensures
        r == cancels(
            state.enabled,
            engine_blocks,
            blocked(
                request_host(url@),
                state.enabled,
                state.peter_lowe_enabled,
                string_seq_views(list@),
                string_seq_views(state.custom_hosts@),
            ),
        ),
{
    if !state.enabled {
        return false;
    }
    if engine_blocks {
        return true;
    }
    let host = host_of(url);
    is_blocked(host.as_str(), state, list)
}

/// Whether the resource request for `url` (from the page at `referrer`)
/// is cancelled: never while blocking is off; otherwise when the filter
/// engine blocks it or its host is blocked. The engine is only asked
/// while blocking is on.
pub fn should_cancel(
    url: &str,
    referrer: &str,
    kind: crate::filter_engine::ResourceKind,
    engine: Option<&crate::filter_engine::FilterEngine>,
    state: &BlockState,
    list: &Vec<String>,
) -> (r: bool)
    ensures
        r == cancels(
            state.enabled,
            crate::filter_engine::engine_verdict(engine, url@, referrer@, kind),
            blocked(
                request_host(url@),
                state.enabled,
                state.peter_lowe_enabled,
                string_seq_views(list@),
                string_seq_views(state.custom_hosts@),
            ),
        ),
{
    if !state.enabled {
        return false;
    }
    let engine_blocks = crate::filter_engine::check_request(engine, url, referrer, kind);
    request_verdict(url, engine_blocks, state, list)
}

/// Nothing is blocked while blocking is off, and a host added by the
/// user is blocked together with all its subdomains.
pub proof fn law_custom_host_blocks_subdomains(
    host: Seq<char>,
    sub: Seq<char>,
    list: Seq<Seq<char>>,
    custom: Seq<Seq<char>>,
    peter_lowe: bool,
)
    requires
        listed(custom, host),
    ensures
        !blocked(sub, false, peter_lowe, list, custom),
        blocked(host, true, peter_lowe, list, custom),
        blocked(sub + seq!['.'] + host, true, peter_lowe, list, custom),
{
    let j = choose|j: int| 0 <= j < custom.len() && #[trigger] custom[j] == host;
    assert(in_domain(host, custom[j]));
    let full = sub + seq!['.'] + host;
    assert(full.skip(full.len() - (seq!['.'] + host).len()) =~= seq!['.'] + host);
    assert(in_domain(full, custom[j]));
}

/// The first suffix of a host is the host itself.
proof fn lemma_suffixes_first(s: Seq<char>)
    ensures
        suffixes(s).len() > 0,
        suffixes(s)[0] == s,
{
    match split_once(s, '.') {
        Some((_, rest)) => {
            lemma_find_char_props(s, '.');
        },
        None => {},
    }
}

/// What follows any dot of a host is one of its suffixes.
proof fn lemma_suffix_after_dot(s: Seq<char>, k: int)
    requires
        0 <= k < s.len(),
        s[k] == '.',
    ensures
        exists|i: int| 0 <= i < suffixes(s).len() && #[trigger] suffixes(s)[i] == s.skip(k + 1),
    decreases s.len(),
{
    lemma_find_char_props(s, '.');
    let f = crate::text::find_char(s, '.')->0;
    let rest = s.skip(f + 1);
    assert(suffixes(s) == seq![s] + suffixes(rest));
    if k == f {
        lemma_suffixes_first(rest);
        assert(suffixes(s)[1] == s.skip(k + 1));
    } else {
        assert(k > f);
        assert(rest[k - f - 1] == '.');
        lemma_suffix_after_dot(rest, k - f - 1);
        assert(rest.skip(k - f) =~= s.skip(k + 1));
        let i = choose|i: int| 0 <= i < suffixes(rest).len() && #[trigger] suffixes(rest)[i] == rest.skip(k - f);
        assert(suffixes(s)[i + 1] == suffixes(rest)[i]);
    }
}

/// While blocking and the compiled-in list are on, a domain on the list is
/// blocked, and so is every subdomain of it.
pub proof fn law_listed_domain_blocks(
    sub: Seq<char>,
    domain: Seq<char>,
    list: Seq<Seq<char>>,
    custom: Seq<Seq<char>>,
)
    requires
        listed(list, domain),
    ensures
        blocked(domain, true, true, list, custom),
        blocked(sub + seq!['.'] + domain, true, true, list, custom),
{
    lemma_suffixes_first(domain);
    assert(listed(list, suffixes(domain)[0]));
    let full = sub + seq!['.'] + domain;
    assert(full[sub.len() as int] == '.');
    lemma_suffix_after_dot(full, sub.len() as int);
    assert(full.skip(sub.len() as int + 1) =~= domain);
    let i = choose|i: int| 0 <= i < suffixes(full).len() && #[trigger] suffixes(full)[i] == full.skip(
        sub.len() as int + 1,
    );
    assert(listed(list, suffixes(full)[i]));
}

} // verus!
