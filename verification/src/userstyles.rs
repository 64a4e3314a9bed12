//! Stylus-style user CSS: `/* @tag value */` metadata, URL matching (the
//! same patterns as userscripts), and the JS that injects a matching
//! stylesheet once. Reading the styles directory is left to the caller.

use vstd::prelude::*;
use crate::text::{
    trim, trim_start, split, strip_prefix, trim_start_char, trim_end_seq, views, is_ws,
    chars_of, string_of, trim_chars, split_chars, strip_prefix_str, trim_start_char_chars,
    trim_end_seq_chars, chars_eq_str, push_str, push_all, char_is_ws, slice_copy,
    flat_map_chars, hex_digit_lower_spec, hex_digit_lower, lemma_flat_map_chars_step,
    unicode_lowercase, to_lowercase,
};
use crate::url_match::{applies, applies_to, string_seq_views};
use crate::userscripts::{names_contain, contains_name};
use crate::name_sort::{stably_sorted, stable_sort_by_keys, lemma_keys_follow};
use crate::json::{json_quoted, json_string};

verus! {

/// One parsed user stylesheet.
pub struct UserStyle {
    pub file_name: String,
    pub name: String,
    pub matches: Vec<String>,
    pub excludes: Vec<String>,
    pub css: String,
    pub enabled: bool,
}

pub struct StyleView {
    pub file_name: Seq<char>,
    pub name: Seq<char>,
    pub matches: Seq<Seq<char>>,
    pub excludes: Seq<Seq<char>>,
    pub css: Seq<char>,
    pub enabled: bool,
}

impl View for UserStyle {
    type V = StyleView;

    open spec fn view(&self) -> StyleView {
        StyleView {
            file_name: self.file_name@,
            name: self.name@,
            matches: string_seq_views(self.matches@),
            excludes: string_seq_views(self.excludes@),
            css: self.css@,
            enabled: self.enabled,
        }
    }
}

pub open spec fn style_views(v: Seq<UserStyle>) -> Seq<StyleView> {
    v.map_values(|s: UserStyle| s@)
}

/// Index of the first whitespace character of `s`.
pub open spec fn first_ws(s: Seq<char>) -> Option<int> {
    if exists|i: int| 0 <= i < s.len() && #[trigger] is_ws(s[i]) {
        Some(
            choose|i: int|
                0 <= i < s.len() && #[trigger] is_ws(s[i]) && forall|j: int|
                    0 <= j < i ==> !is_ws(s[j]),
        )
    } else {
        None
    }
}

/// The value of a tag: trimmed, a closing `*/` dropped, trimmed, leading
/// `:`s dropped, trimmed.
pub open spec fn style_value(v: Seq<char>) -> Seq<char> {
    trim(trim_start_char(trim(trim_end_seq(trim(v), "*/"@)), ':'))
}

/// `/* @tag value */` (or without the closing `*/`): the tag and its
/// non-empty value; the tag ends at the first whitespace.
pub open spec fn meta_line(line: Seq<char>) -> Option<(Seq<char>, Seq<char>)> {
    match strip_prefix(trim(line), "/*"@) {
        None => None,
        Some(r1) => match strip_prefix(trim_start(r1), "@"@) {
            None => None,
            Some(r2) => match first_ws(r2) {
                None => None,
                Some(i) => {
                    let v = style_value(r2.skip(i + 1));
                    if v.len() == 0 {
                        None
                    } else {
                        Some((r2.take(i), v))
                    }
                },
            },
        },
    }
}

proof fn lemma_first_ws(s: Seq<char>)
    ensures
        match first_ws(s) {
            Some(i) => 0 <= i < s.len() && is_ws(s[i]) && forall|j: int|
                0 <= j < i ==> !is_ws(#[trigger] s[j]),
            None => forall|j: int| 0 <= j < s.len() ==> !is_ws(#[trigger] s[j]),
        },
{
    if exists|i: int| 0 <= i < s.len() && #[trigger] is_ws(s[i]) {
        let w = choose|i: int| 0 <= i < s.len() && #[trigger] is_ws(s[i]);
        lemma_first_ws_from(s, w);
    }
}

proof fn lemma_first_ws_from(s: Seq<char>, w: int)
    requires
        0 <= w < s.len(),
        is_ws(s[w]),
    ensures
        exists|i: int|
            0 <= i < s.len() && #[trigger] is_ws(s[i]) && forall|j: int|
                0 <= j < i ==> !is_ws(s[j]),
    decreases w,
{
    if exists|j: int| 0 <= j < w && is_ws(s[j]) {
        let j = choose|j: int| 0 <= j < w && is_ws(s[j]);
        lemma_first_ws_from(s, j);
    } else {
        assert(is_ws(s[w]) && forall|j: int| 0 <= j < w ==> !is_ws(s[j]));
    }
}

fn first_ws_exec(s: &[char]) -> (r: Option<usize>)
    ensures
        match r {
            Some(i) => first_ws(s@) == Some(i as int),
            None => first_ws(s@) is None,
        },
{
    let mut i: usize = 0;
    while i < s.len()
        invariant
            i <= s@.len(),
            forall|j: int| 0 <= j < i ==> !#[trigger] is_ws(s@[j]),
        decreases s@.len() - i,
    {
        if char_is_ws(s[i]) {
            proof {
                assert(is_ws(s@[i as int]));
                let k = choose|k: int|
                    0 <= k < s@.len() && #[trigger] is_ws(s@[k]) && forall|j: int|
                        0 <= j < k ==> !is_ws(s@[j]);
                assert(k == i) by {
                    if k < i {
                        assert(!is_ws(s@[k]));
                    }
                    if k > i {
                        assert(!is_ws(s@[i as int]));
                    }
                }
            }
            return Some(i);
        }
        i = i + 1;
    }
    None
}

fn trim_start_exec(s: &[char]) -> (r: Vec<char>)
    ensures
        r@ == trim_start(s@),
{
    let mut i: usize = 0;
    assert(s@.skip(0) == s@);
    while i < s.len() && char_is_ws(s[i])
        invariant
            i <= s@.len(),
            trim_start(s@) == trim_start(s@.skip(i as int)),
        decreases s@.len() - i,
    {
        assert(s@.skip(i as int).drop_first() == s@.skip(i + 1));
        i = i + 1;
    }
    slice_copy(s, i, s.len())
}

/// Splits a metadata comment line into its tag and value.
pub fn parse_meta_line(line: &[char]) -> (r: Option<(Vec<char>, Vec<char>)>)
    ensures
        match r {
            Some((t, v)) => meta_line(line@) == Some((t@, v@)),
            None => meta_line(line@) is None,
        },
{
    let t = trim_chars(line);
    let r1 = match strip_prefix_str(t.as_slice(), "/*") {
        Some(r) => r,
        None => {
            return None;
        },
    };
    let r1t = trim_start_exec(r1.as_slice());
    let r2 = match strip_prefix_str(r1t.as_slice(), "@") {
        Some(r) => r,
        None => {
            return None;
        },
    };
    let i = match first_ws_exec(r2.as_slice()) {
        Some(i) => i,
        None => {
            return None;
        },
    };
    proof {
        lemma_first_ws(r2@);
    }
    assert(i < r2.len());
    let tag = slice_copy(r2.as_slice(), 0, i);
    let raw = slice_copy(r2.as_slice(), i + 1, r2.len());
    let a = trim_chars(raw.as_slice());
    let close = vec!['*', '/'];
    proof {
        reveal_strlit("*/");
    }
    assert(close@ == "*/"@);
    let b = trim_end_seq_chars(a.as_slice(), close.as_slice());
    let c = trim_chars(b.as_slice());
    let d = trim_start_char_chars(c.as_slice(), ':');
    let v = trim_chars(d.as_slice());
    assert(tag@ == r2@.take(i as int));
    assert(raw@ == r2@.skip(i + 1));
    if v.len() == 0 {
        return None;
    }
    Some((tag, v))
}

/// Metadata gathered from a stylesheet's comment lines.
pub struct StyleMeta {
    pub name: Seq<char>,
    pub matches: Seq<Seq<char>>,
    pub excludes: Seq<Seq<char>>,
}

/// One line's effect: `@name` replaces the name, `@match` and `@exclude`
/// add a pattern, other tags and other lines change nothing.
pub open spec fn style_step(m: StyleMeta, line: Seq<char>) -> StyleMeta {
    match meta_line(line) {
        Some((tag, v)) => if tag == "name"@ {
            StyleMeta { name: v, ..m }
        } else if tag == "match"@ {
            StyleMeta { matches: m.matches.push(v), ..m }
        } else if tag == "exclude"@ {
            StyleMeta { excludes: m.excludes.push(v), ..m }
        } else {
            m
        },
        None => m,
    }
}

/// Metadata after reading `lines` in order, starting from the file name
/// without its `.css` suffix and no patterns.
pub open spec fn scan_style(file_name: Seq<char>, lines: Seq<Seq<char>>) -> StyleMeta
    decreases lines.len(),
{
    if lines.len() == 0 {
        StyleMeta {
            name: trim_end_seq(file_name, ".css"@),
            matches: Seq::empty(),
            excludes: Seq::empty(),
        }
    } else {
        style_step(scan_style(file_name, lines.drop_last()), lines.last())
    }
}

/// The style that `css`, read from `file_name`, describes, or `None` when
/// it has no `@match` line. Lines are the pieces between `'\n'`s; each is
/// trimmed before use, so a `'\r'` and a last empty line change nothing.
pub open spec fn parsed_style(file_name: Seq<char>, css: Seq<char>, disabled: Seq<String>) -> Option<
    StyleView,
> {
    let m = scan_style(file_name, split(css, '\n'));
    if m.matches.len() == 0 {
        None
    } else {
        Some(
            StyleView {
                file_name,
                name: m.name,
                matches: m.matches,
                excludes: m.excludes,
                css,
                enabled: !names_contain(disabled, file_name),
            },
        )
    }
}

/// Parses one stylesheet's text; `disabled` are the basenames switched off.
pub fn parse_style(file_name: &str, css: &str, disabled: &[String]) -> (r: Option<UserStyle>)
    ensures
        match r {
            Some(s) => parsed_style(file_name@, css@, disabled@) == Some(s@),
            None => parsed_style(file_name@, css@, disabled@) is None,
        },
{
    let fname = chars_of(file_name);
    let ext = vec!['.', 'c', 's', 's'];
    proof {
        reveal_strlit(".css");
    }
    assert(ext@ == ".css"@);
    let mut name = trim_end_seq_chars(fname.as_slice(), ext.as_slice());
    let mut matches: Vec<String> = Vec::new();
    let mut excludes: Vec<String> = Vec::new();
    let cv = chars_of(css);
    let lines = split_chars(cv.as_slice(), '\n');
    let ghost ls = views(lines@);
    let mut i: usize = 0;
    assert(ls.take(0) =~= Seq::<Seq<char>>::empty());
    assert(string_seq_views(matches@) =~= Seq::<Seq<char>>::empty());
    assert(string_seq_views(excludes@) =~= Seq::<Seq<char>>::empty());
    while i < lines.len()
        invariant
            ls == views(lines@),
            i <= lines@.len(),
            scan_style(file_name@, ls.take(i as int)) == (StyleMeta {
                name: name@,
                matches: string_seq_views(matches@),
                excludes: string_seq_views(excludes@),
            }),
        decreases lines@.len() - i,
    {
        assert(ls.take(i + 1).drop_last() == ls.take(i as int));
        assert(ls.take(i + 1).last() == lines@[i as int]@);
        let ghost m0 = scan_style(file_name@, ls.take(i as int));
        match parse_meta_line(lines[i].as_slice()) {
            Some((tag, v)) => {
                if chars_eq_str(tag.as_slice(), "name") {
                    name = v;
                } else if chars_eq_str(tag.as_slice(), "match") {
                    matches.push(string_of(v.as_slice()));
                    assert(string_seq_views(matches@) == m0.matches.push(v@));
                } else if chars_eq_str(tag.as_slice(), "exclude") {
                    excludes.push(string_of(v.as_slice()));
                    assert(string_seq_views(excludes@) == m0.excludes.push(v@));
                }
            },
            None => {},
        }
        i = i + 1;
    }
    assert(ls.take(lines@.len() as int) == ls);
    if matches.len() == 0 {
        return None;
    }
    let enabled = !contains_name(disabled, file_name);
    Some(
        UserStyle {
            file_name: string_of(fname.as_slice()),
            name: string_of(name.as_slice()),
            matches,
            excludes,
            css: string_of(cv.as_slice()),
            enabled,
        },
    )
}

/// The style is enabled, one `@match` matches `url` and no `@exclude` does.
pub open spec fn style_applies_to(url: Seq<char>, ephemeral: bool, s: StyleView) -> bool {
    applies(s.enabled, s.matches, s.excludes, url, ephemeral)
}

pub fn style_applies(url: &str, ephemeral: bool, style: &UserStyle) -> (r: bool)
    ensures
        r == style_applies_to(url@, ephemeral, style@),
{
    let u = chars_of(url);
    applies_to(style.enabled, &style.matches, &style.excludes, u.as_slice(), ephemeral)
}

/// First fixed piece of the injection snippet.
pub const INJECT_HEAD: &'static str = "(function(){var id=";

/// Fixed piece between the style id and the CSS text.
pub const INJECT_MID: &'static str = ";if(document.querySelector('style[data-spatial-userstyle=\"'+id+'\"]')) return;var s=document.createElement('style');s.setAttribute('data-spatial-userstyle', id);s.textContent=";

/// Last fixed piece of the injection snippet.
pub const INJECT_TAIL: &'static str = ";(document.documentElement||document.head||document.body).appendChild(s);})();";

/// The snippet that adds a `<style data-spatial-userstyle=id>` with the
/// stylesheet, unless one with that id is already in the page.
pub open spec fn inject_snippet(id_json: Seq<char>, css_json: Seq<char>) -> Seq<char> {
    INJECT_HEAD@ + id_json + INJECT_MID@ + css_json + INJECT_TAIL@
}

/// The injection snippet of every applying style, in order.
pub open spec fn inject_js_of(url: Seq<char>, ephemeral: bool, styles: Seq<StyleView>) -> Seq<
    Seq<char>,
>
    decreases styles.len(),
{
    if styles.len() == 0 {
        Seq::empty()
    } else {
        let prev = inject_js_of(url, ephemeral, styles.drop_last());
        let s = styles.last();
        if style_applies_to(url, ephemeral, s) {
            prev.push(inject_snippet(json_quoted(s.file_name), json_quoted(s.css)))
        } else {
            prev
        }
    }
}

fn json_or_empty(s: &str) -> (r: String)
    ensures
        r@ == json_quoted(s@),
{
    match json_string(s) {
        Some(v) => v,
        None => String::from_str("\"\""),
    }
}

/// JS snippets that inject the stylesheets matching `url`.
pub fn matching_inject_js(url: &str, ephemeral: bool, styles: &[UserStyle]) -> (r: Vec<String>)
    ensures
        string_seq_views(r@) == inject_js_of(url@, ephemeral, style_views(styles@)),
{
    let ghost sv = style_views(styles@);
    let mut out: Vec<String> = Vec::new();
    let mut i: usize = 0;
    while i < styles.len()
        invariant
            sv == style_views(styles@),
            i <= styles@.len(),
            string_seq_views(out@) == inject_js_of(url@, ephemeral, sv.take(i as int)),
        decreases styles@.len() - i,
    {
        let s = &styles[i];
        assert(sv.take(i + 1).drop_last() == sv.take(i as int));
        assert(sv.take(i + 1).last() == s@);
        if style_applies(url, ephemeral, s) {
            let css_json = json_or_empty(s.css.as_str());
            let id_json = json_or_empty(s.file_name.as_str());
            let mut js: Vec<char> = Vec::new();
            push_str(&mut js, INJECT_HEAD);
            push_str(&mut js, id_json.as_str());
            push_str(&mut js, INJECT_MID);
            push_str(&mut js, css_json.as_str());
            push_str(&mut js, INJECT_TAIL);
            out.push(string_of(js.as_slice()));
            assert(string_seq_views(out@) == inject_js_of(url@, ephemeral, sv.take(i as int)).push(
                inject_snippet(json_quoted(s@.file_name), json_quoted(s@.css)),
            ));
        }
        i = i + 1;
    }
    assert(sv.take(styles@.len() as int) == sv);
    out
}

/// Index of the first style read from `file_name`.
pub open spec fn style_index(styles: Seq<StyleView>, file_name: Seq<char>) -> Option<int> {
    if exists|i: int| 0 <= i < styles.len() && #[trigger] styles[i].file_name == file_name {
        Some(
            choose|i: int|
                0 <= i < styles.len() && #[trigger] styles[i].file_name == file_name && forall|
                    j: int,
                |
                    0 <= j < i ==> styles[j].file_name != file_name,
        )
    } else {
        None
    }
}

/// The style with its enabled flag flipped.
pub open spec fn style_flipped(s: StyleView) -> StyleView {
    StyleView { enabled: !s.enabled, ..s }
}

/// Flips `enabled` of the first style read from `file_name`; `false` when
/// there is none. The caller persists the new state with
/// `userscripts::record_enabled`.
pub fn toggle_enabled(styles: &mut Vec<UserStyle>, file_name: &str) -> (r: bool)
    ensures
        r == (style_index(style_views(old(styles)@), file_name@) is Some),
        match style_index(style_views(old(styles)@), file_name@) {
            Some(i) => style_views(final(styles)@) == style_views(old(styles)@).update(
                i,
                style_flipped(style_views(old(styles)@)[i]),
            ),
            None => final(styles)@ == old(styles)@,
        },
{
    let ghost sv = style_views(styles@);
    let mut i: usize = 0;
    while i < styles.len()
        invariant
            sv == style_views(styles@),
            styles@ == old(styles)@,
            i <= styles@.len(),
            forall|j: int| 0 <= j < i ==> #[trigger] sv[j].file_name != file_name@,
        decreases styles@.len() - i,
    {
        if chars_eq_str(chars_of(styles[i].file_name.as_str()).as_slice(), file_name) {
            assert(sv[i as int].file_name == file_name@);
            proof {
                let k = choose|k: int|
                    0 <= k < sv.len() && #[trigger] sv[k].file_name == file_name@ && forall|j: int|
                        0 <= j < k ==> sv[j].file_name != file_name@;
                assert(k == i) by {
                    if k < i {
                        assert(sv[k].file_name != file_name@);
                    }
                    if k > i {
                        assert(sv[i as int].file_name != file_name@);
                    }
                }
            }
            let mut s = styles.remove(i);
            s.enabled = !s.enabled;
            styles.insert(i, s);
            proof {
                assert(style_views(styles@) =~= sv.update(i as int, style_flipped(sv[i as int])));
            }
            return true;
        }
        i = i + 1;
    }
    false
}

/// The sort key of a style: its lower-cased name.
pub open spec fn style_key(s: UserStyle) -> Seq<char> {
    unicode_lowercase(s.name@)
}

/// Replaces `styles` with the styles just read from disk, `found`, ordered
/// by lower-cased name; styles with the same key keep their order.
pub fn reload(styles: &mut Vec<UserStyle>, found: Vec<UserStyle>)
    ensures
        stably_sorted(
            final(styles)@,
            final(styles)@.map_values(|s: UserStyle| style_key(s)),
            found@,
            found@.map_values(|s: UserStyle| style_key(s)),
        ),
{
    let mut items = found;
    let ghost old_items = items@;
    let mut keys: Vec<Vec<char>> = Vec::new();
    let mut i: usize = 0;
    while i < items.len()
        invariant
            i <= items@.len(),
            items@ == old_items,
            views(keys@) == old_items.take(i as int).map_values(|s: UserStyle| style_key(s)),
        decreases items@.len() - i,
    {
        let k = to_lowercase(items[i].name.as_str());
        let kc = chars_of(k.as_str());
        assert(kc@ == style_key(old_items[i as int]));
        let ghost before = views(keys@);
        keys.push(kc);
        assert(views(keys@) =~= before.push(kc@));
        assert(old_items.take(i + 1) == old_items.take(i as int).push(old_items[i as int]));
        assert(views(keys@) =~= old_items.take(i + 1).map_values(|s: UserStyle| style_key(s)));
        i = i + 1;
    }
    assert(old_items.take(items@.len() as int) == old_items);
    stable_sort_by_keys(&mut items, &mut keys);
    proof {
        lemma_keys_follow(items@, views(keys@), old_items, |s: UserStyle| style_key(s));
    }
    *styles = items;
}

} // verus!
