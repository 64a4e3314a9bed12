//! Tampermonkey-style userscripts: metadata parsing from the script text,
//! URL matching, the GM_* prelude wrapping, and enabled-state bookkeeping.
//! Reading the scripts directory and the state file is left to the caller.

use vstd::prelude::*;
use crate::text::{
    trim, split, strip_prefix, trim_start_char, trim_end_seq, views, chars_of, string_of,
    trim_chars, split_chars, strip_prefix_str, trim_start_char_chars, trim_end_seq_chars,
    chars_eq_str, push_str, unicode_lowercase, to_lowercase,
};
use crate::name_sort::{stably_sorted, stable_sort_by_keys, lemma_keys_follow};
use crate::url_match::{applies, applies_to, string_seq_views};

verus! {

/// When a script runs relative to page loading.
#[derive(Clone, Copy, Debug, PartialEq, Eq, Structural)]
pub enum RunAt {
    DocumentStart,
    DocumentEnd,
    DocumentIdle,
}

/// The `@run-at` value: `document-start`, `document-idle`, and anything
/// else means `document-end`.
pub open spec fn run_at_of(s: Seq<char>) -> RunAt {
    let t = trim(s);
    if t == "document-start"@ {
        RunAt::DocumentStart
    } else if t == "document-idle"@ {
        RunAt::DocumentIdle
    } else {
        RunAt::DocumentEnd
    }
}

impl RunAt {
    pub fn parse(s: &str) -> (r: RunAt)
        ensures
            r == run_at_of(s@),
    {
        let sc = chars_of(s);
        let t = trim_chars(sc.as_slice());
        if chars_eq_str(t.as_slice(), "document-start") {
            RunAt::DocumentStart
        } else if chars_eq_str(t.as_slice(), "document-idle") {
            RunAt::DocumentIdle
        } else {
            RunAt::DocumentEnd
        }
    }
}

/// One parsed userscript.
pub struct UserScript {
    pub file_name: String,
    pub name: String,
    pub matches: Vec<String>,
    pub excludes: Vec<String>,
    pub run_at: RunAt,
    pub code: String,
    pub enabled: bool,
}

pub struct ScriptView {
    pub file_name: Seq<char>,
    pub name: Seq<char>,
    pub matches: Seq<Seq<char>>,
    pub excludes: Seq<Seq<char>>,
    pub run_at: RunAt,
    pub code: Seq<char>,
    pub enabled: bool,
}

impl View for UserScript {
    type V = ScriptView;

    open spec fn view(&self) -> ScriptView {
        ScriptView {
            file_name: self.file_name@,
            name: self.name@,
            matches: string_seq_views(self.matches@),
            excludes: string_seq_views(self.excludes@),
            run_at: self.run_at,
            code: self.code@,
            enabled: self.enabled,
        }
    }
}

pub open spec fn script_views(v: Seq<UserScript>) -> Seq<ScriptView> {
    v.map_values(|s: UserScript| s@)
}

/// Metadata gathered from a script's comment lines.
pub struct ScriptMeta {
    pub name: Seq<char>,
    pub matches: Seq<Seq<char>>,
    pub excludes: Seq<Seq<char>>,
    pub run_at: RunAt,
}

/// The value after a metadata tag: trimmed, leading `:`s dropped, trimmed again.
pub open spec fn tag_value(rest: Seq<char>) -> Seq<char> {
    trim(trim_start_char(trim(rest), ':'))
}

/// One line's effect on the metadata. Tags are tried in the order
/// `@name`, `@match`, `@exclude`, `@run-at`, each as a plain prefix of the
/// trimmed line.
pub open spec fn meta_step(m: ScriptMeta, line: Seq<char>) -> ScriptMeta {
    let t = trim(line);
    if let Some(rest) = strip_prefix(t, "// @name"@) {
        let v = tag_value(rest);
        if v.len() > 0 {
            ScriptMeta { name: v, ..m }
        } else {
            m
        }
    } else if let Some(rest) = strip_prefix(t, "// @match"@) {
        let v = tag_value(rest);
        if v.len() > 0 {
            ScriptMeta { matches: m.matches.push(v), ..m }
        } else {
            m
        }
    } else if let Some(rest) = strip_prefix(t, "// @exclude"@) {
        let v = tag_value(rest);
        if v.len() > 0 {
            ScriptMeta { excludes: m.excludes.push(v), ..m }
        } else {
            m
        }
    } else if let Some(rest) = strip_prefix(t, "// @run-at"@) {
        ScriptMeta { run_at: run_at_of(tag_value(rest)), ..m }
    } else {
        m
    }
}

/// Metadata after reading `lines` in order, starting from the file name
/// without its `.js` suffix, no patterns and `document-end`.
pub open spec fn scan_meta(file_name: Seq<char>, lines: Seq<Seq<char>>) -> ScriptMeta
    decreases lines.len(),
{
    if lines.len() == 0 {
        ScriptMeta {
            name: trim_end_seq(file_name, ".js"@),
            matches: Seq::empty(),
            excludes: Seq::empty(),
            run_at: RunAt::DocumentEnd,
        }
    } else {
        meta_step(scan_meta(file_name, lines.drop_last()), lines.last())
    }
}

/// Some name of `names` equals `s`.
pub open spec fn names_contain(names: Seq<String>, s: Seq<char>) -> bool {
    exists|i: int| 0 <= i < names.len() && #[trigger] names[i]@ == s
}

/// The script that `code`, read from the file `file_name`, describes, or
/// `None` when it has no `@match` line. The text is read line by line
/// (`split` at `'\n'`; every line is trimmed before use, so a `'\r'` before
/// the line break and a last empty line change nothing).
pub open spec fn parsed_script(file_name: Seq<char>, code: Seq<char>, disabled: Seq<String>) -> Option<
    ScriptView,
> {
    let m = scan_meta(file_name, split(code, '\n'));
    if m.matches.len() == 0 {
        None
    } else {
        Some(
            ScriptView {
                file_name,
                name: m.name,
                matches: m.matches,
                excludes: m.excludes,
                run_at: m.run_at,
                code,
                enabled: !names_contain(disabled, file_name),
            },
        )
    }
}

fn tag_value_exec(rest: &[char]) -> (r: Vec<char>)
    ensures
        r@ == tag_value(rest@),
{
    let a = trim_chars(rest);
    let b = trim_start_char_chars(a.as_slice(), ':');
    trim_chars(b.as_slice())
}

pub fn contains_name(names: &[String], s: &str) -> (r: bool)
    ensures
        r == names_contain(names@, s@),
{
    let mut i: usize = 0;
    while i < names.len()
        invariant
            i <= names@.len(),
            forall|j: int| 0 <= j < i ==> #[trigger] names@[j]@ != s@,
        decreases names@.len() - i,
    {
        let c = chars_of(names[i].as_str());
        if chars_eq_str(c.as_slice(), s) {
            return true;
        }
        i = i + 1;
    }
    false
}

/// Parses one script file's text; `disabled` are the basenames switched off.
pub fn parse_script(file_name: &str, code: &str, disabled: &[String]) -> (r: Option<UserScript>)
    ensures
        match r {
            Some(s) => parsed_script(file_name@, code@, disabled@) == Some(s@),
            None => parsed_script(file_name@, code@, disabled@) is None,
        },
{
    let fname = chars_of(file_name);
    let js = vec!['.', 'j', 's'];
    proof {
        reveal_strlit(".js");
    }
    assert(js@ == ".js"@);
    let mut name = trim_end_seq_chars(fname.as_slice(), js.as_slice());
    let mut matches: Vec<String> = Vec::new();
    let mut excludes: Vec<String> = Vec::new();
    let mut run_at = RunAt::DocumentEnd;
    let cv = chars_of(code);
    let lines = split_chars(cv.as_slice(), '\n');
    let ghost ls = views(lines@);
    let mut i: usize = 0;
    assert(ls.take(0) =~= Seq::<Seq<char>>::empty());
    assert(string_seq_views(matches@) =~= Seq::<Seq<char>>::empty());
    assert(string_seq_views(excludes@) =~= Seq::<Seq<char>>::empty());
    while i < lines.len()
        invariant
            ls == views(lines@),
            i <= lines@.len(),
            scan_meta(file_name@, ls.take(i as int)) == (ScriptMeta {
                name: name@,
                matches: string_seq_views(matches@),
                excludes: string_seq_views(excludes@),
                run_at,
            }),
        decreases lines@.len() - i,
    {
        let t = trim_chars(lines[i].as_slice());
        assert(ls.take(i + 1).drop_last() == ls.take(i as int));
        assert(ls.take(i + 1).last() == lines@[i as int]@);
        let ghost m0 = scan_meta(file_name@, ls.take(i as int));
        if let Some(rest) = strip_prefix_str(t.as_slice(), "// @name") {
            let v = tag_value_exec(rest.as_slice());
            if v.len() > 0 {
                name = v;
            }
        } else if let Some(rest) = strip_prefix_str(t.as_slice(), "// @match") {
            let v = tag_value_exec(rest.as_slice());
            if v.len() > 0 {
                matches.push(string_of(v.as_slice()));
                assert(string_seq_views(matches@) == m0.matches.push(v@));
            }
        } else if let Some(rest) = strip_prefix_str(t.as_slice(), "// @exclude") {
            let v = tag_value_exec(rest.as_slice());
            if v.len() > 0 {
                excludes.push(string_of(v.as_slice()));
                assert(string_seq_views(excludes@) == m0.excludes.push(v@));
            }
        } else if let Some(rest) = strip_prefix_str(t.as_slice(), "// @run-at") {
            let v = tag_value_exec(rest.as_slice());
            let vs = string_of(v.as_slice());
            run_at = RunAt::parse(vs.as_str());
        }
        i = i + 1;
    }
    assert(ls.take(lines@.len() as int) == ls);
    if matches.len() == 0 {
        return None;
    }
    let enabled = !contains_name(disabled, file_name);
    Some(
        UserScript {
            file_name: string_of(fname.as_slice()),
            name: string_of(name.as_slice()),
            matches,
            excludes,
            run_at,
            code: string_of(cv.as_slice()),
            enabled,
        },
    )
}

/// The script is enabled, one `@match` matches `url` and no `@exclude` does.
pub open spec fn script_applies(url: Seq<char>, ephemeral: bool, s: ScriptView) -> bool {
    applies(s.enabled, s.matches, s.excludes, url, ephemeral)
}

pub fn url_matches_script(url: &str, ephemeral: bool, script: &UserScript) -> (r: bool)
    ensures
        r == script_applies(url@, ephemeral, script@),
{
    let u = chars_of(url);
    applies_to(script.enabled, &script.matches, &script.excludes, u.as_slice(), ephemeral)
}

/// Minimal `GM_addStyle` / `GM_getValue` / `GM_setValue`, backed by
/// `localStorage`, so common GreasyFork scripts run unchanged.
pub const GM_PRELUDE: &'static str = "(function(){
  if (window.__spatialGM) return;
  window.__spatialGM = true;
  window.GM_addStyle = function(css) {
    var s = document.createElement('style');
    s.textContent = css;
    (document.head || document.documentElement).appendChild(s);
  };
  window.GM_getValue = function(key, def) {
    try {
      var v = localStorage.getItem('gm:' + key);
      return v === null ? def : JSON.parse(v);
    } catch (e) { return def; }
  };
  window.GM_setValue = function(key, val) {
    try { localStorage.setItem('gm:' + key, JSON.stringify(val)); } catch (e) {}
  };
})();";

/// Opening of the wrapper that defers a `document-idle` script to `load`.
pub const IDLE_OPEN: &'static str = "\n(function(){\n  var run=function(){\n";

/// Closing of that wrapper.
pub const IDLE_CLOSE: &'static str = "\n  };\n  if(document.readyState==='complete') run();\n  else window.addEventListener('load', run);\n})();";

/// What gets injected for a script's code: the prelude, a line break and
/// the code; for `document-idle` the code runs from a `load` handler.
pub open spec fn wrapped_code(code: Seq<char>, run_at: RunAt) -> Seq<char> {
    if run_at == RunAt::DocumentIdle {
        GM_PRELUDE@ + IDLE_OPEN@ + code + IDLE_CLOSE@
    } else {
        GM_PRELUDE@ + "\n"@ + code
    }
}

/// The injected code of every script, in order, that runs at `run_at`
/// and applies to `url`.
pub open spec fn matching_code_of(
    url: Seq<char>,
    ephemeral: bool,
    scripts: Seq<ScriptView>,
    run_at: RunAt,
) -> Seq<Seq<char>>
    decreases scripts.len(),
{
    if scripts.len() == 0 {
        Seq::empty()
    } else {
        let prev = matching_code_of(url, ephemeral, scripts.drop_last(), run_at);
        let s = scripts.last();
        if s.run_at == run_at && script_applies(url, ephemeral, s) {
            prev.push(wrapped_code(s.code, run_at))
        } else {
            prev
        }
    }
}

fn wrap_code(code: &str, run_at: RunAt) -> (r: String)
    ensures
        r@ == wrapped_code(code@, run_at),
{
    let mut out: Vec<char> = Vec::new();
    push_str(&mut out, GM_PRELUDE);
    if run_at == RunAt::DocumentIdle {
        push_str(&mut out, IDLE_OPEN);
        push_str(&mut out, code);
        push_str(&mut out, IDLE_CLOSE);
    } else {
        push_str(&mut out, "\n");
        push_str(&mut out, code);
    }
    string_of(out.as_slice())
}

/// Code to inject into `url` at `run_at`, each entry already wrapped with
/// the GM prelude; `ephemeral` lets `spatial-ui` patterns match.
pub fn matching_code(url: &str, ephemeral: bool, scripts: &[UserScript], run_at: RunAt) -> (r: Vec<
    String,
>)
    ensures
        string_seq_views(r@) == matching_code_of(url@, ephemeral, script_views(scripts@), run_at),
{
    let ghost sv = script_views(scripts@);
    let mut out: Vec<String> = Vec::new();
    let mut i: usize = 0;
    while i < scripts.len()
        invariant
            sv == script_views(scripts@),
            i <= scripts@.len(),
            string_seq_views(out@) == matching_code_of(url@, ephemeral, sv.take(i as int), run_at),
        decreases scripts@.len() - i,
    {
        let s = &scripts[i];
        assert(sv.take(i + 1).drop_last() == sv.take(i as int));
        assert(sv.take(i + 1).last() == s@);
        if s.run_at == run_at && url_matches_script(url, ephemeral, s) {
            let w = wrap_code(s.code.as_str(), run_at);
            out.push(w);
            assert(string_seq_views(out@) == matching_code_of(
                url@,
                ephemeral,
                sv.take(i as int),
                run_at,
            ).push(wrapped_code(s@.code, run_at)));
        }
        i = i + 1;
    }
    assert(sv.take(scripts@.len() as int) == sv);
    out
}

/// Index of the first script read from `file_name`.
pub open spec fn script_index(scripts: Seq<ScriptView>, file_name: Seq<char>) -> Option<int> {
    if exists|i: int| 0 <= i < scripts.len() && #[trigger] scripts[i].file_name == file_name {
        Some(
            choose|i: int|
                0 <= i < scripts.len() && #[trigger] scripts[i].file_name == file_name && forall|
                    j: int,
                |
                    0 <= j < i ==> scripts[j].file_name != file_name,
        )
    } else {
        None
    }
}

/// The script with its enabled flag flipped.
pub open spec fn flipped(s: ScriptView) -> ScriptView {
    ScriptView { enabled: !s.enabled, ..s }
}

/// Flips `enabled` of the first script read from `file_name`; `false`
/// when there is none. The caller persists the new state (see
/// `record_enabled`).
pub fn toggle_enabled(scripts: &mut Vec<UserScript>, file_name: &str) -> (r: bool)
    ensures
        r == (script_index(script_views(old(scripts)@), file_name@) is Some),
        match script_index(script_views(old(scripts)@), file_name@) {
            Some(i) => script_views(final(scripts)@) == script_views(old(scripts)@).update(
                i,
                flipped(script_views(old(scripts)@)[i]),
            ),
            None => final(scripts)@ == old(scripts)@,
        },
{
    let ghost sv = script_views(scripts@);
    let mut i: usize = 0;
    while i < scripts.len()
        invariant
            sv == script_views(scripts@),
            scripts@ == old(scripts)@,
            i <= scripts@.len(),
            forall|j: int| 0 <= j < i ==> #[trigger] sv[j].file_name != file_name@,
        decreases scripts@.len() - i,
    {
        if chars_eq_str(chars_of(scripts[i].file_name.as_str()).as_slice(), file_name) {
            assert(sv[i as int].file_name == file_name@);
            proof {
                let k = choose|k: int|
                    0 <= k < sv.len() && #[trigger] sv[k].file_name == file_name@ && forall|j: int|
                        0 <= j < k ==> sv[j].file_name != file_name@;
                assert(k == i) by {
                    if k < i {
                        assert(sv[k].file_name != file_name@);
                    }
                    if k > i {
                        assert(sv[i as int].file_name != file_name@);
                    }
                }
            }
            let mut s = scripts.remove(i);
            s.enabled = !s.enabled;
            scripts.insert(i, s);
            proof {
                assert(script_views(scripts@) =~= sv.update(i as int, flipped(sv[i as int])));
            }
            return true;
        }
        i = i + 1;
    }
    false
}

/// The disabled-set after a toggle: a now-enabled name leaves it, a
/// now-disabled name joins it (once).
pub open spec fn disabled_after(disabled: Seq<Seq<char>>, file_name: Seq<char>, enabled: bool) -> Seq<
    Seq<char>,
> {
    if enabled {
        disabled.filter(|d: Seq<char>| d != file_name)
    } else if disabled.contains(file_name) {
        disabled
    } else {
        disabled.push(file_name)
    }
}

/// Updates the persisted set of disabled basenames for `file_name`.
pub fn record_enabled(disabled: &mut Vec<String>, file_name: &str, enabled: bool)
    ensures
        string_seq_views(final(disabled)@) == disabled_after(
            string_seq_views(old(disabled)@),
            file_name@,
            enabled,
        ),
{
    let ghost old_v = string_seq_views(disabled@);
    if enabled {
        let mut kept: Vec<String> = Vec::new();
        let mut i: usize = 0;
        while i < disabled.len()
            invariant
                old_v == string_seq_views(disabled@),
                i <= disabled@.len(),
                string_seq_views(kept@) == old_v.take(i as int).filter(
                    |d: Seq<char>| d != file_name@,
                ),
            decreases disabled@.len() - i,
        {
            let d = disabled[i].clone();
            proof {
                old_v.take(i as int).lemma_filter_push(
                    old_v[i as int],
                    |d: Seq<char>| d != file_name@,
                );
            }
            assert(old_v.take(i + 1) == old_v.take(i as int).push(old_v[i as int]));
            if !chars_eq_str(chars_of(d.as_str()).as_slice(), file_name) {
                kept.push(d);
            }
            i = i + 1;
        }
        assert(old_v.take(old_v.len() as int) == old_v);
        *disabled = kept;
    } else {
        let present = contains_name(disabled.as_slice(), file_name);
        proof {
            if present {
                let k = choose|k: int| 0 <= k < disabled@.len() && #[trigger] disabled@[k]@ == file_name@;
                assert(old_v[k] == file_name@);
            } else {
                if old_v.contains(file_name@) {
                    let k = choose|k: int| 0 <= k < old_v.len() && old_v[k] == file_name@;
                    assert(disabled@[k]@ == file_name@);
                }
            }
        }
        if !present {
            disabled.push(string_of(chars_of(file_name).as_slice()));
            assert(string_seq_views(disabled@) == old_v.push(file_name@));
        }
    }
}

/// The sort key of a script: its lower-cased name.
pub open spec fn script_key(s: UserScript) -> Seq<char> {
    unicode_lowercase(s.name@)
}

/// Replaces `scripts` with the scripts just read from disk, `found`,
/// ordered by lower-cased name; scripts with the same key keep their order.
pub fn reload(scripts: &mut Vec<UserScript>, found: Vec<UserScript>)
    ensures
        stably_sorted(
            final(scripts)@,
            final(scripts)@.map_values(|s: UserScript| script_key(s)),
            found@,
            found@.map_values(|s: UserScript| script_key(s)),
        ),
{
    let mut items = found;
    let ghost old_items = items@;
    let mut keys: Vec<Vec<char>> = Vec::new();
    let mut i: usize = 0;
    while i < items.len()
        invariant
            i <= items@.len(),
            items@ == old_items,
            views(keys@) == old_items.take(i as int).map_values(|s: UserScript| script_key(s)),
        decreases items@.len() - i,
    {
        let k = to_lowercase(items[i].name.as_str());
        let kc = chars_of(k.as_str());
        assert(kc@ == script_key(old_items[i as int]));
        let ghost before = views(keys@);
        keys.push(kc);
        assert(views(keys@) =~= before.push(kc@));
        assert(old_items.take(i + 1) == old_items.take(i as int).push(old_items[i as int]));
        assert(views(keys@) =~= old_items.take(i + 1).map_values(|s: UserScript| script_key(s)));
        i = i + 1;
    }
    assert(old_items.take(items@.len() as int) == old_items);
    stable_sort_by_keys(&mut items, &mut keys);
    proof {
        lemma_keys_follow(items@, views(keys@), old_items, |s: UserScript| script_key(s));
    }
    *scripts = items;
}

/// `" " + p` with a clean `p` trims to `p`, and `p` keeps no `:` to drop.
proof fn lemma_clean_value(p: Seq<char>)
    requires
        p.len() > 0,
        !crate::text::is_ws(p[0]),
        !crate::text::is_ws(p.last()),
        p[0] != ':',
    ensures
        tag_value(seq![' '] + p) == p,
{
    let sp = seq![' '] + p;
    assert(crate::text::is_ws(' '));
    assert(sp.drop_first() == p);
    crate::vault::lemma_trim_start_props(p);
    assert(crate::text::trim_start(sp) == p);
    crate::vault::lemma_trim_end_props(p);
    assert(trim(sp) == p);
    assert(trim_start_char(p, ':') == p);
    crate::vault::lemma_trim_stable(p);
}

/// Each `// @match` line adds its pattern after the ones read so far: for
/// a pattern `p` (no surrounding whitespace, not starting with `:`), the
/// line `// @match p` appends exactly `p` to the patterns.
pub proof fn law_match_line_appends(file_name: Seq<char>, lines: Seq<Seq<char>>, p: Seq<char>)
    requires
        p.len() > 0,
        !crate::text::is_ws(p[0]),
        !crate::text::is_ws(p.last()),
        p[0] != ':',
    ensures
        scan_meta(file_name, lines.push("// @match "@ + p)).matches == scan_meta(
            file_name,
            lines,
        ).matches.push(p),
{
    reveal_strlit("// @match ");
    reveal_strlit("// @match");
    reveal_strlit("// @name");
    let l = "// @match "@ + p;
    assert(lines.push(l).drop_last() == lines);
    assert(lines.push(l).last() == l);
    assert(l[0] == '/');
    assert(l.last() == p.last());
    crate::vault::lemma_trim_stable(l);
    assert(l.take(8)[4] == 'm');
    assert(l.take(8) != "// @name"@);
    assert(l.take(9) =~= "// @match"@);
    assert(l.skip(9) =~= seq![' '] + p);
    lemma_clean_value(p);
}

/// A line that is not a `// @match` line leaves the patterns as they are.
pub proof fn law_other_lines_keep_matches(file_name: Seq<char>, lines: Seq<Seq<char>>, l: Seq<char>)
    requires
        !crate::text::starts_with(trim(l), "// @match"@),
    ensures
        scan_meta(file_name, lines.push(l)).matches == scan_meta(file_name, lines).matches,
{
    assert(lines.push(l).drop_last() == lines);
    assert(lines.push(l).last() == l);
}

} // verus!
