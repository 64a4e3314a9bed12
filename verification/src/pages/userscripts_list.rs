//! The scripts-and-styles list: one row per userscript and per userstyle
//! (a click turns it on or off), and buttons to reload both from disk or
//! open their folders.

use vstd::prelude::*;
use crate::pages::{
    body_open, body_open_html, html_escape, html_escaped, url_encoded_path, urlencoding_path,
    PageTheme, LIST_NAV_SCRIPT,
};
use crate::text::{join, push_all, push_str, string_of};
use crate::url_match::string_seq_views;
use crate::userscripts::{RunAt, ScriptView, UserScript};
use crate::userstyles::{StyleView, UserStyle};

verus! {

/// What the list says when there is no userscript.
pub open spec fn no_scripts_text() -> Seq<char> {
    "<p style=\"opacity:0.7;margin:8px 0\">No scripts yet. Drop a <code>.js</code> with <code>// @match</code> (use <code>spatial-ui</code> for built-in lists) into the userscripts folder, then Reload.</p>"@
}

/// What the list says when there is no userstyle.
pub open spec fn no_styles_text() -> Seq<char> {
    "<p style=\"opacity:0.7;margin:8px 0\">No styles yet. Drop a <code>.css</code> with <code>/* @match */</code> (use <code>spatial-ui</code> for built-in lists) into the userstyles folder, then Reload.</p>"@
}

/// The `@run-at` value as the list writes it.
pub open spec fn run_at_text(r: RunAt) -> Seq<char> {
    match r {
        RunAt::DocumentStart => "document-start"@,
        RunAt::DocumentEnd => "document-end"@,
        RunAt::DocumentIdle => "document-idle"@,
    }
}

fn run_at_name(r: RunAt) -> (s: &'static str)
    ensures
        s@ == run_at_text(r),
{
    match r {
        RunAt::DocumentStart => "document-start",
        RunAt::DocumentEnd => "document-end",
        RunAt::DocumentIdle => "document-idle",
    }
}

/// `parts` joined with `sep`.
pub fn join_strings(parts: &Vec<String>, sep: &str) -> (r: String)
    ensures
        r@ == join(string_seq_views(parts@), sep@),
{
    let mut out: Vec<char> = Vec::new();
    let mut i: usize = 0;
    while i < parts.len()
        invariant
            i <= parts.len(),
            out@ == join(string_seq_views(parts@).take(i as int), sep@),
        decreases parts.len() - i,
    {
        let ghost before = string_seq_views(parts@).take(i as int);
        if i > 0 {
            push_str(&mut out, sep);
        }
        push_str(&mut out, parts[i].as_str());
        assert(string_seq_views(parts@).take(i + 1) =~= before.push(parts@[i as int]@));
        assert(before.push(parts@[i as int]@).drop_last() =~= before);
        i = i + 1;
    }
    assert(string_seq_views(parts@).take(parts.len() as int) =~= string_seq_views(parts@));
    string_of(out.as_slice())
}

/// A userscript's row, `radius` rounding its corners.
pub open spec fn script_row_html(s: ScriptView, radius: Seq<char>, t: PageTheme) -> Seq<char> {
    let toggle = "userscripts://toggle/"@ + url_encoded_path(s.file_name);
    "<div class=\"list-row\" data-open=\""@
        + toggle
        + "\" onclick=\"location='"@
        + toggle
        + "'\" style=\"display:flex;flex-direction:column;gap:4px;padding:10px 14px;cursor:pointer;background:"@
        + t.help_card_bg@
        + ";border-radius:"@
        + radius
        + ";border:1px solid "@
        + t.help_card_border@
        + ";opacity:"@
        + (if s.enabled { "1"@ } else { "0.55"@ })
        + "\"><div style=\"display:flex;align-items:center;gap:10px\"><span style=\"flex:1;font-weight:600;color:"@
        + t.help_heading@
        + "\">"@
        + html_escaped(s.name)
        + "</span><span style=\"flex-shrink:0;color:"@
        + t.help_heading@
        + ";opacity:0.7\">"@
        + (if s.enabled { "On"@ } else { "Off"@ })
        + "</span></div><div style=\"font-size:12px;color:"@
        + t.help_heading@
        + ";opacity:0.65\">"@
        + html_escaped(s.file_name)
        + " · "@
        + run_at_text(s.run_at)
        + "</div><div style=\"font-size:12px;color:"@
        + t.help_heading@
        + ";opacity:0.55;word-break:break-all\">"@
        + html_escaped(join(s.matches, ", "@))
        + "</div></div>"@
}

/// A userstyle's row.
pub open spec fn style_row_html(s: StyleView, radius: Seq<char>, t: PageTheme) -> Seq<char> {
    let toggle = "userscripts://toggle-style/"@ + url_encoded_path(s.file_name);
    "<div class=\"list-row\" data-open=\""@
        + toggle
        + "\" onclick=\"location='"@
        + toggle
        + "'\" style=\"display:flex;flex-direction:column;gap:4px;padding:10px 14px;cursor:pointer;background:"@
        + t.help_card_bg@
        + ";border-radius:"@
        + radius
        + ";border:1px solid "@
        + t.help_card_border@
        + ";opacity:"@
        + (if s.enabled { "1"@ } else { "0.55"@ })
        + "\"><div style=\"display:flex;align-items:center;gap:10px\"><span style=\"flex:1;font-weight:600;color:"@
        + t.help_heading@
        + "\">"@
        + html_escaped(s.name)
        + "</span><span style=\"flex-shrink:0;color:"@
        + t.help_heading@
        + ";opacity:0.7\">"@
        + (if s.enabled { "On"@ } else { "Off"@ })
        + "</span></div><div style=\"font-size:12px;color:"@
        + t.help_heading@
        + ";opacity:0.65\">"@
        + html_escaped(s.file_name)
        + "</div><div style=\"font-size:12px;color:"@
        + t.help_heading@
        + ";opacity:0.55;word-break:break-all\">"@
        + html_escaped(join(s.matches, ", "@))
        + "</div></div>"@
}

/// The rows of the first `n` scripts.
pub open spec fn script_rows_upto(v: Seq<ScriptView>, radius: Seq<char>, t: PageTheme, n: nat) -> Seq<char>
    decreases n,
{
    if n == 0 {
        Seq::empty()
    } else {
        script_rows_upto(v, radius, t, (n - 1) as nat) + script_row_html(v[n - 1], radius, t)
    }
}

/// The rows of the first `n` styles.
pub open spec fn style_rows_upto(v: Seq<StyleView>, radius: Seq<char>, t: PageTheme, n: nat) -> Seq<char>
    decreases n,
{
    if n == 0 {
        Seq::empty()
    } else {
        style_rows_upto(v, radius, t, (n - 1) as nat) + style_row_html(v[n - 1], radius, t)
    }
}

/// The reload and folder buttons.
pub open spec fn actions_html(radius_inner: Seq<char>, t: PageTheme) -> Seq<char> {
    "<div style=\"display:flex;gap:8px;margin:0 0 12px;flex-wrap:wrap\"><button onclick=\"location='userscripts://reload'\" style=\"background:"@
        + t.help_key_bg@
        + ";color:"@
        + t.help_key_fg@
        + ";border:none;border-radius:"@
        + radius_inner
        + ";padding:8px 12px;cursor:pointer;font-weight:600\">Reload</button><button onclick=\"location='userscripts://open-dir'\" style=\"background:"@
        + t.help_card_bg@
        + ";color:"@
        + t.help_heading@
        + ";border:1px solid "@
        + t.help_card_border@
        + ";border-radius:"@
        + radius_inner
        + ";padding:8px 12px;cursor:pointer\">Scripts folder</button><button onclick=\"location='userscripts://open-styles-dir'\" style=\"background:"@
        + t.help_card_bg@
        + ";color:"@
        + t.help_heading@
        + ";border:1px solid "@
        + t.help_card_border@
        + ";border-radius:"@
        + radius_inner
        + ";padding:8px 12px;cursor:pointer\">Styles folder</button></div>"@
}

/// The page around its pieces.
pub open spec fn page_of(
    t: PageTheme,
    actions: Seq<char>,
    script_rows: Seq<char>,
    style_rows: Seq<char>,
) -> Seq<char> {
    "data:text/html;charset=utf-8,"@
        + body_open_html(t, ""@)
        + "<h1 style=\"margin:0 0 4px;color:"@
        + t.help_heading@
        + ";font-size:20px\">Scripts &amp; styles</h1><p style=\"margin:0 0 12px;opacity:0.7;font-size:13px\">Both honor <code>spatial-ui</code> for built-in pages · Scripts: <code>// @match</code> · Styles: <code>/* @match */</code></p>"@
        + actions
        + "<h2 style=\"margin:8px 0;font-size:13px;text-transform:uppercase;letter-spacing:0.05em;color:"@
        + t.help_heading@
        + ";opacity:0.8\">Userscripts</h2><div style=\"display:flex;flex-direction:column;gap:8px\">"@
        + script_rows
        + "</div><h2 style=\"margin:20px 0 8px;font-size:13px;text-transform:uppercase;letter-spacing:0.05em;color:"@
        + t.help_heading@
        + ";opacity:0.8\">Userstyles</h2><div style=\"display:flex;flex-direction:column;gap:8px\">"@
        + style_rows
        + "</div>"@
        + LIST_NAV_SCRIPT@
        + "</body>"@
}

fn assemble(t: &PageTheme, actions: &str, script_rows: &[char], style_rows: &[char]) -> (r: String)
    ensures
        r@ == page_of(*t, actions@, script_rows@, style_rows@),
{
    let mut out: Vec<char> = Vec::new();
    push_str(&mut out, "data:text/html;charset=utf-8,");
    push_str(&mut out, body_open(t, "").as_str());
    push_str(&mut out, "<h1 style=\"margin:0 0 4px;color:");
    push_str(&mut out, t.help_heading);
    push_str(&mut out, ";font-size:20px\">Scripts &amp; styles</h1><p style=\"margin:0 0 12px;opacity:0.7;font-size:13px\">Both honor <code>spatial-ui</code> for built-in pages · Scripts: <code>// @match</code> · Styles: <code>/* @match */</code></p>");
    push_str(&mut out, actions);
    push_str(&mut out, "<h2 style=\"margin:8px 0;font-size:13px;text-transform:uppercase;letter-spacing:0.05em;color:");
    push_str(&mut out, t.help_heading);
    push_str(&mut out, ";opacity:0.8\">Userscripts</h2><div style=\"display:flex;flex-direction:column;gap:8px\">");
    push_all(&mut out, script_rows);
    push_str(&mut out, "</div><h2 style=\"margin:20px 0 8px;font-size:13px;text-transform:uppercase;letter-spacing:0.05em;color:");
    push_str(&mut out, t.help_heading);
    push_str(&mut out, ";opacity:0.8\">Userstyles</h2><div style=\"display:flex;flex-direction:column;gap:8px\">");
    push_all(&mut out, style_rows);
    push_str(&mut out, "</div>");
    push_str(&mut out, LIST_NAV_SCRIPT);
    push_str(&mut out, "</body>");
    string_of(out.as_slice())
}

pub open spec fn script_views(v: Seq<UserScript>) -> Seq<ScriptView> {
    v.map_values(|s: UserScript| s@)
}

pub open spec fn style_views(v: Seq<UserStyle>) -> Seq<StyleView> {
    v.map_values(|s: UserStyle| s@)
}

/// The whole page as a `data:` URL; `radius` and `radius_inner` are the
/// CSS lengths that round the cards and the buttons.
pub open spec fn scripts_page(
    t: PageTheme,
    radius: Seq<char>,
    radius_inner: Seq<char>,
    scripts: Seq<ScriptView>,
    styles: Seq<StyleView>,
) -> Seq<char> {
    let script_rows = if scripts.len() == 0 {
        no_scripts_text()
    } else {
        script_rows_upto(scripts, radius, t, scripts.len())
    };
    let style_rows = if styles.len() == 0 {
        no_styles_text()
    } else {
        style_rows_upto(styles, radius, t, styles.len())
    };
    page_of(t, actions_html(radius_inner, t), script_rows, style_rows)
}

fn script_row(s: &UserScript, radius: &str, t: &PageTheme) -> (r: String)
    ensures
        r@ == script_row_html(s@, radius@, *t),
{
    let mut toggle: Vec<char> = Vec::new();
    push_str(&mut toggle, "userscripts://toggle/");
    push_str(&mut toggle, urlencoding_path(s.file_name.as_str()).as_str());
    let toggle = string_of(toggle.as_slice());
    let name = html_escape(s.name.as_str());
    let file = html_escape(s.file_name.as_str());
    let joined = join_strings(&s.matches, ", ");
    let matches = html_escape(joined.as_str());
    let mut out: Vec<char> = Vec::new();
    push_str(&mut out, "<div class=\"list-row\" data-open=\"");
    push_str(&mut out, toggle.as_str());
    push_str(&mut out, "\" onclick=\"location='");
    push_str(&mut out, toggle.as_str());
    push_str(&mut out, "'\" style=\"display:flex;flex-direction:column;gap:4px;padding:10px 14px;cursor:pointer;background:");
    push_str(&mut out, t.help_card_bg);
    push_str(&mut out, ";border-radius:");
    push_str(&mut out, radius);
    push_str(&mut out, ";border:1px solid ");
    push_str(&mut out, t.help_card_border);
    push_str(&mut out, ";opacity:");
    push_str(&mut out, if s.enabled { "1" } else { "0.55" });
    push_str(&mut out, "\"><div style=\"display:flex;align-items:center;gap:10px\"><span style=\"flex:1;font-weight:600;color:");
    push_str(&mut out, t.help_heading);
    push_str(&mut out, "\">");
    push_str(&mut out, name.as_str());
    push_str(&mut out, "</span><span style=\"flex-shrink:0;color:");
    push_str(&mut out, t.help_heading);
    push_str(&mut out, ";opacity:0.7\">");
    push_str(&mut out, if s.enabled { "On" } else { "Off" });
    push_str(&mut out, "</span></div><div style=\"font-size:12px;color:");
    push_str(&mut out, t.help_heading);
    push_str(&mut out, ";opacity:0.65\">");
    push_str(&mut out, file.as_str());
    push_str(&mut out, " · ");
    push_str(&mut out, run_at_name(s.run_at));
    push_str(&mut out, "</div><div style=\"font-size:12px;color:");
    push_str(&mut out, t.help_heading);
    push_str(&mut out, ";opacity:0.55;word-break:break-all\">");
    push_str(&mut out, matches.as_str());
    push_str(&mut out, "</div></div>");
    string_of(out.as_slice())
}

fn style_row(s: &UserStyle, radius: &str, t: &PageTheme) -> (r: String)
    ensures
        r@ == style_row_html(s@, radius@, *t),
{
    let mut toggle: Vec<char> = Vec::new();
    push_str(&mut toggle, "userscripts://toggle-style/");
    push_str(&mut toggle, urlencoding_path(s.file_name.as_str()).as_str());
    let toggle = string_of(toggle.as_slice());
    let name = html_escape(s.name.as_str());
    let file = html_escape(s.file_name.as_str());
    let joined = join_strings(&s.matches, ", ");
    let matches = html_escape(joined.as_str());
    let mut out: Vec<char> = Vec::new();
    push_str(&mut out, "<div class=\"list-row\" data-open=\"");
    push_str(&mut out, toggle.as_str());
    push_str(&mut out, "\" onclick=\"location='");
    push_str(&mut out, toggle.as_str());
    push_str(&mut out, "'\" style=\"display:flex;flex-direction:column;gap:4px;padding:10px 14px;cursor:pointer;background:");
    push_str(&mut out, t.help_card_bg);
    push_str(&mut out, ";border-radius:");
    push_str(&mut out, radius);
    push_str(&mut out, ";border:1px solid ");
    push_str(&mut out, t.help_card_border);
    push_str(&mut out, ";opacity:");
    push_str(&mut out, if s.enabled { "1" } else { "0.55" });
    push_str(&mut out, "\"><div style=\"display:flex;align-items:center;gap:10px\"><span style=\"flex:1;font-weight:600;color:");
    push_str(&mut out, t.help_heading);
    push_str(&mut out, "\">");
    push_str(&mut out, name.as_str());
    push_str(&mut out, "</span><span style=\"flex-shrink:0;color:");
    push_str(&mut out, t.help_heading);
    push_str(&mut out, ";opacity:0.7\">");
    push_str(&mut out, if s.enabled { "On" } else { "Off" });
    push_str(&mut out, "</span></div><div style=\"font-size:12px;color:");
    push_str(&mut out, t.help_heading);
    push_str(&mut out, ";opacity:0.65\">");
    push_str(&mut out, file.as_str());
    push_str(&mut out, "</div><div style=\"font-size:12px;color:");
    push_str(&mut out, t.help_heading);
    push_str(&mut out, ";opacity:0.55;word-break:break-all\">");
    push_str(&mut out, matches.as_str());
    push_str(&mut out, "</div></div>");
    string_of(out.as_slice())
}

fn actions(radius_inner: &str, t: &PageTheme) -> (r: String)
    ensures
        r@ == actions_html(radius_inner@, *t),
{
    let mut out: Vec<char> = Vec::new();
    push_str(&mut out, "<div style=\"display:flex;gap:8px;margin:0 0 12px;flex-wrap:wrap\"><button onclick=\"location='userscripts://reload'\" style=\"background:");
    push_str(&mut out, t.help_key_bg);
    push_str(&mut out, ";color:");
    push_str(&mut out, t.help_key_fg);
    push_str(&mut out, ";border:none;border-radius:");
    push_str(&mut out, radius_inner);
    push_str(&mut out, ";padding:8px 12px;cursor:pointer;font-weight:600\">Reload</button><button onclick=\"location='userscripts://open-dir'\" style=\"background:");
    push_str(&mut out, t.help_card_bg);
    push_str(&mut out, ";color:");
    push_str(&mut out, t.help_heading);
    push_str(&mut out, ";border:1px solid ");
    push_str(&mut out, t.help_card_border);
    push_str(&mut out, ";border-radius:");
    push_str(&mut out, radius_inner);
    push_str(&mut out, ";padding:8px 12px;cursor:pointer\">Scripts folder</button><button onclick=\"location='userscripts://open-styles-dir'\" style=\"background:");
    push_str(&mut out, t.help_card_bg);
    push_str(&mut out, ";color:");
    push_str(&mut out, t.help_heading);
    push_str(&mut out, ";border:1px solid ");
    push_str(&mut out, t.help_card_border);
    push_str(&mut out, ";border-radius:");
    push_str(&mut out, radius_inner);
    push_str(&mut out, ";padding:8px 12px;cursor:pointer\">Styles folder</button></div>");
    string_of(out.as_slice())
}

/// Builds the scripts-and-styles page's `data:` URL.
pub fn page_url(
    theme: &PageTheme,
    radius: &str,
    radius_inner: &str,
    scripts: &[UserScript],
    styles: &[UserStyle],
) -> (r: String)
    ensures
        r@ == scripts_page(*theme, radius@, radius_inner@, script_views(scripts@), style_views(styles@)),
{
    let t = theme;
    let ghost sv = script_views(scripts@);
    let ghost yv = style_views(styles@);
    let mut script_rows: Vec<char> = Vec::new();
    if scripts.len() == 0 {
        push_str(&mut script_rows, "<p style=\"opacity:0.7;margin:8px 0\">No scripts yet. Drop a <code>.js</code> with <code>// @match</code> (use <code>spatial-ui</code> for built-in lists) into the userscripts folder, then Reload.</p>");
    }
    let mut i: usize = 0;
    while i < scripts.len()
        invariant
            i <= scripts.len(),
            sv == script_views(scripts@),
            scripts.len() > 0 ==> script_rows@ == script_rows_upto(sv, radius@, *t, i as nat),
            scripts.len() == 0 ==> script_rows@ == no_scripts_text(),
        decreases scripts.len() - i,
    {
        let row = script_row(&scripts[i], radius, t);
        push_str(&mut script_rows, row.as_str());
        i = i + 1;
    }
    let mut style_rows: Vec<char> = Vec::new();
    if styles.len() == 0 {
        push_str(&mut style_rows, "<p style=\"opacity:0.7;margin:8px 0\">No styles yet. Drop a <code>.css</code> with <code>/* @match */</code> (use <code>spatial-ui</code> for built-in lists) into the userstyles folder, then Reload.</p>");
    }
    let mut i: usize = 0;
    while i < styles.len()
        invariant
            i <= styles.len(),
            yv == style_views(styles@),
            styles.len() > 0 ==> style_rows@ == style_rows_upto(yv, radius@, *t, i as nat),
            styles.len() == 0 ==> style_rows@ == no_styles_text(),
        decreases styles.len() - i,
    {
        let row = style_row(&styles[i], radius, t);
        push_str(&mut style_rows, row.as_str());
        i = i + 1;
    }
    let actions = actions(radius_inner, t);
    assemble(t, actions.as_str(), script_rows.as_slice(), style_rows.as_slice())
}

} // verus!
