//! The settings page: a General, a Blocking and an Appearance tab, each a
//! list of toggles and choices whose clicks come back as `settings://`
//! actions; the active tab is remembered so it survives a refresh.

use vstd::prelude::*;
use crate::pages::{
    body_open, body_open_html, empty_state, empty_state_html, html_escape, html_escaped,
    icon_button_hover_css, icon_hover_css, icon_link_button, icon_link_html, on_off,
    page_theme, page_theme_spec, url_encoded_lite, urlencoding_lite, PageTheme,
    CHECKMARK_SVG_PATH, LIST_NAV_SCRIPT, PAGE_THEME_COUNT, TRASH_SVG_PATH,
};
use crate::reader_mode::{reader_theme, reader_theme_spec, READER_THEME_COUNT};
use crate::settings::{tab_of, AppSettings, SettingsView};
use crate::text::{chars_eq, chars_eq_str, chars_of, decimal, push_decimal, push_str, string_of};

verus! {

/// `On` or `Off`.
pub open spec fn on_off_text(v: bool) -> Seq<char> {
    if v {
        "On"@
    } else {
        "Off"@
    }
}

/// The checkmark beside the chosen option.
pub open spec fn checkmark_html(t: PageTheme, current: bool) -> Seq<char> {
    if current {
        "<svg width=\"16\" height=\"16\" viewBox=\"0 0 24 24\" fill=\""@
        + t.help_key_bg@
        + "\"><path d=\""@
        + CHECKMARK_SVG_PATH@
        + "\"/></svg>"@
    } else {
        Seq::empty()
    }
}

fn checkmark(t: &PageTheme, current: bool) -> (r: String)
    ensures
        r@ == checkmark_html(*t, current),
{
    if !current {
        return String::new();
    }
    let mut out: Vec<char> = Vec::new();
    push_str(&mut out, "<svg width=\"16\" height=\"16\" viewBox=\"0 0 24 24\" fill=\"");
    push_str(&mut out, t.help_key_bg);
    push_str(&mut out, "\"><path d=\"");
    push_str(&mut out, CHECKMARK_SVG_PATH);
    push_str(&mut out, "\"/></svg>");
    string_of(out.as_slice())
}

/// A section heading.
pub open spec fn section_html(t: PageTheme, title: Seq<char>) -> Seq<char> {
    "<h2 style=\"margin:16px 0 8px;font-size:13px;text-transform:uppercase;letter-spacing:0.05em;color:"@
        + t.help_heading@
        + ";opacity:0.8\">"@
        + title
        + "</h2>"@
}

fn section_h2(t: &PageTheme, title: &str) -> (r: String)
    ensures
        r@ == section_html(*t, title@),
{
    let mut out: Vec<char> = Vec::new();
    push_str(&mut out, "<h2 style=\"margin:16px 0 8px;font-size:13px;text-transform:uppercase;letter-spacing:0.05em;color:");
    push_str(&mut out, t.help_heading);
    push_str(&mut out, ";opacity:0.8\">");
    push_str(&mut out, title);
    push_str(&mut out, "</h2>");
    string_of(out.as_slice())
}

/// A row that turns a setting on or off.
pub open spec fn toggle_row_html(t: PageTheme, href: Seq<char>, label: Seq<char>, state: bool) -> Seq<char> {
    "<div class=\"list-row\" data-open=\""@
        + href
        + "\" onclick=\"location='"@
        + href
        + "'\" style=\"display:flex;align-items:center;gap:10px;padding:10px 14px;cursor:pointer;background:"@
        + t.help_card_bg@
        + ";border-radius:8px;border:1px solid "@
        + t.help_card_border@
        + "\"><span style=\"flex:1;color:"@
        + t.help_fg@
        + "\">"@
        + label
        + "</span><span style=\"flex-shrink:0;color:"@
        + t.help_fg@
        + ";opacity:0.7\">"@
        + on_off_text(state)
        + "</span></div>"@
}

fn toggle_row(t: &PageTheme, href: &str, label: &str, state: bool) -> (r: String)
    ensures
        r@ == toggle_row_html(*t, href@, label@, state),
{
    let mut out: Vec<char> = Vec::new();
    push_str(&mut out, "<div class=\"list-row\" data-open=\"");
    push_str(&mut out, href);
    push_str(&mut out, "\" onclick=\"location='");
    push_str(&mut out, href);
    push_str(&mut out, "'\" style=\"display:flex;align-items:center;gap:10px;padding:10px 14px;cursor:pointer;background:");
    push_str(&mut out, t.help_card_bg);
    push_str(&mut out, ";border-radius:8px;border:1px solid ");
    push_str(&mut out, t.help_card_border);
    push_str(&mut out, "\"><span style=\"flex:1;color:");
    push_str(&mut out, t.help_fg);
    push_str(&mut out, "\">");
    push_str(&mut out, label);
    push_str(&mut out, "</span><span style=\"flex-shrink:0;color:");
    push_str(&mut out, t.help_fg);
    push_str(&mut out, ";opacity:0.7\">");
    push_str(&mut out, on_off(state));
    push_str(&mut out, "</span></div>");
    string_of(out.as_slice())
}

/// A filter-list row: title, subtitle and its state, or `Soon` for a
/// list that cannot be turned on yet.
pub open spec fn list_row_html(t: PageTheme, href: Seq<char>, title: Seq<char>, subtitle: Seq<char>, enabled: bool, available: bool) -> Seq<char> {
    "<div class=\"list-row\" data-open=\""@
        + href
        + "\" "@
        + (if available { "onclick=\"location='"@
        + href
        + "'\""@ } else { Seq::empty() })
        + " style=\"display:flex;align-items:center;gap:10px;padding:10px 14px;cursor:"@
        + (if available { "pointer"@ } else { "default"@ })
        + ";background:"@
        + t.help_card_bg@
        + ";border-radius:8px;border:1px solid "@
        + t.help_card_border@
        + ";opacity:"@
        + (if available { "1"@ } else { "0.55"@ })
        + "\"><div style=\"flex:1;min-width:0\"><div style=\"color:"@
        + t.help_fg@
        + ";font-weight:600\">"@
        + title
        + "</div><div style=\"color:"@
        + t.help_fg@
        + ";opacity:0.6;font-size:12px;margin-top:2px\">"@
        + subtitle
        + "</div></div><span style=\"flex-shrink:0;color:"@
        + t.help_fg@
        + ";opacity:0.7\">"@
        + (if !available { "Soon"@ } else { on_off_text(enabled) })
        + "</span></div>"@
}

fn list_row(t: &PageTheme, href: &str, title: &str, subtitle: &str, enabled: bool, available: bool) -> (r: String)
    ensures
        r@ == list_row_html(*t, href@, title@, subtitle@, enabled, available),
{
    let onclick = if available {
        let mut o: Vec<char> = Vec::new();
        push_str(&mut o, "onclick=\"location='");
        push_str(&mut o, href);
        push_str(&mut o, "'\"");
        string_of(o.as_slice())
    } else {
        String::new()
    };
    let mut out: Vec<char> = Vec::new();
    push_str(&mut out, "<div class=\"list-row\" data-open=\"");
    push_str(&mut out, href);
    push_str(&mut out, "\" ");
    push_str(&mut out, onclick.as_str());
    push_str(&mut out, " style=\"display:flex;align-items:center;gap:10px;padding:10px 14px;cursor:");
    push_str(&mut out, if available { "pointer" } else { "default" });
    push_str(&mut out, ";background:");
    push_str(&mut out, t.help_card_bg);
    push_str(&mut out, ";border-radius:8px;border:1px solid ");
    push_str(&mut out, t.help_card_border);
    push_str(&mut out, ";opacity:");
    push_str(&mut out, if available { "1" } else { "0.55" });
    push_str(&mut out, "\"><div style=\"flex:1;min-width:0\"><div style=\"color:");
    push_str(&mut out, t.help_fg);
    push_str(&mut out, ";font-weight:600\">");
    push_str(&mut out, title);
    push_str(&mut out, "</div><div style=\"color:");
    push_str(&mut out, t.help_fg);
    push_str(&mut out, ";opacity:0.6;font-size:12px;margin-top:2px\">");
    push_str(&mut out, subtitle);
    push_str(&mut out, "</div></div><span style=\"flex-shrink:0;color:");
    push_str(&mut out, t.help_fg);
    push_str(&mut out, ";opacity:0.7\">");
    push_str(&mut out, if !available { "Soon" } else { on_off(enabled) });
    push_str(&mut out, "</span></div>");
    string_of(out.as_slice())
}

/// One option of a choice, checked when it is the current one.
pub open spec fn choice_row_html(t: PageTheme, href: Seq<char>, label: Seq<char>, current: bool) -> Seq<char> {
    "<div class=\"list-row\" data-open=\""@
        + href
        + "\" onclick=\"location='"@
        + href
        + "'\" style=\"display:flex;align-items:center;gap:10px;padding:10px 14px;cursor:pointer;background:"@
        + t.help_card_bg@
        + ";border-radius:8px;border:1px solid "@
        + t.help_card_border@
        + "\"><span style=\"flex:1;color:"@
        + t.help_fg@
        + "\">"@
        + label
        + "</span>"@
        + checkmark_html(t, current)
        + "</div>"@
}

fn choice_row(t: &PageTheme, href: &str, label: &str, current: bool) -> (r: String)
    ensures
        r@ == choice_row_html(*t, href@, label@, current),
{
    let mut out: Vec<char> = Vec::new();
    push_str(&mut out, "<div class=\"list-row\" data-open=\"");
    push_str(&mut out, href);
    push_str(&mut out, "\" onclick=\"location='");
    push_str(&mut out, href);
    push_str(&mut out, "'\" style=\"display:flex;align-items:center;gap:10px;padding:10px 14px;cursor:pointer;background:");
    push_str(&mut out, t.help_card_bg);
    push_str(&mut out, ";border-radius:8px;border:1px solid ");
    push_str(&mut out, t.help_card_border);
    push_str(&mut out, "\"><span style=\"flex:1;color:");
    push_str(&mut out, t.help_fg);
    push_str(&mut out, "\">");
    push_str(&mut out, label);
    push_str(&mut out, "</span>");
    push_str(&mut out, checkmark(t, current).as_str());
    push_str(&mut out, "</div>");
    string_of(out.as_slice())
}

/// A tab link, highlighted when `on`.
pub open spec fn tab_link_html(t: PageTheme, id: Seq<char>, label: Seq<char>, on: bool) -> Seq<char> {
    "<a href=\"settings://tab/"@
        + id
        + "\" style=\"text-decoration:none;padding:8px 14px;border-radius:8px;border:1px solid "@
        + (if on { t.help_key_bg@ } else { t.help_card_border@ })
        + ";background:"@
        + (if on { t.help_key_bg@ } else { t.help_card_bg@ })
        + ";color:"@
        + (if on { t.help_key_fg@ } else { t.help_fg@ })
        + ";font-size:13px;font-weight:600\">"@
        + label
        + "</a>"@
}

fn tab_link(t: &PageTheme, id: &str, label: &str, on: bool) -> (r: String)
    ensures
        r@ == tab_link_html(*t, id@, label@, on),
{
    let mut out: Vec<char> = Vec::new();
    push_str(&mut out, "<a href=\"settings://tab/");
    push_str(&mut out, id);
    push_str(&mut out, "\" style=\"text-decoration:none;padding:8px 14px;border-radius:8px;border:1px solid ");
    push_str(&mut out, if on { t.help_key_bg } else { t.help_card_border });
    push_str(&mut out, ";background:");
    push_str(&mut out, if on { t.help_key_bg } else { t.help_card_bg });
    push_str(&mut out, ";color:");
    push_str(&mut out, if on { t.help_key_fg } else { t.help_fg });
    push_str(&mut out, ";font-size:13px;font-weight:600\">");
    push_str(&mut out, label);
    push_str(&mut out, "</a>");
    string_of(out.as_slice())
}

/// The tab bar with `active` highlighted.
pub open spec fn tab_bar_html(t: PageTheme, active: Seq<char>) -> Seq<char> {
    "<div style=\"display:flex;gap:6px;margin:0 0 20px;flex-wrap:wrap\">"@ + tab_link_html(
        t,
        "general"@,
        "General"@,
        active == "general"@,
    ) + tab_link_html(t, "blocking"@, "Blocking"@, active == "blocking"@) + tab_link_html(
        t,
        "appearance"@,
        "Appearance"@,
        active == "appearance"@,
    ) + "</div>"@
}

fn tab_bar(t: &PageTheme, active: &str) -> (r: String)
    ensures
        r@ == tab_bar_html(*t, active@),
{
    let a = chars_of(active);
    let mut out: Vec<char> = Vec::new();
    push_str(&mut out, "<div style=\"display:flex;gap:6px;margin:0 0 20px;flex-wrap:wrap\">");
    push_str(&mut out, tab_link(t, "general", "General", chars_eq_str(a.as_slice(), "general")).as_str());
    push_str(&mut out, tab_link(t, "blocking", "Blocking", chars_eq_str(a.as_slice(), "blocking")).as_str());
    push_str(&mut out, tab_link(t, "appearance", "Appearance", chars_eq_str(a.as_slice(), "appearance")).as_str());
    push_str(&mut out, "</div>");
    string_of(out.as_slice())
}

/// A search engine's option.
pub open spec fn engine_row_html(t: PageTheme, name: Seq<char>, url: Seq<char>, s: SettingsView) -> Seq<char> {
    choice_row_html(t, "settings://search-engine?engine="@ + url_encoded_lite(url), name, s.default_search_engine == url)
}

fn engine_row(t: &PageTheme, name: &str, url: &str, s: &AppSettings) -> (r: String)
    ensures
        r@ == engine_row_html(*t, name@, url@, s@),
{
    let mut href: Vec<char> = Vec::new();
    push_str(&mut href, "settings://search-engine?engine=");
    push_str(&mut href, urlencoding_lite(url).as_str());
    let href = string_of(href.as_slice());
    let current = chars_eq_str(chars_of(s.default_search_engine.as_str()).as_slice(), url);
    choice_row(t, href.as_str(), name, current)
}

/// A frame rate's option.
pub open spec fn fps_row_html(t: PageTheme, fps: u32, s: SettingsView) -> Seq<char> {
    choice_row_html(t, "settings://frame-rate/"@ + decimal(fps as nat), decimal(fps as nat) + " fps"@, s.target_fps == fps)
}

fn fps_row(t: &PageTheme, fps: u32, s: &AppSettings) -> (r: String)
    ensures
        r@ == fps_row_html(*t, fps, s@),
{
    let mut href: Vec<char> = Vec::new();
    push_str(&mut href, "settings://frame-rate/");
    push_decimal(&mut href, fps as usize);
    let href = string_of(href.as_slice());
    let mut label: Vec<char> = Vec::new();
    push_decimal(&mut label, fps as usize);
    push_str(&mut label, " fps");
    let label = string_of(label.as_slice());
    choice_row(t, href.as_str(), label.as_str(), s.target_fps == fps)
}

/// The General tab: URL cleaning, the default search engine and the
/// frame rate.
pub open spec fn general_panel_html(t: PageTheme, s: SettingsView) -> Seq<char> {
    section_html(t, "Privacy"@)
        + toggle_row_html(t, "settings://toggle-clean-urls"@, "Strip tracking parameters from links"@, s.clean_urls_enabled)
        + section_html(t, "Default search engine"@)
        + engine_row_html(t, "Google"@, "https://www.google.com/search?q="@, s)
        + engine_row_html(t, "DuckDuckGo"@, "https://duckduckgo.com/?q="@, s)
        + engine_row_html(t, "Bing"@, "https://www.bing.com/search?q="@, s)
        + section_html(t, "Performance"@)
        + fps_row_html(t, 60, s)
        + fps_row_html(t, 90, s)
        + fps_row_html(t, 120, s)
}

fn general_panel(t: &PageTheme, s: &AppSettings) -> (r: String)
    ensures
        r@ == general_panel_html(*t, s@),
{
    let mut out: Vec<char> = Vec::new();
    push_str(&mut out, section_h2(t, "Privacy").as_str());
    push_str(&mut out, toggle_row(t, "settings://toggle-clean-urls", "Strip tracking parameters from links", s.clean_urls_enabled).as_str());
    push_str(&mut out, section_h2(t, "Default search engine").as_str());
    push_str(&mut out, engine_row(t, "Google", "https://www.google.com/search?q=", s).as_str());
    push_str(&mut out, engine_row(t, "DuckDuckGo", "https://duckduckgo.com/?q=", s).as_str());
    push_str(&mut out, engine_row(t, "Bing", "https://www.bing.com/search?q=", s).as_str());
    push_str(&mut out, section_h2(t, "Performance").as_str());
    push_str(&mut out, fps_row(t, 60, s).as_str());
    push_str(&mut out, fps_row(t, 90, s).as_str());
    push_str(&mut out, fps_row(t, 120, s).as_str());
    string_of(out.as_slice())
}

/// The note under the master switch.
pub open spec fn master_note_html(t: PageTheme) -> Seq<char> {
    "<p style=\"margin:8px 0 0;color:"@
        + t.help_fg@
        + ";opacity:0.65;font-size:12px\">Master switch. When off, no filter list or layer runs.</p>"@
}

/// The form that adds a custom host.
pub open spec fn add_host_html(t: PageTheme) -> Seq<char> {
    "<form method=\"get\" action=\"settings://add-host\" style=\"display:flex;gap:8px;margin-bottom:8px\"><input name=\"host\" placeholder=\"example.com\" style=\"flex:1;min-width:0;background:"@
        + t.help_card_bg@
        + ";color:"@
        + t.help_fg@
        + ";border:1px solid "@
        + t.help_card_border@
        + ";border-radius:6px;padding:8px 10px;font:inherit;font-size:14px\"><button type=\"submit\" style=\"background:"@
        + t.help_key_bg@
        + ";color:"@
        + t.help_key_fg@
        + ";border:none;border-radius:6px;padding:8px 16px;font:inherit;font-size:14px;cursor:pointer\">Add</button></form>"@
}

/// The note under the cosmetic toggle.
pub open spec fn cosmetic_note_html(t: PageTheme) -> Seq<char> {
    "<p style=\"margin:4px 0 0;color:"@
        + t.help_fg@
        + ";opacity:0.55;font-size:12px\">Cosmetic inject arrives with the filter engine.</p>"@
}

/// The note under the scriptlets toggle.
pub open spec fn scriptlets_note_html(t: PageTheme) -> Seq<char> {
    "<p style=\"margin:4px 0 0;color:"@
        + t.help_fg@
        + ";opacity:0.55;font-size:12px\">Off by default when scriptlets ship — can break sites.</p>"@
}

/// What the Custom hosts section says when there is none.
pub open spec fn no_hosts_text() -> Seq<char> {
    "No custom hosts yet — add domains the built-in list misses."@
}

fn fixed_piece(t: &PageTheme, which: u8) -> (r: String)
    requires
        which < 4,
    ensures
        which == 0 ==> r@ == master_note_html(*t),
        which == 1 ==> r@ == add_host_html(*t),
        which == 2 ==> r@ == cosmetic_note_html(*t),
        which == 3 ==> r@ == scriptlets_note_html(*t),
{
    let mut out: Vec<char> = Vec::new();
    if which == 0 {
        push_str(&mut out, "<p style=\"margin:8px 0 0;color:");
        push_str(&mut out, t.help_fg);
        push_str(&mut out, ";opacity:0.65;font-size:12px\">Master switch. When off, no filter list or layer runs.</p>");
    } else if which == 1 {
        push_str(&mut out, "<form method=\"get\" action=\"settings://add-host\" style=\"display:flex;gap:8px;margin-bottom:8px\"><input name=\"host\" placeholder=\"example.com\" style=\"flex:1;min-width:0;background:");
        push_str(&mut out, t.help_card_bg);
        push_str(&mut out, ";color:");
        push_str(&mut out, t.help_fg);
        push_str(&mut out, ";border:1px solid ");
        push_str(&mut out, t.help_card_border);
        push_str(&mut out, ";border-radius:6px;padding:8px 10px;font:inherit;font-size:14px\"><button type=\"submit\" style=\"background:");
        push_str(&mut out, t.help_key_bg);
        push_str(&mut out, ";color:");
        push_str(&mut out, t.help_key_fg);
        push_str(&mut out, ";border:none;border-radius:6px;padding:8px 16px;font:inherit;font-size:14px;cursor:pointer\">Add</button></form>");
    } else if which == 2 {
        push_str(&mut out, "<p style=\"margin:4px 0 0;color:");
        push_str(&mut out, t.help_fg);
        push_str(&mut out, ";opacity:0.55;font-size:12px\">Cosmetic inject arrives with the filter engine.</p>");
    } else {
        push_str(&mut out, "<p style=\"margin:4px 0 0;color:");
        push_str(&mut out, t.help_fg);
        push_str(&mut out, ";opacity:0.55;font-size:12px\">Off by default when scriptlets ship — can break sites.</p>");
    }
    string_of(out.as_slice())
}

/// A custom host's row.
pub open spec fn host_row_html(index: nat, host: Seq<char>, t: PageTheme) -> Seq<char> {
    "<div class=\"list-row\" data-open=\"settings://remove-host/"@
        + decimal(index as nat)
        + "\" style=\"display:flex;align-items:center;gap:10px;padding:10px 14px;background:"@
        + t.help_card_bg@
        + ";border-radius:8px;border:1px solid "@
        + t.help_card_border@
        + "\"><span style=\"flex:1;overflow:hidden;text-overflow:ellipsis;white-space:nowrap;color:"@
        + t.help_fg@
        + "\">"@
        + html_escaped(host)
        + "</span>"@
        + icon_link_html("settings://remove-host/"@ + decimal(index as nat), "Remove"@, TRASH_SVG_PATH@, ""@, t)
        + "</div>"@
}

fn host_row(index: usize, host: &str, t: &PageTheme) -> (r: String)
    ensures
        r@ == host_row_html(index as nat, host@, *t),
{
    let host_html = html_escape(host);
    let mut href: Vec<char> = Vec::new();
    push_str(&mut href, "settings://remove-host/");
    push_decimal(&mut href, index);
    let href = string_of(href.as_slice());
    let delete = icon_link_button(href.as_str(), "Remove", TRASH_SVG_PATH, "", t);
    let mut out: Vec<char> = Vec::new();
    push_str(&mut out, "<div class=\"list-row\" data-open=\"settings://remove-host/");
    push_decimal(&mut out, index);
    push_str(&mut out, "\" style=\"display:flex;align-items:center;gap:10px;padding:10px 14px;background:");
    push_str(&mut out, t.help_card_bg);
    push_str(&mut out, ";border-radius:8px;border:1px solid ");
    push_str(&mut out, t.help_card_border);
    push_str(&mut out, "\"><span style=\"flex:1;overflow:hidden;text-overflow:ellipsis;white-space:nowrap;color:");
    push_str(&mut out, t.help_fg);
    push_str(&mut out, "\">");
    push_str(&mut out, host_html.as_str());
    push_str(&mut out, "</span>");
    push_str(&mut out, delete.as_str());
    push_str(&mut out, "</div>");
    string_of(out.as_slice())
}

/// The rows of the first `n` custom hosts.
pub open spec fn host_rows_upto(h: Seq<Seq<char>>, t: PageTheme, n: nat) -> Seq<char>
    decreases n,
{
    if n == 0 {
        Seq::empty()
    } else {
        host_rows_upto(h, t, (n - 1) as nat) + host_row_html((n - 1) as nat, h[n - 1], t)
    }
}

/// The custom hosts' rows, or the placeholder when there is none.
pub open spec fn host_rows(h: Seq<Seq<char>>, t: PageTheme) -> Seq<char> {
    if h.len() == 0 {
        empty_state_html(t, no_hosts_text())
    } else {
        host_rows_upto(h, t, h.len())
    }
}

fn host_rows_of(hosts: &Vec<String>, t: &PageTheme) -> (r: String)
    ensures
        r@ == host_rows(crate::url_match::string_seq_views(hosts@), *t),
{
    let ghost h = crate::url_match::string_seq_views(hosts@);
    let mut out: Vec<char> = Vec::new();
    if hosts.len() == 0 {
        push_str(&mut out, empty_state(t, "No custom hosts yet — add domains the built-in list misses.").as_str());
    }
    let mut i: usize = 0;
    while i < hosts.len()
        invariant
            i <= hosts.len(),
            h == crate::url_match::string_seq_views(hosts@),
            hosts.len() > 0 ==> out@ == host_rows_upto(h, *t, i as nat),
            hosts.len() == 0 ==> out@ == host_rows(h, *t),
        decreases hosts.len() - i,
    {
        let row = host_row(i, hosts[i].as_str(), t);
        push_str(&mut out, row.as_str());
        i = i + 1;
    }
    string_of(out.as_slice())
}

/// The Blocking tab: the master switch, the filter lists, the custom
/// hosts and the advanced switches.
pub open spec fn blocking_panel_html(t: PageTheme, s: SettingsView) -> Seq<char> {
    toggle_row_html(t, "settings://toggle-adblock"@, "Content filtering"@, s.ad_block_enabled)
        + master_note_html(t)
        + section_html(t, "Filter lists"@)
        + list_row_html(t, "settings://toggle-filter-list/peter_lowe"@, "Peter Lowe hosts"@, "Built-in ad/tracker domains (~3500) · request block"@, s.filter_lists.peter_lowe, true)
        + list_row_html(t, "settings://toggle-filter-list/easylist"@, "EasyList"@, "Ads · EasyList syntax · coming with filter engine"@, s.filter_lists.easylist, false)
        + list_row_html(t, "settings://toggle-filter-list/easyprivacy"@, "EasyPrivacy"@, "Trackers · EasyList syntax · coming with filter engine"@, s.filter_lists.easyprivacy, false)
        + section_html(t, "Custom hosts"@)
        + add_host_html(t)
        + host_rows(s.custom_blocked_hosts, t)
        + section_html(t, "Advanced"@)
        + toggle_row_html(t, "settings://toggle-filter-network"@, "Apply network rules (cancel requests)"@, s.filter_network_enabled)
        + toggle_row_html(t, "settings://toggle-filter-cosmetic"@, "Apply cosmetic hiding (CSS)"@, s.filter_cosmetic_enabled)
        + cosmetic_note_html(t)
        + toggle_row_html(t, "settings://toggle-filter-scriptlets"@, "Apply scriptlets (experimental)"@, s.filter_scriptlets_enabled)
        + scriptlets_note_html(t)
}

fn blocking_panel(t: &PageTheme, s: &AppSettings) -> (r: String)
    ensures
        r@ == blocking_panel_html(*t, s@),
{
    let mut out: Vec<char> = Vec::new();
    push_str(&mut out, toggle_row(t, "settings://toggle-adblock", "Content filtering", s.ad_block_enabled).as_str());
    push_str(&mut out, fixed_piece(t, 0).as_str());
    push_str(&mut out, section_h2(t, "Filter lists").as_str());
    push_str(&mut out, list_row(t, "settings://toggle-filter-list/peter_lowe", "Peter Lowe hosts", "Built-in ad/tracker domains (~3500) · request block", s.filter_lists.peter_lowe, true).as_str());
    push_str(&mut out, list_row(t, "settings://toggle-filter-list/easylist", "EasyList", "Ads · EasyList syntax · coming with filter engine", s.filter_lists.easylist, false).as_str());
    push_str(&mut out, list_row(t, "settings://toggle-filter-list/easyprivacy", "EasyPrivacy", "Trackers · EasyList syntax · coming with filter engine", s.filter_lists.easyprivacy, false).as_str());
    push_str(&mut out, section_h2(t, "Custom hosts").as_str());
    push_str(&mut out, fixed_piece(t, 1).as_str());
    push_str(&mut out, host_rows_of(&s.custom_blocked_hosts, t).as_str());
    push_str(&mut out, section_h2(t, "Advanced").as_str());
    push_str(&mut out, toggle_row(t, "settings://toggle-filter-network", "Apply network rules (cancel requests)", s.filter_network_enabled).as_str());
    push_str(&mut out, toggle_row(t, "settings://toggle-filter-cosmetic", "Apply cosmetic hiding (CSS)", s.filter_cosmetic_enabled).as_str());
    push_str(&mut out, fixed_piece(t, 2).as_str());
    push_str(&mut out, toggle_row(t, "settings://toggle-filter-scriptlets", "Apply scriptlets (experimental)", s.filter_scriptlets_enabled).as_str());
    push_str(&mut out, fixed_piece(t, 3).as_str());
    string_of(out.as_slice())
}

/// The options for the first `n` UI themes, the one named like `t`
/// checked.
pub open spec fn theme_rows_upto(t: PageTheme, n: nat) -> Seq<char>
    decreases n,
{
    if n == 0 {
        Seq::empty()
    } else {
        let i = (n - 1) as usize;
        theme_rows_upto(t, (n - 1) as nat) + choice_row_html(
            t,
            "settings://theme/"@ + decimal(i as nat),
            page_theme_spec(i).name@,
            page_theme_spec(i).name@ == t.name@,
        )
    }
}

/// The options for the first `n` reader themes.
pub open spec fn reader_rows_upto(t: PageTheme, s: SettingsView, n: nat) -> Seq<char>
    decreases n,
{
    if n == 0 {
        Seq::empty()
    } else {
        let i = (n - 1) as usize;
        reader_rows_upto(t, s, (n - 1) as nat) + choice_row_html(
            t,
            "settings://reader-theme/"@ + decimal(i as nat),
            reader_theme_spec(i).unwrap().name@,
            s.reader_theme == i,
        )
    }
}

/// The Appearance tab: the UI theme and the reading-mode theme.
pub open spec fn appearance_panel_html(t: PageTheme, s: SettingsView) -> Seq<char> {
    section_html(t, "UI theme"@) + theme_rows_upto(t, PAGE_THEME_COUNT as nat) + section_html(
        t,
        "Reading mode (Ctrl+Shift+R)"@,
    ) + reader_rows_upto(t, s, READER_THEME_COUNT as nat)
}

fn appearance_panel(t: &PageTheme, s: &AppSettings) -> (r: String)
    ensures
        r@ == appearance_panel_html(*t, s@),
{
    let mut out: Vec<char> = Vec::new();
    push_str(&mut out, section_h2(t, "UI theme").as_str());
    let ghost start = out@;
    let mut i: usize = 0;
    while i < PAGE_THEME_COUNT
        invariant
            i <= PAGE_THEME_COUNT,
            out@ == start + theme_rows_upto(*t, i as nat),
        decreases PAGE_THEME_COUNT - i,
    {
        let cand = page_theme(i);
        let mut href: Vec<char> = Vec::new();
        push_str(&mut href, "settings://theme/");
        push_decimal(&mut href, i);
        let href = string_of(href.as_slice());
        let current = chars_eq(chars_of(cand.name).as_slice(), chars_of(t.name).as_slice());
        push_str(&mut out, choice_row(t, href.as_str(), cand.name, current).as_str());
        i = i + 1;
    }
    push_str(&mut out, section_h2(t, "Reading mode (Ctrl+Shift+R)").as_str());
    let ghost start = out@;
    let mut i: usize = 0;
    while i < READER_THEME_COUNT
        invariant
            i <= READER_THEME_COUNT,
            out@ == start + reader_rows_upto(*t, s@, i as nat),
        decreases READER_THEME_COUNT - i,
    {
        let name = match reader_theme(i) {
            Some(r) => r.name,
            None => "",
        };
        let mut href: Vec<char> = Vec::new();
        push_str(&mut href, "settings://reader-theme/");
        push_decimal(&mut href, i);
        let href = string_of(href.as_slice());
        push_str(&mut out, choice_row(t, href.as_str(), name, s.reader_theme == i).as_str());
        i = i + 1;
    }
    string_of(out.as_slice())
}

/// The whole page as a `data:` URL, showing the remembered tab.
pub open spec fn settings_page(t: PageTheme, s: SettingsView) -> Seq<char> {
    let tab = tab_of(s.settings_tab);
    let panel = if tab == "blocking"@ {
        blocking_panel_html(t, s)
    } else if tab == "appearance"@ {
        appearance_panel_html(t, s)
    } else {
        general_panel_html(t, s)
    };
    page_of(t, tab, panel)
}

/// The page around its tab bar and panel.
pub open spec fn page_of(t: PageTheme, tab: Seq<char>, panel: Seq<char>) -> Seq<char> {
    "data:text/html;charset=utf-8,"@
        + LIST_NAV_SCRIPT@
        + "<style>"@
        + icon_hover_css(t)
        + ".list-row:hover,.list-row.list-active{background:"@
        + t.help_key_bg@
        + "!important}.list-row:hover span,.list-row.list-active span,.list-row:hover div,.list-row.list-active div{color:"@
        + t.help_key_fg@
        + "!important}</style>"@
        + body_open_html(t, ""@)
        + "<h1 style=\"margin:0 0 12px;color:"@
        + t.help_heading@
        + ";font-size:20px\">Settings</h1>"@
        + tab_bar_html(t, tab)
        + "<div style=\"display:flex;flex-direction:column;gap:8px\">"@
        + panel
        + "</div></body>"@
}

fn assemble(t: &PageTheme, tab: &str, panel: &str) -> (r: String)
    ensures
        r@ == page_of(*t, tab@, panel@),
{
    let mut out: Vec<char> = Vec::new();
    push_str(&mut out, "data:text/html;charset=utf-8,");
    push_str(&mut out, LIST_NAV_SCRIPT);
    push_str(&mut out, "<style>");
    push_str(&mut out, icon_button_hover_css(t).as_str());
    push_str(&mut out, ".list-row:hover,.list-row.list-active{background:");
    push_str(&mut out, t.help_key_bg);
    push_str(&mut out, "!important}.list-row:hover span,.list-row.list-active span,.list-row:hover div,.list-row.list-active div{color:");
    push_str(&mut out, t.help_key_fg);
    push_str(&mut out, "!important}</style>");
    push_str(&mut out, body_open(t, "").as_str());
    push_str(&mut out, "<h1 style=\"margin:0 0 12px;color:");
    push_str(&mut out, t.help_heading);
    push_str(&mut out, ";font-size:20px\">Settings</h1>");
    push_str(&mut out, tab_bar(t, tab).as_str());
    push_str(&mut out, "<div style=\"display:flex;flex-direction:column;gap:8px\">");
    push_str(&mut out, panel);
    push_str(&mut out, "</div></body>");
    string_of(out.as_slice())
}

/// Builds the settings page's `data:` URL for `settings`.
pub fn page_url(theme: &PageTheme, settings: &AppSettings) -> (r: String)
    ensures
        r@ == settings_page(*theme, settings@),
{
    let t = theme;
    let tab = AppSettings::normalize_tab(settings.settings_tab.as_str());
    let tv = chars_of(tab);
    let panel = if chars_eq_str(tv.as_slice(), "blocking") {
        blocking_panel(t, settings)
    } else if chars_eq_str(tv.as_slice(), "appearance") {
        appearance_panel(t, settings)
    } else {
        general_panel(t, settings)
    };
    assemble(t, tab, panel.as_str())
}

} // verus!
