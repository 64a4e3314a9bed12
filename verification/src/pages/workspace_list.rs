//! The workspaces list: one row per workspace slot with its page count,
//! a badge on the active one, a button to switch to it and, while more
//! than one is left, one to delete it.

use vstd::prelude::*;
use crate::pages::{
    body_open, body_open_html, icon_button_hover_css, icon_hover_css, icon_link_button,
    icon_link_html, PageTheme, LIST_NAV_SCRIPT, TRASH_SVG_PATH,
};
use crate::text::{decimal, push_all, push_decimal, push_str, string_of};

verus! {

/// Play icon (Material "play_arrow").
pub const LOAD_SVG_PATH: &'static str = "M8 5v14l11-7z";

/// The badge on the active workspace's row.
pub open spec fn active_badge_html(t: PageTheme) -> Seq<char> {
    "<span style=\"flex-shrink:0;font-size:11px;padding:2px 6px;border-radius:4px;background:"@
        + t.help_key_bg@
        + ";color:"@
        + t.help_key_fg@
        + "\">active</span>"@
}

fn active_badge(t: &PageTheme) -> (r: String)
    ensures
        r@ == active_badge_html(*t),
{
    let mut out: Vec<char> = Vec::new();
    push_str(&mut out, "<span style=\"flex-shrink:0;font-size:11px;padding:2px 6px;border-radius:4px;background:");
    push_str(&mut out, t.help_key_bg);
    push_str(&mut out, ";color:");
    push_str(&mut out, t.help_key_fg);
    push_str(&mut out, "\">active</span>");
    string_of(out.as_slice())
}

/// What a row says of a slot (id, visited, page count): `empty` for a slot
/// never visited, else its number of pages.
pub open spec fn slot_status(s: (u32, bool, usize)) -> Seq<char> {
    if !s.1 {
        "empty"@
    } else if s.2 == 1 {
        "1 page"@
    } else {
        decimal(s.2 as nat) + " pages"@
    }
}

fn status_text(s: (u32, bool, usize)) -> (r: String)
    ensures
        r@ == slot_status(s),
{
    let mut out: Vec<char> = Vec::new();
    if !s.1 {
        push_str(&mut out, "empty");
    } else if s.2 == 1 {
        push_str(&mut out, "1 page");
    } else {
        push_decimal(&mut out, s.2);
        push_str(&mut out, " pages");
    }
    string_of(out.as_slice())
}

/// The row of slot `s` at `index`, among `count` slots, `active` being the
/// active slot's id.
pub open spec fn workspace_row_html(
    index: nat,
    s: (u32, bool, usize),
    active: u32,
    count: nat,
    t: PageTheme,
) -> Seq<char> {
    "<div class=\"list-row\" data-open=\"workspace://load/"@
        + decimal(index as nat)
        + "\" style=\"display:flex;align-items:center;gap:10px;padding:10px 14px;background:"@
        + t.help_card_bg@
        + ";border-radius:8px;border:1px solid "@
        + t.help_card_border@
        + "\">"@
        + icon_link_html("workspace://load/"@ + decimal(index as nat), "Switch"@, LOAD_SVG_PATH@, ""@, t)
        + "<span style=\"flex:1;color:"@
        + t.help_fg@
        + ";font-weight:600\">Workspace "@
        + decimal(s.0 as nat)
        + "</span><span style=\"flex-shrink:0;color:"@
        + t.help_fg@
        + ";opacity:0.6;font-size:12px\">"@
        + slot_status(s)
        + "</span>"@
        + (if s.0 == active { active_badge_html(t) } else { Seq::empty() })
        + (if count > 1 { icon_link_html("workspace://delete/"@ + decimal(index as nat), "Delete"@, TRASH_SVG_PATH@, ""@, t) } else { Seq::empty() })
        + "</div>"@
}

/// The rows for the first `n` slots.
pub open spec fn rows_upto(
    slots: Seq<(u32, bool, usize)>,
    active: u32,
    t: PageTheme,
    n: nat,
) -> Seq<char>
    decreases n,
{
    if n == 0 {
        Seq::empty()
    } else {
        rows_upto(slots, active, t, (n - 1) as nat) + workspace_row_html(
            (n - 1) as nat,
            slots[n - 1],
            active,
            slots.len(),
            t,
        )
    }
}

/// The whole page as a `data:` URL.
pub open spec fn workspaces_page(t: PageTheme, active: u32, slots: Seq<(u32, bool, usize)>) -> Seq<char> {
    let rows = rows_upto(slots, active, t, slots.len());
    "data:text/html;charset=utf-8,"@
        + LIST_NAV_SCRIPT@
        + "<style>"@
        + icon_hover_css(t)
        + ".list-row:hover,.list-row.list-active{background:"@
        + t.help_key_bg@
        + "!important}.list-row:hover span,.list-row.list-active span{color:"@
        + t.help_key_fg@
        + "!important}</style>"@
        + body_open_html(t, ""@)
        + "<div style=\"display:flex;align-items:baseline;justify-content:space-between;margin:0 0 20px\"><h1 style=\"margin:0;color:"@
        + t.help_heading@
        + ";font-size:20px\">Workspaces</h1><a href=\"workspace://save\" style=\"color:"@
        + t.help_fg@
        + ";opacity:0.8;font-size:13px\">+ New workspace</a></div><p style=\"margin:0 0 12px;color:"@
        + t.help_fg@
        + ";opacity:0.7;font-size:13px\">Hover the top edge for chips · Ctrl+1–9 switch · Ctrl+N new</p><div style=\"display:flex;flex-direction:column;gap:8px\">"@
        + rows
        + "</div></body>"@
}

fn workspace_row(index: usize, s: (u32, bool, usize), active: u32, count: usize, t: &PageTheme) -> (r: String)
    ensures
        r@ == workspace_row_html(index as nat, s, active, count as nat, *t),
{
    let mut href: Vec<char> = Vec::new();
    push_str(&mut href, "workspace://load/");
    push_decimal(&mut href, index);
    let href = string_of(href.as_slice());
    let load = icon_link_button(href.as_str(), "Switch", LOAD_SVG_PATH, "", t);
    let status = status_text(s);
    let badge = if s.0 == active {
        active_badge(t)
    } else {
        String::new()
    };
    let delete = if count > 1 {
        let mut href: Vec<char> = Vec::new();
        push_str(&mut href, "workspace://delete/");
        push_decimal(&mut href, index);
        let href = string_of(href.as_slice());
        icon_link_button(href.as_str(), "Delete", TRASH_SVG_PATH, "", t)
    } else {
        String::new()
    };
    let mut out: Vec<char> = Vec::new();
    push_str(&mut out, "<div class=\"list-row\" data-open=\"workspace://load/");
    push_decimal(&mut out, index);
    push_str(&mut out, "\" style=\"display:flex;align-items:center;gap:10px;padding:10px 14px;background:");
    push_str(&mut out, t.help_card_bg);
    push_str(&mut out, ";border-radius:8px;border:1px solid ");
    push_str(&mut out, t.help_card_border);
    push_str(&mut out, "\">");
    push_str(&mut out, load.as_str());
    push_str(&mut out, "<span style=\"flex:1;color:");
    push_str(&mut out, t.help_fg);
    push_str(&mut out, ";font-weight:600\">Workspace ");
    push_decimal(&mut out, s.0 as usize);
    push_str(&mut out, "</span><span style=\"flex-shrink:0;color:");
    push_str(&mut out, t.help_fg);
    push_str(&mut out, ";opacity:0.6;font-size:12px\">");
    push_str(&mut out, status.as_str());
    push_str(&mut out, "</span>");
    push_str(&mut out, badge.as_str());
    push_str(&mut out, delete.as_str());
    push_str(&mut out, "</div>");
    string_of(out.as_slice())
}

/// Builds the workspaces page's `data:` URL from each slot's (id, whether
/// it was visited, number of pages) and the active slot's id.
pub fn page_url(theme: &PageTheme, active: u32, slots: &[(u32, bool, usize)]) -> (r: String)
    ensures
        r@ == workspaces_page(*theme, active, slots@),
{
    let t = theme;
    let mut rows: Vec<char> = Vec::new();
    let mut i: usize = 0;
    while i < slots.len()
        invariant
            i <= slots.len(),
            rows@ == rows_upto(slots@, active, *t, i as nat),
        decreases slots.len() - i,
    {
        let row = workspace_row(i, slots[i], active, slots.len(), t);
        push_str(&mut rows, row.as_str());
        i = i + 1;
    }
    let mut out: Vec<char> = Vec::new();
    push_str(&mut out, "data:text/html;charset=utf-8,");
    push_str(&mut out, LIST_NAV_SCRIPT);
    push_str(&mut out, "<style>");
    push_str(&mut out, icon_button_hover_css(t).as_str());
    push_str(&mut out, ".list-row:hover,.list-row.list-active{background:");
    push_str(&mut out, t.help_key_bg);
    push_str(&mut out, "!important}.list-row:hover span,.list-row.list-active span{color:");
    push_str(&mut out, t.help_key_fg);
    push_str(&mut out, "!important}</style>");
    push_str(&mut out, body_open(t, "").as_str());
    push_str(&mut out, "<div style=\"display:flex;align-items:baseline;justify-content:space-between;margin:0 0 20px\"><h1 style=\"margin:0;color:");
    push_str(&mut out, t.help_heading);
    push_str(&mut out, ";font-size:20px\">Workspaces</h1><a href=\"workspace://save\" style=\"color:");
    push_str(&mut out, t.help_fg);
    push_str(&mut out, ";opacity:0.8;font-size:13px\">+ New workspace</a></div><p style=\"margin:0 0 12px;color:");
    push_str(&mut out, t.help_fg);
    push_str(&mut out, ";opacity:0.7;font-size:13px\">Hover the top edge for chips · Ctrl+1–9 switch · Ctrl+N new</p><div style=\"display:flex;flex-direction:column;gap:8px\">");
    push_all(&mut out, rows.as_slice());
    push_str(&mut out, "</div></body>");
    string_of(out.as_slice())
}

} // verus!
