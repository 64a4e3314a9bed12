//! The F1 help page: the canvas-level shortcuts, grouped by what they act
//! on, in the active theme's colors.

use vstd::prelude::*;
use crate::pages::{body_open, body_open_html, PageTheme};
use crate::text::{push_all, push_str, string_of};

verus! {

/// The shortcut groups: each a name and its (keys, what they do) pairs.
pub open spec fn help_table() -> Seq<(Seq<char>, Seq<(Seq<char>, Seq<char>)>)> {
    seq![
        ("Pages"@, seq![
            ("Ctrl+T"@, "New page (search or URL)"@),
            ("Ctrl+Shift+T"@, "Reopen closed page"@),
            ("Ctrl+W"@, "Close page"@),
            ("Ctrl+R"@, "Reload page"@),
            ("Ctrl+V"@, "Paste from clipboard"@),
            ("Ctrl+Shift+C"@, "Copy page URL"@),
            ("Ctrl+Shift+R"@, "Toggle reader mode"@),
            ("Alt+Left/Right"@, "Back / forward"@),
            ("Ctrl+= / Ctrl+-"@, "Zoom in / out"@),
            ("Ctrl+0"@, "Reset zoom"@),
        ]),
        ("Lists"@, seq![
            ("Ctrl+D"@, "Bookmark page"@),
            ("Ctrl+B"@, "Bookmarks list"@),
            ("Ctrl+J"@, "Downloads list"@),
            ("Ctrl+H"@, "History list"@),
            ("Ctrl+K"@, "Switch to an open page"@),
            ("Ctrl+Shift+W"@, "Workspace list"@),
            ("Ctrl+Shift+U"@, "Userscripts list"@),
            ("Ctrl+,"@, "Settings"@),
        ]),
        ("Canvas"@, seq![
            ("Ctrl+G"@, "Auto-layout pages into a grid"@),
            ("Ctrl+Tab"@, "Next page"@),
            ("Ctrl+Shift+Tab"@, "Previous page"@),
            ("Alt+Left-drag"@, "Move a page"@),
            ("Drag corner"@, "Resize a page"@),
            ("Ctrl+Space"@, "Zoom to canvas"@),
            ("Middle-drag"@, "Pan canvas"@),
            ("Shift+Left-drag"@, "Pan canvas (trackpad)"@),
            ("Ctrl+Scroll"@, "Zoom canvas"@),
            ("One-finger drag (empty)"@, "Pan canvas (touch)"@),
            ("Two-finger pinch/drag"@, "Zoom + pan canvas (touch)"@),
            ("Ctrl+Shift+0"@, "Reset canvas view"@),
        ]),
        ("Other"@, seq![
            ("Ctrl+Shift+Space"@, "Cycle UI theme"@),
            ("F1 / Ctrl+/"@, "This page"@),
        ]),
    ]
}

pub open spec fn entry_views(v: Seq<(&'static str, &'static str)>) -> Seq<(Seq<char>, Seq<char>)> {
    v.map_values(|e: (&'static str, &'static str)| (e.0@, e.1@))
}

pub open spec fn group_views(
    v: Seq<(&'static str, Vec<(&'static str, &'static str)>)>,
) -> Seq<(Seq<char>, Seq<(Seq<char>, Seq<char>)>)> {
    v.map_values(|g: (&'static str, Vec<(&'static str, &'static str)>)| (g.0@, entry_views(g.1@)))
}

/// The shortcut groups of the help page.
pub fn help_groups() -> (r: Vec<(&'static str, Vec<(&'static str, &'static str)>)>)
    ensures
        group_views(r@) == help_table(),
{
    let mut groups: Vec<(&'static str, Vec<(&'static str, &'static str)>)> = Vec::new();
    let mut e0: Vec<(&'static str, &'static str)> = Vec::new();
    e0.push(("Ctrl+T", "New page (search or URL)"));
    e0.push(("Ctrl+Shift+T", "Reopen closed page"));
    e0.push(("Ctrl+W", "Close page"));
    e0.push(("Ctrl+R", "Reload page"));
    e0.push(("Ctrl+V", "Paste from clipboard"));
    e0.push(("Ctrl+Shift+C", "Copy page URL"));
    e0.push(("Ctrl+Shift+R", "Toggle reader mode"));
    e0.push(("Alt+Left/Right", "Back / forward"));
    e0.push(("Ctrl+= / Ctrl+-", "Zoom in / out"));
    e0.push(("Ctrl+0", "Reset zoom"));
    assert(entry_views(e0@) =~= help_table()[0].1);
    groups.push(("Pages", e0));
    let mut e1: Vec<(&'static str, &'static str)> = Vec::new();
    e1.push(("Ctrl+D", "Bookmark page"));
    e1.push(("Ctrl+B", "Bookmarks list"));
    e1.push(("Ctrl+J", "Downloads list"));
    e1.push(("Ctrl+H", "History list"));
    e1.push(("Ctrl+K", "Switch to an open page"));
    e1.push(("Ctrl+Shift+W", "Workspace list"));
    e1.push(("Ctrl+Shift+U", "Userscripts list"));
    e1.push(("Ctrl+,", "Settings"));
    assert(entry_views(e1@) =~= help_table()[1].1);
    groups.push(("Lists", e1));
    let mut e2: Vec<(&'static str, &'static str)> = Vec::new();
    e2.push(("Ctrl+G", "Auto-layout pages into a grid"));
    e2.push(("Ctrl+Tab", "Next page"));
    e2.push(("Ctrl+Shift+Tab", "Previous page"));
    e2.push(("Alt+Left-drag", "Move a page"));
    e2.push(("Drag corner", "Resize a page"));
    e2.push(("Ctrl+Space", "Zoom to canvas"));
    e2.push(("Middle-drag", "Pan canvas"));
    e2.push(("Shift+Left-drag", "Pan canvas (trackpad)"));
    e2.push(("Ctrl+Scroll", "Zoom canvas"));
    e2.push(("One-finger drag (empty)", "Pan canvas (touch)"));
    e2.push(("Two-finger pinch/drag", "Zoom + pan canvas (touch)"));
    e2.push(("Ctrl+Shift+0", "Reset canvas view"));
    assert(entry_views(e2@) =~= help_table()[2].1);
    groups.push(("Canvas", e2));
    let mut e3: Vec<(&'static str, &'static str)> = Vec::new();
    e3.push(("Ctrl+Shift+Space", "Cycle UI theme"));
    e3.push(("F1 / Ctrl+/", "This page"));
    assert(entry_views(e3@) =~= help_table()[3].1);
    groups.push(("Other", e3));
    assert(group_views(groups@) =~= help_table());
    groups
}

/// A group's heading.
pub open spec fn group_heading_html(name: Seq<char>, t: PageTheme) -> Seq<char> {
    "<h2 style=\"margin:16px 0 0;font-size:13px;text-transform:uppercase;letter-spacing:0.05em;color:"@
        + t.help_heading@
        + ";opacity:0.8\">"@
        + name
        + "</h2>"@
}

/// One shortcut's row.
pub open spec fn entry_html(key: Seq<char>, desc: Seq<char>, t: PageTheme) -> Seq<char> {
    "<div style=\"display:flex;justify-content:space-between;align-items:center;gap:16px;padding:10px 14px;background:"@
        + t.help_card_bg@
        + ";border-radius:8px;border:1px solid "@
        + t.help_card_border@
        + "\"><kbd style=\"flex-shrink:0;white-space:nowrap;background:"@
        + t.help_key_bg@
        + ";color:"@
        + t.help_key_fg@
        + ";padding:4px 10px;border-radius:6px;font-weight:600;font-size:13px\">"@
        + key
        + "</kbd><span style=\"text-align:right;white-space:nowrap\">"@
        + desc
        + "</span></div>"@
}

/// The rows of the first `n` entries of a group.
pub open spec fn entries_upto(e: Seq<(Seq<char>, Seq<char>)>, t: PageTheme, n: nat) -> Seq<char>
    decreases n,
{
    if n == 0 {
        Seq::empty()
    } else {
        entries_upto(e, t, (n - 1) as nat) + entry_html(e[n - 1].0, e[n - 1].1, t)
    }
}

/// The first `n` groups, each under its heading.
pub open spec fn groups_upto(
    g: Seq<(Seq<char>, Seq<(Seq<char>, Seq<char>)>)>,
    t: PageTheme,
    n: nat,
) -> Seq<char>
    decreases n,
{
    if n == 0 {
        Seq::empty()
    } else {
        groups_upto(g, t, (n - 1) as nat) + group_heading_html(g[n - 1].0, t) + entries_upto(
            g[n - 1].1,
            t,
            g[n - 1].1.len(),
        )
    }
}

/// The whole page as a `data:` URL.
pub open spec fn help_page(t: PageTheme) -> Seq<char> {
    let rows = groups_upto(help_table(), t, help_table().len());
    "data:text/html;charset=utf-8,"@
        + body_open_html(t, ""@)
        + "<h1 style=\"margin:0 0 4px;color:"@
        + t.help_heading@
        + ";font-size:20px\">spatial-browser &mdash; shortcuts ("@
        + t.name@
        + ")</h1><div style=\"display:flex;flex-direction:column;gap:8px\">"@
        + rows
        + "</div></body>"@
}

fn group_heading(name: &str, t: &PageTheme) -> (r: String)
    ensures
        r@ == group_heading_html(name@, *t),
{
    let mut out: Vec<char> = Vec::new();
    push_str(&mut out, "<h2 style=\"margin:16px 0 0;font-size:13px;text-transform:uppercase;letter-spacing:0.05em;color:");
    push_str(&mut out, t.help_heading);
    push_str(&mut out, ";opacity:0.8\">");
    push_str(&mut out, name);
    push_str(&mut out, "</h2>");
    string_of(out.as_slice())
}

fn entry_row(key: &str, desc: &str, t: &PageTheme) -> (r: String)
    ensures
        r@ == entry_html(key@, desc@, *t),
{
    let mut out: Vec<char> = Vec::new();
    push_str(&mut out, "<div style=\"display:flex;justify-content:space-between;align-items:center;gap:16px;padding:10px 14px;background:");
    push_str(&mut out, t.help_card_bg);
    push_str(&mut out, ";border-radius:8px;border:1px solid ");
    push_str(&mut out, t.help_card_border);
    push_str(&mut out, "\"><kbd style=\"flex-shrink:0;white-space:nowrap;background:");
    push_str(&mut out, t.help_key_bg);
    push_str(&mut out, ";color:");
    push_str(&mut out, t.help_key_fg);
    push_str(&mut out, ";padding:4px 10px;border-radius:6px;font-weight:600;font-size:13px\">");
    push_str(&mut out, key);
    push_str(&mut out, "</kbd><span style=\"text-align:right;white-space:nowrap\">");
    push_str(&mut out, desc);
    push_str(&mut out, "</span></div>");
    string_of(out.as_slice())
}

/// Builds the help page's `data:` URL in the colors of `theme`.
pub fn page_url(theme: &PageTheme) -> (r: String)
    ensures
        r@ == help_page(*theme),
{
    let t = theme;
    let groups = help_groups();
    let ghost g = group_views(groups@);
    let mut rows: Vec<char> = Vec::new();
    let mut i: usize = 0;
    while i < groups.len()
        invariant
            i <= groups.len(),
            g == group_views(groups@),
            g == help_table(),
            rows@ == groups_upto(g, *t, i as nat),
        decreases groups.len() - i,
    {
        let name = groups[i].0;
        let entries = &groups[i].1;
        let ghost ev = entry_views(entries@);
        assert(g[i as int] == (name@, ev));
        let h = group_heading(name, t);
        push_str(&mut rows, h.as_str());
        let ghost mid = rows@;
        let mut j: usize = 0;
        while j < entries.len()
            invariant
                j <= entries.len(),
                ev == entry_views(entries@),
                rows@ == mid + entries_upto(ev, *t, j as nat),
            decreases entries.len() - j,
        {
            let row = entry_row(entries[j].0, entries[j].1, t);
            push_str(&mut rows, row.as_str());
            j = j + 1;
        }
        i = i + 1;
    }
    let name = t.name;
    let mut out: Vec<char> = Vec::new();
    push_str(&mut out, "data:text/html;charset=utf-8,");
    push_str(&mut out, body_open(t, "").as_str());
    push_str(&mut out, "<h1 style=\"margin:0 0 4px;color:");
    push_str(&mut out, t.help_heading);
    push_str(&mut out, ";font-size:20px\">spatial-browser &mdash; shortcuts (");
    push_str(&mut out, name);
    push_str(&mut out, ")</h1><div style=\"display:flex;flex-direction:column;gap:8px\">");
    push_all(&mut out, rows.as_slice());
    push_str(&mut out, "</div></body>");
    string_of(out.as_slice())
}

} // verus!
