//! The right-click menu's page: its items as links, sized to fit the small
//! view it is shown in.

use vstd::prelude::*;
use crate::pages::{html_escape, html_escaped, item_views, items, menu_items, MenuContext, PageTheme};
use crate::text::{push_all, push_str, string_of};

verus! {

/// How many rows the menu's view is sized for: its items, and at least
/// one.
pub open spec fn menu_rows(ctx: MenuContext) -> nat {
    if menu_items(ctx).len() < 1 {
        1
    } else {
        menu_items(ctx).len()
    }
}

/// The number of rows the menu view must hold.
pub fn menu_row_count(ctx: &MenuContext) -> (r: usize)
    ensures
        r as nat == menu_rows(*ctx),
{
    let n = items(ctx).len();
    if n < 1 {
        1
    } else {
        n
    }
}

/// One item's link, `radius_inner` rounding its corners.
pub open spec fn item_html(label: Seq<char>, href: Seq<char>, radius_inner: Seq<char>, t: PageTheme) -> Seq<char> {
    "<a class=\"item\" href=\""@
        + href
        + "\" style=\"display:block;box-sizing:border-box;width:100%;padding:8px 10px;text-decoration:none;color:"@
        + t.help_fg@
        + ";border-radius:"@
        + radius_inner
        + ";overflow:hidden;text-overflow:ellipsis;white-space:nowrap\">"@
        + html_escaped(label)
        + "</a>"@
}

/// The links of the first `n` items.
pub open spec fn items_upto(v: Seq<(Seq<char>, Seq<char>)>, radius_inner: Seq<char>, t: PageTheme, n: nat) -> Seq<char>
    decreases n,
{
    if n == 0 {
        Seq::empty()
    } else {
        items_upto(v, radius_inner, t, (n - 1) as nat) + item_html(v[n - 1].0, v[n - 1].1, radius_inner, t)
    }
}

/// The whole menu as a `data:` URL; `radius` and `radius_inner` are the
/// CSS lengths that round the menu and its items.
pub open spec fn menu_page(t: PageTheme, radius: Seq<char>, radius_inner: Seq<char>, ctx: MenuContext) -> Seq<char> {
    let rows = items_upto(menu_items(ctx), radius_inner, t, menu_items(ctx).len());
    "data:text/html;charset=utf-8,<html style=\"margin:0;width:100%;height:100%;overflow:hidden\"><body style=\"margin:0;padding:6px;box-sizing:border-box;width:100%;height:100%;overflow:hidden;background:"@
        + t.help_bg@
        + ";color:"@
        + t.help_fg@
        + ";font-family:ui-monospace,monospace;font-size:13px;line-height:1.3;border:1px solid "@
        + t.help_card_border@
        + ";border-radius:"@
        + radius
        + "\"><style>a.item:hover{background:"@
        + t.help_card_bg@
        + ";color:"@
        + t.help_heading@
        + "}*{box-sizing:border-box}</style><div style=\"width:100%;overflow:hidden\">"@
        + rows
        + "</div></body></html>"@
}

fn item_link(label: &str, href: &str, radius_inner: &str, t: &PageTheme) -> (r: String)
    ensures
        r@ == item_html(label@, href@, radius_inner@, *t),
{
    let label_html = html_escape(label);
    let mut out: Vec<char> = Vec::new();
    push_str(&mut out, "<a class=\"item\" href=\"");
    push_str(&mut out, href);
    push_str(&mut out, "\" style=\"display:block;box-sizing:border-box;width:100%;padding:8px 10px;text-decoration:none;color:");
    push_str(&mut out, t.help_fg);
    push_str(&mut out, ";border-radius:");
    push_str(&mut out, radius_inner);
    push_str(&mut out, ";overflow:hidden;text-overflow:ellipsis;white-space:nowrap\">");
    push_str(&mut out, label_html.as_str());
    push_str(&mut out, "</a>");
    string_of(out.as_slice())
}

/// Builds the menu page's `data:` URL for what was under the cursor.
pub fn page_url(theme: &PageTheme, radius: &str, radius_inner: &str, ctx: &MenuContext) -> (r: String)
    ensures
        r@ == menu_page(*theme, radius@, radius_inner@, *ctx),
{
    let t = theme;
    let list = items(ctx);
    let ghost v = item_views(list@);
    let mut rows: Vec<char> = Vec::new();
    let mut i: usize = 0;
    while i < list.len()
        invariant
            i <= list.len(),
            v == item_views(list@),
            v == menu_items(*ctx),
            rows@ == items_upto(v, radius_inner@, *t, i as nat),
        decreases list.len() - i,
    {
        let row = item_link(list[i].0, list[i].1.as_str(), radius_inner, t);
        push_str(&mut rows, row.as_str());
        i = i + 1;
    }
    let mut out: Vec<char> = Vec::new();
    push_str(&mut out, "data:text/html;charset=utf-8,<html style=\"margin:0;width:100%;height:100%;overflow:hidden\"><body style=\"margin:0;padding:6px;box-sizing:border-box;width:100%;height:100%;overflow:hidden;background:");
    push_str(&mut out, t.help_bg);
    push_str(&mut out, ";color:");
    push_str(&mut out, t.help_fg);
    push_str(&mut out, ";font-family:ui-monospace,monospace;font-size:13px;line-height:1.3;border:1px solid ");
    push_str(&mut out, t.help_card_border);
    push_str(&mut out, ";border-radius:");
    push_str(&mut out, radius);
    push_str(&mut out, "\"><style>a.item:hover{background:");
    push_str(&mut out, t.help_card_bg);
    push_str(&mut out, ";color:");
    push_str(&mut out, t.help_heading);
    push_str(&mut out, "}*{box-sizing:border-box}</style><div style=\"width:100%;overflow:hidden\">");
    push_all(&mut out, rows.as_slice());
    push_str(&mut out, "</div></body></html>");
    string_of(out.as_slice())
}

} // verus!
