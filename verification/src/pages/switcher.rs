//! The page switcher: every other open page as a row, filtered as the
//! user types; Enter or a click brings the chosen page to the front.

use vstd::prelude::*;
use crate::bookmarks::{host_of, host_of_spec};
use crate::pages::{
    body_open, body_open_html, empty_state, empty_state_html, favicon_html, favicon_tile,
    html_escape, html_escaped, PageTheme,
};
use crate::text::{
    initial_letter, push_all, push_i64, push_str, signed_decimal, string_of, to_lowercase,
    unicode_lowercase, upper_initial,
};

verus! {

/// Filters the rows, moves the selection and reports the chosen page.
pub const SWITCHER_SCRIPT: &'static str = "<script>\nlet activeIndex = 0;\nfunction visibleRows() {\n  return Array.from(document.querySelectorAll('.switch-row')).filter(r => r.style.display !== 'none');\n}\nfunction setActive(index) {\n  const rows = visibleRows();\n  if (!rows.length) return;\n  activeIndex = ((index % rows.length) + rows.length) % rows.length;\n  rows.forEach(r => r.classList.remove('switch-active'));\n  rows[activeIndex].classList.add('switch-active');\n  rows[activeIndex].scrollIntoView({block: 'nearest'});\n}\nfunction filterRows() {\n  const q = document.getElementById('q').value.toLowerCase();\n  document.querySelectorAll('.switch-row').forEach(row => {\n    row.style.display = row.dataset.search.includes(q) ? 'flex' : 'none';\n  });\n  setActive(0);\n}\nfunction setActiveRow(row) {\n  const index = visibleRows().indexOf(row);\n  if (index >= 0) setActive(index);\n}\nfunction go(id) {\n  window.location = 'switcher://go/' + id;\n}\nfunction submitActive() {\n  const active = document.querySelector('.switch-active');\n  if (active) go(active.dataset.id);\n}\nfunction handleKey(event) {\n  if (event.key === 'Enter') {\n    submitActive();\n  } else if (event.key === 'ArrowDown') {\n    event.preventDefault();\n    setActive(activeIndex + 1);\n  } else if (event.key === 'ArrowUp') {\n    event.preventDefault();\n    setActive(activeIndex - 1);\n  }\n}\n</script>";

/// The entries as (page id, URL) pairs of plain values.
pub open spec fn entry_views(v: Seq<(i32, String)>) -> Seq<(i32, Seq<char>)> {
    v.map_values(|e: (i32, String)| (e.0, e.1@))
}

/// One row: the page with id `id` showing `url`.
pub open spec fn switch_row_html(id: i32, url: Seq<char>, t: PageTheme) -> Seq<char> {
    "<div class=\"switch-row\" data-search=\""@
        + html_escaped(unicode_lowercase(url))
        + "\" data-id=\""@
        + signed_decimal(id as int)
        + "\" onclick=\"go("@
        + signed_decimal(id as int)
        + ")\" onmouseenter=\"setActiveRow(this)\" style=\"display:flex;align-items:center;gap:10px;padding:10px 14px;cursor:pointer;background:"@
        + t.help_card_bg@
        + ";border-radius:8px;border:1px solid "@
        + t.help_card_border@
        + "\">"@
        + favicon_html(host_of_spec(url), upper_initial(host_of_spec(url)), t)
        + "<span style=\"overflow:hidden;text-overflow:ellipsis;white-space:nowrap;flex:1;color:"@
        + t.help_fg@
        + "\">"@
        + html_escaped(url)
        + "</span></div>"@
}

/// The rows for the first `n` entries.
pub open spec fn rows_upto(e: Seq<(i32, Seq<char>)>, t: PageTheme, n: nat) -> Seq<char>
    decreases n,
{
    if n == 0 {
        Seq::empty()
    } else {
        rows_upto(e, t, (n - 1) as nat) + switch_row_html(e[n - 1].0, e[n - 1].1, t)
    }
}

/// All rows, or the placeholder when no other page is open.
pub open spec fn switch_rows(e: Seq<(i32, Seq<char>)>, t: PageTheme) -> Seq<char> {
    if e.len() == 0 {
        empty_state_html(t, "No other open pages."@)
    } else {
        rows_upto(e, t, e.len())
    }
}

/// The whole page as a `data:` URL.
pub open spec fn switcher_page(t: PageTheme, e: Seq<(i32, Seq<char>)>) -> Seq<char> {
    let rows = switch_rows(e, t);
    "data:text/html;charset=utf-8,"@
        + SWITCHER_SCRIPT@
        + "<style>.switch-row:hover,.switch-active{background:"@
        + t.help_key_bg@
        + "!important}.switch-row:hover span,.switch-active span{color:"@
        + t.help_key_fg@
        + "!important}</style>"@
        + body_open_html(t, "onload=\"filterRows()\""@)
        + "<input id=\"q\" autofocus placeholder=\"Switch to a page...\" oninput=\"filterRows()\" onkeydown=\"handleKey(event)\" style=\"width:100%;box-sizing:border-box;background:"@
        + t.help_card_bg@
        + ";color:"@
        + t.help_fg@
        + ";border:1px solid "@
        + t.help_card_border@
        + ";border-radius:8px;padding:10px 14px;font:inherit;font-size:16px;margin-bottom:16px\"><div style=\"display:flex;flex-direction:column;gap:8px\">"@
        + rows
        + "</div></body>"@
}

fn switch_row(id: i32, url: &str, t: &PageTheme) -> (r: String)
    ensures
        r@ == switch_row_html(id, url@, *t),
{
    let host = host_of(url);
    let letter = initial_letter(host.as_str());
    let favicon = favicon_tile(host.as_str(), letter.as_str(), t);
    let lowered = to_lowercase(url);
    let search = html_escape(lowered.as_str());
    let label = html_escape(url);
    let mut out: Vec<char> = Vec::new();
    push_str(&mut out, "<div class=\"switch-row\" data-search=\"");
    push_str(&mut out, search.as_str());
    push_str(&mut out, "\" data-id=\"");
    push_i64(&mut out, id as i64);
    push_str(&mut out, "\" onclick=\"go(");
    push_i64(&mut out, id as i64);
    push_str(&mut out, ")\" onmouseenter=\"setActiveRow(this)\" style=\"display:flex;align-items:center;gap:10px;padding:10px 14px;cursor:pointer;background:");
    push_str(&mut out, t.help_card_bg);
    push_str(&mut out, ";border-radius:8px;border:1px solid ");
    push_str(&mut out, t.help_card_border);
    push_str(&mut out, "\">");
    push_str(&mut out, favicon.as_str());
    push_str(&mut out, "<span style=\"overflow:hidden;text-overflow:ellipsis;white-space:nowrap;flex:1;color:");
    push_str(&mut out, t.help_fg);
    push_str(&mut out, "\">");
    push_str(&mut out, label.as_str());
    push_str(&mut out, "</span></div>");
    string_of(out.as_slice())
}

/// Builds the switcher page's `data:` URL for `entries`, the (id, URL) of
/// every open page but the focused one.
pub fn page_url(theme: &PageTheme, entries: &[(i32, String)]) -> (r: String)
    ensures
        r@ == switcher_page(*theme, entry_views(entries@)),
{
    let t = theme;
    let ghost e = entry_views(entries@);
    let mut rows: Vec<char> = Vec::new();
    if entries.len() == 0 {
        push_str(&mut rows, empty_state(t, "No other open pages.").as_str());
    }
    let mut i: usize = 0;
    while i < entries.len()
        invariant
            i <= entries.len(),
            e == entry_views(entries@),
            entries.len() > 0 ==> rows@ == rows_upto(e, *t, i as nat),
            entries.len() == 0 ==> rows@ == switch_rows(e, *t),
        decreases entries.len() - i,
    {
        let row = switch_row(entries[i].0, entries[i].1.as_str(), t);
        push_str(&mut rows, row.as_str());
        i = i + 1;
    }
    assert(rows@ == switch_rows(e, *t));
    let mut out: Vec<char> = Vec::new();
    push_str(&mut out, "data:text/html;charset=utf-8,");
    push_str(&mut out, SWITCHER_SCRIPT);
    push_str(&mut out, "<style>.switch-row:hover,.switch-active{background:");
    push_str(&mut out, t.help_key_bg);
    push_str(&mut out, "!important}.switch-row:hover span,.switch-active span{color:");
    push_str(&mut out, t.help_key_fg);
    push_str(&mut out, "!important}</style>");
    push_str(&mut out, body_open(t, "onload=\"filterRows()\"").as_str());
    push_str(&mut out, "<input id=\"q\" autofocus placeholder=\"Switch to a page...\" oninput=\"filterRows()\" onkeydown=\"handleKey(event)\" style=\"width:100%;box-sizing:border-box;background:");
    push_str(&mut out, t.help_card_bg);
    push_str(&mut out, ";color:");
    push_str(&mut out, t.help_fg);
    push_str(&mut out, ";border:1px solid ");
    push_str(&mut out, t.help_card_border);
    push_str(&mut out, ";border-radius:8px;padding:10px 14px;font:inherit;font-size:16px;margin-bottom:16px\"><div style=\"display:flex;flex-direction:column;gap:8px\">");
    push_all(&mut out, rows.as_slice());
    push_str(&mut out, "</div></body>");
    string_of(out.as_slice())
}

} // verus!
