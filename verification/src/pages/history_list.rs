//! The history list: newest visit first, each row the page's host icon,
//! its URL and (filled in by the page's script, in local time) the date
//! and time of the visit. The script can regroup the rows by day or by
//! host; a click reopens the page, the trash icon forgets the visit.

use vstd::prelude::*;
use crate::history::{history_views, HistoryEntry, HistoryView};
use crate::bookmarks::{host_of, host_of_spec};
use crate::pages::{
    body_open, body_open_html, empty_state, empty_state_html, favicon_html, favicon_tile,
    html_escape, html_escaped, icon_button_hover_css, icon_hover_css, icon_link_button,
    icon_link_html, PageTheme, LIST_NAV_SCRIPT, TRASH_SVG_PATH,
};
use crate::text::{
    decimal, initial_letter, push_all, push_decimal, push_i64, push_str, signed_decimal,
    string_of, upper_initial,
};

verus! {

/// Fills in local dates and times and regroups the rows.
pub const HISTORY_SCRIPT: &'static str = "<script>\nfunction pad(n) { return String(n).padStart(2, '0'); }\n\nfunction initTimestamps() {\n  document.querySelectorAll('.hist-row').forEach(row => {\n    const d = new Date(parseInt(row.dataset.timestamp, 10) * 1000);\n    const dateStr = `${d.getFullYear()}-${pad(d.getMonth() + 1)}-${pad(d.getDate())}`;\n    const timeStr = `${pad(d.getHours())}:${pad(d.getMinutes())}`;\n    row.dataset.date = dateStr;\n    row.querySelector('.hist-date').textContent = dateStr;\n    row.querySelector('.hist-time').textContent = timeStr;\n  });\n}\n\nfunction applyGrouping(mode) {\n  const container = document.getElementById('rows');\n  const rows = Array.from(container.querySelectorAll('.hist-row'));\n  container.querySelectorAll('.hist-header').forEach(h => h.remove());\n  container.classList.toggle('mode-date', mode === 'date');\n  document.querySelectorAll('.group-toggle button').forEach(b => {\n    b.classList.toggle('active', b.dataset.mode === mode);\n  });\n\n  const addHeader = text => {\n    const h = document.createElement('div');\n    h.className = 'hist-header';\n    h.textContent = text;\n    container.appendChild(h);\n  };\n\n  if (mode === 'flat') {\n    rows.forEach(r => container.appendChild(r));\n  } else if (mode === 'date') {\n    // Rows are already most-recent-first, so a date change in that\n    // order is exactly a day boundary — no re-sorting needed, just\n    // insert a header wherever the local date changes.\n    let last = null;\n    rows.forEach(r => {\n      if (r.dataset.date !== last) { addHeader(r.dataset.date); last = r.dataset.date; }\n      container.appendChild(r);\n    });\n  } else if (mode === 'host') {\n    // The order hosts are first seen in is \"most recently visited host\n    // first\"; each group's rows keep their relative chronological order.\n    const order = [];\n    rows.forEach(r => { if (!order.includes(r.dataset.host)) order.push(r.dataset.host); });\n    order.forEach(host => {\n      addHeader(host);\n      rows.filter(r => r.dataset.host === host).forEach(r => container.appendChild(r));\n    });\n  }\n}\n</script>";

/// One row of the list.
pub open spec fn history_row_html(index: nat, h: HistoryView, t: PageTheme) -> Seq<char> {
    "<div class=\"hist-row list-row\" data-timestamp=\""@
        + signed_decimal(h.visited_at as int)
        + "\" data-host=\""@
        + html_escaped(host_of_spec(h.url))
        + "\" data-open=\"history://open/"@
        + decimal(index as nat)
        + "\" onclick=\"location='history://open/"@
        + decimal(index as nat)
        + "'\" style=\"display:flex;align-items:center;gap:10px;padding:10px 14px;cursor:pointer;background:"@
        + t.help_card_bg@
        + ";border-radius:8px;border:1px solid "@
        + t.help_card_border@
        + "\">"@
        + favicon_html(host_of_spec(h.url), upper_initial(host_of_spec(h.url)), t)
        + "<span style=\"flex:1;min-width:0;overflow:hidden;text-overflow:ellipsis;white-space:nowrap;color:"@
        + t.help_fg@
        + "\">"@
        + html_escaped(h.url)
        + "</span><span class=\"hist-date\" style=\"flex-shrink:0;color:"@
        + t.help_fg@
        + ";opacity:0.6;font-size:12px;white-space:nowrap\"></span><span class=\"hist-time\" style=\"flex-shrink:0;color:"@
        + t.help_fg@
        + ";opacity:0.6;font-size:12px;white-space:nowrap\"></span>"@
        + icon_link_html("history://remove/"@ + decimal(index as nat), "Remove from list"@, TRASH_SVG_PATH@, "onclick=\"event.stopPropagation()\""@, t)
        + "</div>"@
}

/// The rows for the first `n` visits.
pub open spec fn rows_upto(h: Seq<HistoryView>, t: PageTheme, n: nat) -> Seq<char>
    decreases n,
{
    if n == 0 {
        Seq::empty()
    } else {
        rows_upto(h, t, (n - 1) as nat) + history_row_html((n - 1) as nat, h[n - 1], t)
    }
}

/// All rows, or the placeholder for an empty history.
pub open spec fn history_rows(h: Seq<HistoryView>, t: PageTheme) -> Seq<char> {
    if h.len() == 0 {
        empty_state_html(t, "No history yet."@)
    } else {
        rows_upto(h, t, h.len())
    }
}

/// The whole page as a `data:` URL.
pub open spec fn history_page(t: PageTheme, h: Seq<HistoryView>) -> Seq<char> {
    let rows = history_rows(h, t);
    "data:text/html;charset=utf-8,"@
        + HISTORY_SCRIPT@
        + LIST_NAV_SCRIPT@
        + "<style>.hist-row:hover,.hist-row.list-active{background:"@
        + t.help_key_bg@
        + "!important}.hist-row:hover span,.hist-row.list-active span{color:"@
        + t.help_key_fg@
        + "!important}"@
        + icon_hover_css(t)
        + ".hist-header{margin:16px 0 0;font-size:13px;text-transform:uppercase;letter-spacing:0.05em;opacity:0.8;color:"@
        + t.help_heading@
        + "}.hist-header:first-child{margin-top:0}.rows-container.mode-date .hist-date{display:none}.group-toggle button{background:"@
        + t.help_card_bg@
        + ";color:"@
        + t.help_fg@
        + ";opacity:0.7;border:1px solid "@
        + t.help_card_border@
        + ";border-radius:6px;padding:5px 12px;font:inherit;font-size:13px;cursor:pointer}.group-toggle button.active{background:"@
        + t.help_key_bg@
        + ";color:"@
        + t.help_key_fg@
        + ";opacity:1;border-color:"@
        + t.help_key_bg@
        + "}</style>"@
        + body_open_html(t, "onload=\"initTimestamps()\""@)
        + "<div style=\"display:flex;align-items:baseline;justify-content:space-between;margin:0 0 16px\"><h1 style=\"margin:0;color:"@
        + t.help_heading@
        + ";font-size:20px\">History</h1><a href=\"history://clear\" style=\"color:"@
        + t.help_fg@
        + ";opacity:0.6;font-size:13px\">Clear all</a></div><div class=\"group-toggle\" style=\"display:flex;gap:6px;margin-bottom:16px\"><button data-mode=\"flat\" onclick=\"applyGrouping('flat')\" class=\"active\">Recent</button><button data-mode=\"date\" onclick=\"applyGrouping('date')\">By day</button><button data-mode=\"host\" onclick=\"applyGrouping('host')\">By site</button></div><div id=\"rows\" class=\"rows-container\" style=\"display:flex;flex-direction:column;gap:8px\">"@
        + rows
        + "</div></body>"@
}

fn history_row(index: usize, h: &HistoryEntry, t: &PageTheme) -> (r: String)
    ensures
        r@ == history_row_html(index as nat, h@, *t),
{
    let host = host_of(h.url.as_str());
    let letter = initial_letter(host.as_str());
    let favicon = favicon_tile(host.as_str(), letter.as_str(), t);
    let host_html = html_escape(host.as_str());
    let url_html = html_escape(h.url.as_str());
    let mut href: Vec<char> = Vec::new();
    push_str(&mut href, "history://remove/");
    push_decimal(&mut href, index);
    let href = string_of(href.as_slice());
    let remove = icon_link_button(
        href.as_str(),
        "Remove from list",
        TRASH_SVG_PATH,
        "onclick=\"event.stopPropagation()\"",
        t,
    );
    let mut out: Vec<char> = Vec::new();
    push_str(&mut out, "<div class=\"hist-row list-row\" data-timestamp=\"");
    push_i64(&mut out, h.visited_at);
    push_str(&mut out, "\" data-host=\"");
    push_str(&mut out, host_html.as_str());
    push_str(&mut out, "\" data-open=\"history://open/");
    push_decimal(&mut out, index);
    push_str(&mut out, "\" onclick=\"location='history://open/");
    push_decimal(&mut out, index);
    push_str(&mut out, "'\" style=\"display:flex;align-items:center;gap:10px;padding:10px 14px;cursor:pointer;background:");
    push_str(&mut out, t.help_card_bg);
    push_str(&mut out, ";border-radius:8px;border:1px solid ");
    push_str(&mut out, t.help_card_border);
    push_str(&mut out, "\">");
    push_str(&mut out, favicon.as_str());
    push_str(&mut out, "<span style=\"flex:1;min-width:0;overflow:hidden;text-overflow:ellipsis;white-space:nowrap;color:");
    push_str(&mut out, t.help_fg);
    push_str(&mut out, "\">");
    push_str(&mut out, url_html.as_str());
    push_str(&mut out, "</span><span class=\"hist-date\" style=\"flex-shrink:0;color:");
    push_str(&mut out, t.help_fg);
    push_str(&mut out, ";opacity:0.6;font-size:12px;white-space:nowrap\"></span><span class=\"hist-time\" style=\"flex-shrink:0;color:");
    push_str(&mut out, t.help_fg);
    push_str(&mut out, ";opacity:0.6;font-size:12px;white-space:nowrap\"></span>");
    push_str(&mut out, remove.as_str());
    push_str(&mut out, "</div>");
    string_of(out.as_slice())
}

/// Builds the history page's `data:` URL.
pub fn page_url(theme: &PageTheme, history: &[HistoryEntry]) -> (r: String)
    ensures
        r@ == history_page(*theme, history_views(history@)),
{
    let t = theme;
    let ghost h = history_views(history@);
    let mut rows: Vec<char> = Vec::new();
    if history.len() == 0 {
        push_str(&mut rows, empty_state(t, "No history yet.").as_str());
    }
    let mut i: usize = 0;
    while i < history.len()
        invariant
            i <= history.len(),
            h == history_views(history@),
            history.len() > 0 ==> rows@ == rows_upto(h, *t, i as nat),
            history.len() == 0 ==> rows@ == history_rows(h, *t),
        decreases history.len() - i,
    {
        let row = history_row(i, &history[i], t);
        push_str(&mut rows, row.as_str());
        i = i + 1;
    }
    assert(rows@ == history_rows(h, *t));
    let mut out: Vec<char> = Vec::new();
    push_str(&mut out, "data:text/html;charset=utf-8,");
    push_str(&mut out, HISTORY_SCRIPT);
    push_str(&mut out, LIST_NAV_SCRIPT);
    push_str(&mut out, "<style>.hist-row:hover,.hist-row.list-active{background:");
    push_str(&mut out, t.help_key_bg);
    push_str(&mut out, "!important}.hist-row:hover span,.hist-row.list-active span{color:");
    push_str(&mut out, t.help_key_fg);
    push_str(&mut out, "!important}");
    push_str(&mut out, icon_button_hover_css(t).as_str());
    push_str(&mut out, ".hist-header{margin:16px 0 0;font-size:13px;text-transform:uppercase;letter-spacing:0.05em;opacity:0.8;color:");
    push_str(&mut out, t.help_heading);
    push_str(&mut out, "}.hist-header:first-child{margin-top:0}.rows-container.mode-date .hist-date{display:none}.group-toggle button{background:");
    push_str(&mut out, t.help_card_bg);
    push_str(&mut out, ";color:");
    push_str(&mut out, t.help_fg);
    push_str(&mut out, ";opacity:0.7;border:1px solid ");
    push_str(&mut out, t.help_card_border);
    push_str(&mut out, ";border-radius:6px;padding:5px 12px;font:inherit;font-size:13px;cursor:pointer}.group-toggle button.active{background:");
    push_str(&mut out, t.help_key_bg);
    push_str(&mut out, ";color:");
    push_str(&mut out, t.help_key_fg);
    push_str(&mut out, ";opacity:1;border-color:");
    push_str(&mut out, t.help_key_bg);
    push_str(&mut out, "}</style>");
    push_str(&mut out, body_open(t, "onload=\"initTimestamps()\"").as_str());
    push_str(&mut out, "<div style=\"display:flex;align-items:baseline;justify-content:space-between;margin:0 0 16px\"><h1 style=\"margin:0;color:");
    push_str(&mut out, t.help_heading);
    push_str(&mut out, ";font-size:20px\">History</h1><a href=\"history://clear\" style=\"color:");
    push_str(&mut out, t.help_fg);
    push_str(&mut out, ";opacity:0.6;font-size:13px\">Clear all</a></div><div class=\"group-toggle\" style=\"display:flex;gap:6px;margin-bottom:16px\"><button data-mode=\"flat\" onclick=\"applyGrouping('flat')\" class=\"active\">Recent</button><button data-mode=\"date\" onclick=\"applyGrouping('date')\">By day</button><button data-mode=\"host\" onclick=\"applyGrouping('host')\">By site</button></div><div id=\"rows\" class=\"rows-container\" style=\"display:flex;flex-direction:column;gap:8px\">");
    push_all(&mut out, rows.as_slice());
    push_str(&mut out, "</div></body>");
    string_of(out.as_slice())
}

} // verus!
