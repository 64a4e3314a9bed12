//! The downloads list: newest first, each row the file's name and the
//! host it came from; a click opens the file, the trash icon forgets the
//! entry (the file itself stays on disk).

use vstd::prelude::*;
use crate::downloads::{download_views, DownloadRecord, DownloadView};
use crate::bookmarks::{host_of, host_of_spec};
use crate::pages::{
    body_open, body_open_html, empty_state, empty_state_html, favicon_html, favicon_tile,
    html_escape, html_escaped, icon_button_hover_css, icon_hover_css, icon_link_button,
    icon_link_html, PageTheme, LIST_NAV_SCRIPT, TRASH_SVG_PATH,
};
use crate::paths::{file_name_of, path_file_name};
use crate::text::{
    decimal, initial_letter, push_all, push_decimal, push_str, string_of, upper_initial,
};

verus! {

/// The name a row shows: the path's file name, or the whole path.
pub open spec fn file_label(path: Seq<char>) -> Seq<char> {
    match path_file_name(path) {
        Some(name) => name,
        None => path,
    }
}

/// One row of the list.
pub open spec fn download_row_html(index: nat, d: DownloadView, t: PageTheme) -> Seq<char> {
    "<div class=\"dl-row list-row\" data-open=\"download://open/"@
        + decimal(index as nat)
        + "\" onclick=\"location='download://open/"@
        + decimal(index as nat)
        + "'\" style=\"display:flex;align-items:center;gap:10px;padding:10px 14px;cursor:pointer;background:"@
        + t.help_card_bg@
        + ";border-radius:8px;border:1px solid "@
        + t.help_card_border@
        + "\">"@
        + favicon_html(host_of_spec(d.url), upper_initial(file_label(d.path)), t)
        + "<div style=\"flex:1;min-width:0;display:flex;flex-direction:column\"><span style=\"overflow:hidden;text-overflow:ellipsis;white-space:nowrap;color:"@
        + t.help_fg@
        + "\">"@
        + html_escaped(file_label(d.path))
        + "</span><span style=\"overflow:hidden;text-overflow:ellipsis;white-space:nowrap;color:"@
        + t.help_fg@
        + ";opacity:0.6;font-size:12px\">"@
        + html_escaped(host_of_spec(d.url))
        + "</span></div>"@
        + icon_link_html("download://remove/"@ + decimal(index as nat), "Remove from list"@, TRASH_SVG_PATH@, "onclick=\"event.stopPropagation()\""@, t)
        + "</div>"@
}

/// The rows for the first `n` downloads.
pub open spec fn rows_upto(d: Seq<DownloadView>, t: PageTheme, n: nat) -> Seq<char>
    decreases n,
{
    if n == 0 {
        Seq::empty()
    } else {
        rows_upto(d, t, (n - 1) as nat) + download_row_html((n - 1) as nat, d[n - 1], t)
    }
}

/// All rows, or the placeholder for an empty list.
pub open spec fn download_rows(d: Seq<DownloadView>, t: PageTheme) -> Seq<char> {
    if d.len() == 0 {
        empty_state_html(t, "No downloads yet."@)
    } else {
        rows_upto(d, t, d.len())
    }
}

/// The whole page as a `data:` URL.
pub open spec fn downloads_page(t: PageTheme, d: Seq<DownloadView>) -> Seq<char> {
    let rows = download_rows(d, t);
    "data:text/html,"@
        + LIST_NAV_SCRIPT@
        + "<style>.dl-row:hover,.dl-row.list-active{background:"@
        + t.help_key_bg@
        + "!important}.dl-row:hover span,.dl-row.list-active span{color:"@
        + t.help_key_fg@
        + "!important}"@
        + icon_hover_css(t)
        + "</style>"@
        + body_open_html(t, ""@)
        + "<h1 style=\"margin:0 0 20px;color:"@
        + t.help_heading@
        + ";font-size:20px\">Downloads</h1><div style=\"display:flex;flex-direction:column;gap:8px\">"@
        + rows
        + "</div></body>"@
}

fn download_row(index: usize, d: &DownloadRecord, t: &PageTheme) -> (r: String)
    ensures
        r@ == download_row_html(index as nat, d@, *t),
{
    let name = match file_name_of(d.path.as_str()) {
        Some(n) => n,
        None => d.path.clone(),
    };
    let host = host_of(d.url.as_str());
    let letter = initial_letter(name.as_str());
    let favicon = favicon_tile(host.as_str(), letter.as_str(), t);
    let name_html = html_escape(name.as_str());
    let host_html = html_escape(host.as_str());
    let mut href: Vec<char> = Vec::new();
    push_str(&mut href, "download://remove/");
    push_decimal(&mut href, index);
    let href = string_of(href.as_slice());
    let remove = icon_link_button(
        href.as_str(),
        "Remove from list",
        TRASH_SVG_PATH,
        "onclick=\"event.stopPropagation()\"",
        t,
    );
    let mut out: Vec<char> = Vec::new();
    push_str(&mut out, "<div class=\"dl-row list-row\" data-open=\"download://open/");
    push_decimal(&mut out, index);
    push_str(&mut out, "\" onclick=\"location='download://open/");
    push_decimal(&mut out, index);
    push_str(&mut out, "'\" style=\"display:flex;align-items:center;gap:10px;padding:10px 14px;cursor:pointer;background:");
    push_str(&mut out, t.help_card_bg);
    push_str(&mut out, ";border-radius:8px;border:1px solid ");
    push_str(&mut out, t.help_card_border);
    push_str(&mut out, "\">");
    push_str(&mut out, favicon.as_str());
    push_str(&mut out, "<div style=\"flex:1;min-width:0;display:flex;flex-direction:column\"><span style=\"overflow:hidden;text-overflow:ellipsis;white-space:nowrap;color:");
    push_str(&mut out, t.help_fg);
    push_str(&mut out, "\">");
    push_str(&mut out, name_html.as_str());
    push_str(&mut out, "</span><span style=\"overflow:hidden;text-overflow:ellipsis;white-space:nowrap;color:");
    push_str(&mut out, t.help_fg);
    push_str(&mut out, ";opacity:0.6;font-size:12px\">");
    push_str(&mut out, host_html.as_str());
    push_str(&mut out, "</span></div>");
    push_str(&mut out, remove.as_str());
    push_str(&mut out, "</div>");
    string_of(out.as_slice())
}

/// Builds the downloads page's `data:` URL.
pub fn page_url(theme: &PageTheme, downloads: &[DownloadRecord]) -> (r: String)
    ensures
        r@ == downloads_page(*theme, download_views(downloads@)),
{
    let t = theme;
    let ghost d = download_views(downloads@);
    let mut rows: Vec<char> = Vec::new();
    if downloads.len() == 0 {
        push_str(&mut rows, empty_state(t, "No downloads yet.").as_str());
    }
    let mut i: usize = 0;
    while i < downloads.len()
        invariant
            i <= downloads.len(),
            d == download_views(downloads@),
            downloads.len() > 0 ==> rows@ == rows_upto(d, *t, i as nat),
            downloads.len() == 0 ==> rows@ == download_rows(d, *t),
        decreases downloads.len() - i,
    {
        let row = download_row(i, &downloads[i], t);
        push_str(&mut rows, row.as_str());
        i = i + 1;
    }
    assert(rows@ == download_rows(d, *t));
    let mut out: Vec<char> = Vec::new();
    push_str(&mut out, "data:text/html,");
    push_str(&mut out, LIST_NAV_SCRIPT);
    push_str(&mut out, "<style>.dl-row:hover,.dl-row.list-active{background:");
    push_str(&mut out, t.help_key_bg);
    push_str(&mut out, "!important}.dl-row:hover span,.dl-row.list-active span{color:");
    push_str(&mut out, t.help_key_fg);
    push_str(&mut out, "!important}");
    push_str(&mut out, icon_button_hover_css(t).as_str());
    push_str(&mut out, "</style>");
    push_str(&mut out, body_open(t, "").as_str());
    push_str(&mut out, "<h1 style=\"margin:0 0 20px;color:");
    push_str(&mut out, t.help_heading);
    push_str(&mut out, ";font-size:20px\">Downloads</h1><div style=\"display:flex;flex-direction:column;gap:8px\">");
    push_all(&mut out, rows.as_slice());
    push_str(&mut out, "</div></body>");
    string_of(out.as_slice())
}

} // verus!
