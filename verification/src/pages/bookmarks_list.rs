//! The bookmarks list: one group per folder (ungrouped first, then the
//! folders in order of their names), each row a bookmark that opens on a
//! click, can be renamed or moved to another folder in place, or deleted.

use vstd::prelude::*;
use crate::bookmarks::{
    bookmark_views, display_label, host_of, host_of_spec, label_of, Bookmark, BookmarkView,
};
use crate::name_sort::{chars_lt, lemma_lt_irreflexive, lemma_lt_total, lemma_lt_transitive, seq_lt};
use crate::pages::{
    body_open, body_open_html, empty_state, empty_state_html, favicon_html, favicon_tile,
    html_escape, html_escaped, icon_button_hover_css, icon_hover_css, icon_link_button,
    icon_link_html, icon_submit_button, icon_submit_html, PageTheme, CHECKMARK_SVG_PATH,
    LIST_NAV_SCRIPT, TRASH_SVG_PATH,
};
use crate::text::{
    chars_eq, chars_of, decimal, initial_letter, push_all, push_decimal, push_str, string_of,
    upper_initial,
};

verus! {

/// What a row shows for a bookmark: its title if it has a non-empty one,
/// else its URL's host.
pub open spec fn label_of_view(b: BookmarkView) -> Seq<char> {
    match b.title {
        Some(t) => if t.len() > 0 {
            t
        } else {
            host_of_spec(b.url)
        },
        None => host_of_spec(b.url),
    }
}

/// A folder's name as the folder field shows it (empty when ungrouped).
pub open spec fn folder_text(f: Option<Seq<char>>) -> Seq<char> {
    match f {
        Some(name) => name,
        None => Seq::empty(),
    }
}

/// The order of folders: ungrouped first, then by name.
pub open spec fn folder_lt(a: Option<Seq<char>>, b: Option<Seq<char>>) -> bool {
    match a {
        None => b is Some,
        Some(x) => match b {
            None => false,
            Some(y) => seq_lt(x, y),
        },
    }
}

proof fn lemma_folder_lt_order(a: Option<Seq<char>>, b: Option<Seq<char>>, c: Option<Seq<char>>)
    ensures
        !folder_lt(a, a),
        folder_lt(a, b) || folder_lt(b, a) || a == b,
        !(folder_lt(a, b) && folder_lt(b, a)),
        folder_lt(a, b) && folder_lt(b, c) ==> folder_lt(a, c),
{
    if let Some(x) = a {
        lemma_lt_irreflexive(x);
        if let Some(y) = b {
            lemma_lt_total(x, y);
            if let Some(z) = c {
                if seq_lt(x, y) && seq_lt(y, z) {
                    lemma_lt_transitive(x, y, z);
                }
            }
        }
    }
}

/// `f` lists each folder that a bookmark of `b` is in once, in order.
pub open spec fn is_folder_order(f: Seq<Option<Seq<char>>>, b: Seq<BookmarkView>) -> bool {
    &&& forall|i: int, j: int| 0 <= i < j < f.len() ==> folder_lt(#[trigger] f[i], #[trigger] f[j])
    &&& forall|x: Option<Seq<char>>| #[trigger] f.contains(x) <==> exists|k: int| 0 <= k < b.len() && b[k].folder == x
}

/// The folders of `b` in the order the page shows them.
pub open spec fn folder_order(b: Seq<BookmarkView>) -> Seq<Option<Seq<char>>> {
    choose|f: Seq<Option<Seq<char>>>| is_folder_order(f, b)
}

proof fn lemma_sorted_unique(f: Seq<Option<Seq<char>>>, g: Seq<Option<Seq<char>>>)
    requires
        forall|i: int, j: int| 0 <= i < j < f.len() ==> folder_lt(#[trigger] f[i], #[trigger] f[j]),
        forall|i: int, j: int| 0 <= i < j < g.len() ==> folder_lt(#[trigger] g[i], #[trigger] g[j]),
        forall|x: Option<Seq<char>>| f.contains(x) <==> g.contains(x),
    ensures
        f == g,
    decreases f.len(),
{
    if f.len() == 0 {
        if g.len() > 0 {
            assert(g.contains(g[0]));
        }
    } else {
        assert(f.contains(f[0]));
        let j = choose|j: int| 0 <= j < g.len() && g[j] == f[0];
        assert(g.contains(g[0]));
        let k = choose|k: int| 0 <= k < f.len() && f[k] == g[0];
        lemma_folder_lt_order(f[0], g[0], f[0]);
        if j > 0 {
            assert(folder_lt(g[0], g[j]));
            if k > 0 {
                assert(folder_lt(f[0], f[k]));
            }
        }
        assert(g[0] == f[0]);
        let f1 = f.drop_first();
        let g1 = g.drop_first();
        assert forall|x: Option<Seq<char>>| f1.contains(x) <==> g1.contains(x) by {
            if f1.contains(x) {
                let a = choose|a: int| 0 <= a < f1.len() && f1[a] == x;
                assert(f[a + 1] == x);
                assert(folder_lt(f[0], f[a + 1]));
                lemma_folder_lt_order(f[0], x, f[0]);
                assert(f.contains(x));
                let c = choose|c: int| 0 <= c < g.len() && g[c] == x;
                assert(c != 0);
                assert(g1[c - 1] == x);
            }
            if g1.contains(x) {
                let a = choose|a: int| 0 <= a < g1.len() && g1[a] == x;
                assert(g[a + 1] == x);
                assert(folder_lt(g[0], g[a + 1]));
                lemma_folder_lt_order(g[0], x, g[0]);
                assert(g.contains(x));
                let c = choose|c: int| 0 <= c < f.len() && f[c] == x;
                assert(c != 0);
                assert(f1[c - 1] == x);
            }
        }
        assert forall|i: int, j: int| 0 <= i < j < f1.len() implies folder_lt(#[trigger] f1[i], #[trigger] f1[j]) by {
            assert(f1[i] == f[i + 1] && f1[j] == f[j + 1]);
        }
        assert forall|i: int, j: int| 0 <= i < j < g1.len() implies folder_lt(#[trigger] g1[i], #[trigger] g1[j]) by {
            assert(g1[i] == g[i + 1] && g1[j] == g[j + 1]);
        }
        lemma_sorted_unique(f1, g1);
        assert(f == seq![f[0]] + f1);
        assert(g == seq![g[0]] + g1);
    }
}

/// A folder's heading.
pub open spec fn heading_html(name: Seq<char>, t: PageTheme) -> Seq<char> {
    "<h2 style=\"margin:12px 0 0;font-size:13px;text-transform:uppercase;letter-spacing:0.05em;color:"@
        + t.help_heading@
        + ";opacity:0.8\">"@
        + html_escaped(name)
        + "</h2>"@
}

/// The heading above a group: none for the ungrouped bookmarks.
pub open spec fn folder_heading(f: Option<Seq<char>>, t: PageTheme) -> Seq<char> {
    match f {
        Some(name) => heading_html(name, t),
        None => Seq::empty(),
    }
}

/// The row of bookmark `bm` at `index`.
pub open spec fn bookmark_row_html(index: nat, bm: BookmarkView, t: PageTheme) -> Seq<char> {
    "<div class=\"list-row\" data-open=\"bookmark://open/"@
        + decimal(index as nat)
        + "\" style=\"display:flex;align-items:center;gap:10px;padding:10px 14px;background:"@
        + t.help_card_bg@
        + ";border-radius:8px;border:1px solid "@
        + t.help_card_border@
        + "\"><a href=\"bookmark://open/"@
        + decimal(index as nat)
        + "\" style=\"display:flex;flex-shrink:0\">"@
        + favicon_html(host_of_spec(bm.url), upper_initial(label_of_view(bm)), t)
        + "</a><form method=\"get\" action=\"bookmark://rename/"@
        + decimal(index as nat)
        + "\" style=\"display:flex;align-items:center;gap:6px;flex:1;min-width:0;margin:0\"><span onclick=\"this.style.display='none';this.nextElementSibling.style.display='inline-block';this.nextElementSibling.focus();this.nextElementSibling.select()\" style=\"cursor:text;overflow:hidden;text-overflow:ellipsis;white-space:nowrap;flex:1;color:"@
        + t.help_fg@
        + "\" title=\"Click to rename\">"@
        + label_of_view(bm)
        + "</span><input name=\"title\" value=\""@
        + html_escaped(label_of_view(bm))
        + "\" style=\"display:none;flex:1;min-width:0;background:"@
        + t.help_bg@
        + ";color:"@
        + t.help_fg@
        + ";border:1px solid "@
        + t.help_card_border@
        + ";border-radius:4px;padding:2px 6px;font:inherit;font-size:13px\"><input name=\"folder\" value=\""@
        + html_escaped(folder_text(bm.folder))
        + "\" placeholder=\"folder\" style=\"width:70px;flex-shrink:0;background:"@
        + t.help_bg@
        + ";color:"@
        + t.help_fg@
        + ";border:1px solid "@
        + t.help_card_border@
        + ";border-radius:4px;padding:2px 6px;font:inherit;font-size:12px\">"@
        + icon_submit_html("Save"@, CHECKMARK_SVG_PATH@, t)
        + "</form>"@
        + icon_link_html("bookmark://delete/"@ + decimal(index as nat), "Delete"@, TRASH_SVG_PATH@, ""@, t)
        + "</div>"@
}

/// The rows, in list order, of those of the first `n` bookmarks that are
/// in folder `f`.
pub open spec fn group_rows(b: Seq<BookmarkView>, f: Option<Seq<char>>, t: PageTheme, n: nat) -> Seq<char>
    decreases n,
{
    if n == 0 {
        Seq::empty()
    } else {
        group_rows(b, f, t, (n - 1) as nat) + if b[n - 1].folder == f {
            bookmark_row_html((n - 1) as nat, b[n - 1], t)
        } else {
            Seq::empty()
        }
    }
}

/// The first `k` groups of folder order `order`, each under its heading.
pub open spec fn groups_upto(
    b: Seq<BookmarkView>,
    order: Seq<Option<Seq<char>>>,
    t: PageTheme,
    k: nat,
) -> Seq<char>
    decreases k,
{
    if k == 0 {
        Seq::empty()
    } else {
        groups_upto(b, order, t, (k - 1) as nat) + folder_heading(order[k - 1], t) + group_rows(
            b,
            order[k - 1],
            t,
            b.len(),
        )
    }
}

/// What the list shows when there are no bookmarks.
pub open spec fn no_bookmarks_text() -> Seq<char> {
    "No bookmarks yet &mdash; Ctrl+D on a page to add one."@
}

/// All groups, or the placeholder for no bookmarks.
pub open spec fn bookmark_rows(b: Seq<BookmarkView>, t: PageTheme) -> Seq<char> {
    if b.len() == 0 {
        empty_state_html(t, no_bookmarks_text())
    } else {
        groups_upto(b, folder_order(b), t, folder_order(b).len())
    }
}

/// The whole page as a `data:` URL.
pub open spec fn bookmarks_page(t: PageTheme, b: Seq<BookmarkView>) -> Seq<char> {
    let rows = bookmark_rows(b, t);
    "data:text/html;charset=utf-8,"@
        + LIST_NAV_SCRIPT@
        + "<style>"@
        + icon_hover_css(t)
        + ".list-row:hover,.list-row.list-active{background:"@
        + t.help_key_bg@
        + "!important}.list-row:hover span,.list-row.list-active span{color:"@
        + t.help_key_fg@
        + "!important}</style>"@
        + body_open_html(t, ""@)
        + "<h1 style=\"margin:0 0 20px;color:"@
        + t.help_heading@
        + ";font-size:20px\">Bookmarks</h1><div style=\"display:flex;flex-direction:column;gap:8px\">"@
        + rows
        + "</div></body>"@
}

/// A folder as plain characters.
pub open spec fn folder_view(o: Option<Vec<char>>) -> Option<Seq<char>> {
    match o {
        Some(v) => Some(v@),
        None => None,
    }
}

pub open spec fn folder_views(v: Seq<Option<Vec<char>>>) -> Seq<Option<Seq<char>>> {
    v.map_values(|o: Option<Vec<char>>| folder_view(o))
}

fn folder_of(b: &Bookmark) -> (r: Option<Vec<char>>)
    ensures
        folder_view(r) == b@.folder,
{
    match &b.folder {
        Some(f) => Some(chars_of(f.as_str())),
        None => None,
    }
}

fn folders_lt(a: &Option<Vec<char>>, b: &Option<Vec<char>>) -> (r: bool)
    ensures
        r == folder_lt(folder_view(*a), folder_view(*b)),
{
    match a {
        None => b.is_some(),
        Some(x) => match b {
            None => false,
            Some(y) => chars_lt(x.as_slice(), y.as_slice()),
        },
    }
}

fn folders_eq(a: &Option<Vec<char>>, b: &Option<Vec<char>>) -> (r: bool)
    ensures
        r == (folder_view(*a) == folder_view(*b)),
{
    match a {
        None => b.is_none(),
        Some(x) => match b {
            None => false,
            Some(y) => chars_eq(x.as_slice(), y.as_slice()),
        },
    }
}

/// The distinct folders of `bookmarks`, in the page's order.
fn sorted_folders(bookmarks: &[Bookmark]) -> (r: Vec<Option<Vec<char>>>)
    ensures
        is_folder_order(folder_views(r@), bookmark_views(bookmarks@)),
{
    let ghost b = bookmark_views(bookmarks@);
    let mut folders: Vec<Option<Vec<char>>> = Vec::new();
    let mut k: usize = 0;
    while k < bookmarks.len()
        invariant
            k <= bookmarks.len(),
            b == bookmark_views(bookmarks@),
            forall|i: int, j: int|
                0 <= i < j < folders@.len() ==> folder_lt(
                    #[trigger] folder_views(folders@)[i],
                    #[trigger] folder_views(folders@)[j],
                ),
            forall|x: Option<Seq<char>>| #[trigger]
                folder_views(folders@).contains(x) <==> exists|m: int| 0 <= m < k && b[m].folder == x,
        decreases bookmarks.len() - k,
    {
        let f = folder_of(&bookmarks[k]);
        let ghost fv = folder_view(f);
        let ghost old_f = folder_views(folders@);
        let mut p: usize = 0;
        while p < folders.len() && folders_lt(&folders[p], &f)
            invariant
                p <= folders.len(),
                old_f == folder_views(folders@),
                fv == folder_view(f),
                forall|i: int| 0 <= i < p ==> folder_lt(#[trigger] old_f[i], fv),
            decreases folders.len() - p,
        {
            p = p + 1;
        }
        let found = p < folders.len() && folders_eq(&folders[p], &f);
        if !found {
            proof {
                assert forall|i: int| p <= i < old_f.len() implies folder_lt(fv, #[trigger] old_f[i]) by {
                    lemma_folder_lt_order(old_f[p as int], fv, old_f[p as int]);
                    lemma_folder_lt_order(fv, old_f[p as int], old_f[i]);
                }
            }
            folders.insert(p, f);
            proof {
                let nf = folder_views(folders@);
                assert(nf =~= old_f.insert(p as int, fv));
                assert forall|i: int, j: int| 0 <= i < j < nf.len() implies folder_lt(#[trigger] nf[i], #[trigger] nf[j]) by {
                    if j < p {
                    } else if j == p {
                    } else if i < p {
                        lemma_folder_lt_order(nf[i], fv, nf[j]);
                    } else if i == p {
                    } else {
                        assert(nf[i] == old_f[i - 1] && nf[j] == old_f[j - 1]);
                    }
                }
                assert forall|x: Option<Seq<char>>| #[trigger] nf.contains(x) <==> exists|m: int| 0 <= m < k + 1 && b[m].folder == x by {
                    if nf.contains(x) {
                        let a = choose|a: int| 0 <= a < nf.len() && nf[a] == x;
                        if a < p {
                            assert(old_f[a] == x);
                            assert(old_f.contains(x));
                        } else if a == p {
                            assert(b[k as int].folder == x);
                        } else {
                            assert(old_f[a - 1] == x);
                            assert(old_f.contains(x));
                        }
                    }
                    if exists|m: int| 0 <= m < k + 1 && b[m].folder == x {
                        let m = choose|m: int| 0 <= m < k + 1 && b[m].folder == x;
                        if m < k {
                            assert(old_f.contains(x));
                            let a = choose|a: int| 0 <= a < old_f.len() && old_f[a] == x;
                            if a < p {
                                assert(nf[a] == x);
                            } else {
                                assert(nf[a + 1] == x);
                            }
                        } else {
                            assert(nf[p as int] == x);
                        }
                    }
                }
            }
        } else {
            proof {
                assert forall|x: Option<Seq<char>>| #[trigger] old_f.contains(x) <==> exists|m: int| 0 <= m < k + 1 && b[m].folder == x by {
                    if exists|m: int| 0 <= m < k + 1 && b[m].folder == x {
                        let m = choose|m: int| 0 <= m < k + 1 && b[m].folder == x;
                        if m == k {
                            assert(old_f[p as int] == x);
                        }
                    }
                }
            }
        }
        k = k + 1;
    }
    folders
}

fn heading(name: &[char], t: &PageTheme) -> (r: String)
    ensures
        r@ == heading_html(name@, *t),
{
    let name_str = string_of(name);
    let name_html = html_escape(name_str.as_str());
    let mut out: Vec<char> = Vec::new();
    push_str(&mut out, "<h2 style=\"margin:12px 0 0;font-size:13px;text-transform:uppercase;letter-spacing:0.05em;color:");
    push_str(&mut out, t.help_heading);
    push_str(&mut out, ";opacity:0.8\">");
    push_str(&mut out, name_html.as_str());
    push_str(&mut out, "</h2>");
    string_of(out.as_slice())
}

fn bookmark_row(index: usize, bm: &Bookmark, t: &PageTheme) -> (r: String)
    ensures
        r@ == bookmark_row_html(index as nat, bm@, *t),
{
    let host = host_of(bm.url.as_str());
    let label = display_label(bm);
    assert(label@ == label_of_view(bm@));
    let letter = initial_letter(label.as_str());
    let favicon = favicon_tile(host.as_str(), letter.as_str(), t);
    let label_attr = html_escape(label.as_str());
    let folder_attr = match &bm.folder {
        Some(f) => html_escape(f.as_str()),
        None => String::new(),
    };
    assert(folder_attr@ == html_escaped(folder_text(bm@.folder)));
    let save = icon_submit_button("Save", CHECKMARK_SVG_PATH, t);
    let mut href: Vec<char> = Vec::new();
    push_str(&mut href, "bookmark://delete/");
    push_decimal(&mut href, index);
    let href = string_of(href.as_slice());
    let delete = icon_link_button(href.as_str(), "Delete", TRASH_SVG_PATH, "", t);
    let mut out: Vec<char> = Vec::new();
    push_str(&mut out, "<div class=\"list-row\" data-open=\"bookmark://open/");
    push_decimal(&mut out, index);
    push_str(&mut out, "\" style=\"display:flex;align-items:center;gap:10px;padding:10px 14px;background:");
    push_str(&mut out, t.help_card_bg);
    push_str(&mut out, ";border-radius:8px;border:1px solid ");
    push_str(&mut out, t.help_card_border);
    push_str(&mut out, "\"><a href=\"bookmark://open/");
    push_decimal(&mut out, index);
    push_str(&mut out, "\" style=\"display:flex;flex-shrink:0\">");
    push_str(&mut out, favicon.as_str());
    push_str(&mut out, "</a><form method=\"get\" action=\"bookmark://rename/");
    push_decimal(&mut out, index);
    push_str(&mut out, "\" style=\"display:flex;align-items:center;gap:6px;flex:1;min-width:0;margin:0\"><span onclick=\"this.style.display='none';this.nextElementSibling.style.display='inline-block';this.nextElementSibling.focus();this.nextElementSibling.select()\" style=\"cursor:text;overflow:hidden;text-overflow:ellipsis;white-space:nowrap;flex:1;color:");
    push_str(&mut out, t.help_fg);
    push_str(&mut out, "\" title=\"Click to rename\">");
    push_str(&mut out, label.as_str());
    push_str(&mut out, "</span><input name=\"title\" value=\"");
    push_str(&mut out, label_attr.as_str());
    push_str(&mut out, "\" style=\"display:none;flex:1;min-width:0;background:");
    push_str(&mut out, t.help_bg);
    push_str(&mut out, ";color:");
    push_str(&mut out, t.help_fg);
    push_str(&mut out, ";border:1px solid ");
    push_str(&mut out, t.help_card_border);
    push_str(&mut out, ";border-radius:4px;padding:2px 6px;font:inherit;font-size:13px\"><input name=\"folder\" value=\"");
    push_str(&mut out, folder_attr.as_str());
    push_str(&mut out, "\" placeholder=\"folder\" style=\"width:70px;flex-shrink:0;background:");
    push_str(&mut out, t.help_bg);
    push_str(&mut out, ";color:");
    push_str(&mut out, t.help_fg);
    push_str(&mut out, ";border:1px solid ");
    push_str(&mut out, t.help_card_border);
    push_str(&mut out, ";border-radius:4px;padding:2px 6px;font:inherit;font-size:12px\">");
    push_str(&mut out, save.as_str());
    push_str(&mut out, "</form>");
    push_str(&mut out, delete.as_str());
    push_str(&mut out, "</div>");
    string_of(out.as_slice())
}

/// Builds the bookmarks page's `data:` URL.
pub fn page_url(theme: &PageTheme, bookmarks: &[Bookmark]) -> (r: String)
    ensures
        r@ == bookmarks_page(*theme, bookmark_views(bookmarks@)),
{
    let t = theme;
    let ghost b = bookmark_views(bookmarks@);
    let mut rows: Vec<char> = Vec::new();
    if bookmarks.len() == 0 {
        push_str(&mut rows, empty_state(t, "No bookmarks yet &mdash; Ctrl+D on a page to add one.").as_str());
    }
    let folders = sorted_folders(bookmarks);
    let ghost order = folder_views(folders@);
    proof {
        assert(is_folder_order(folder_order(b), b));
        lemma_sorted_unique(order, folder_order(b));
    }
    let ghost start = rows@;
    let mut j: usize = 0;
    while j < folders.len()
        invariant
            j <= folders.len(),
            b == bookmark_views(bookmarks@),
            order == folder_views(folders@),
            rows@ == start + groups_upto(b, order, *t, j as nat),
        decreases folders.len() - j,
    {
        let ghost before = rows@;
        match &folders[j] {
            Some(name) => {
                let h = heading(name.as_slice(), t);
                push_str(&mut rows, h.as_str());
            },
            None => {},
        }
        assert(rows@ == before + folder_heading(order[j as int], *t));
        let ghost mid = rows@;
        let mut i: usize = 0;
        while i < bookmarks.len()
            invariant
                i <= bookmarks.len(),
                j < folders.len(),
                b == bookmark_views(bookmarks@),
                order == folder_views(folders@),
                rows@ == mid + group_rows(b, order[j as int], *t, i as nat),
            decreases bookmarks.len() - i,
        {
            let f = folder_of(&bookmarks[i]);
            if folders_eq(&f, &folders[j]) {
                let row = bookmark_row(i, &bookmarks[i], t);
                push_str(&mut rows, row.as_str());
            }
            i = i + 1;
        }
        j = j + 1;
    }
    proof {
        if bookmarks.len() == 0 && order.len() > 0 {
            assert(order.contains(order[0]));
        }
    }
    assert(rows@ == bookmark_rows(b, *t));
    let mut out: Vec<char> = Vec::new();
    push_str(&mut out, "data:text/html;charset=utf-8,");
    push_str(&mut out, LIST_NAV_SCRIPT);
    push_str(&mut out, "<style>");
    push_str(&mut out, icon_button_hover_css(t).as_str());
    push_str(&mut out, ".list-row:hover,.list-row.list-active{background:");
    push_str(&mut out, t.help_key_bg);
    push_str(&mut out, "!important}.list-row:hover span,.list-row.list-active span{color:");
    push_str(&mut out, t.help_key_fg);
    push_str(&mut out, "!important}</style>");
    push_str(&mut out, body_open(t, "").as_str());
    push_str(&mut out, "<h1 style=\"margin:0 0 20px;color:");
    push_str(&mut out, t.help_heading);
    push_str(&mut out, ";font-size:20px\">Bookmarks</h1><div style=\"display:flex;flex-direction:column;gap:8px\">");
    push_all(&mut out, rows.as_slice());
    push_str(&mut out, "</div></body>");
    string_of(out.as_slice())
}

} // verus!
