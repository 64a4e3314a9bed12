//! The new-page omnibox: a search-or-URL field (with `@` prefixes for other
//! search engines) and chips for the most recent typed entries.

use vstd::prelude::*;
use crate::pages::{
    default_engine_override, engine_override_of, html_escape, html_escaped, js_string_literal,
    js_string_literal_of, PageTheme,
};
use crate::text::{push_all, push_str, string_of};

verus! {

/// How many recent entries get a chip.
pub const MAX_CHIPS: usize = 10;

/// Resolves what was typed (prefix engines, URLs, bare hosts, searches)
/// and reports it.
pub const OMNIBOX_SCRIPT: &'static str = "<script>\nconst PREFIXES = {\n  '@g': 'https://www.google.com/search?q=',\n  '@y': 'https://www.youtube.com/results?search_query=',\n  '@ddg': 'https://duckduckgo.com/?q=',\n  '@bing': 'https://www.bing.com/search?q=',\n  '@wiki': 'https://en.wikipedia.org/w/index.php?search='\n};\n// `var`: a following script reassigns DEFAULT_ENGINE from Settings.\nvar DEFAULT_ENGINE = 'https://www.google.com/search?q=';\nfunction resolve(raw) {\n  const trimmed = raw.trim();\n  // Prefix lookup is case-insensitive (`@G rust` works same as `@g\n  // rust`) — PREFIXES' own keys are already all-lowercase, so only the\n  // matched prefix needs lowercasing before the lookup.\n  const m = trimmed.match(/^(@[a-zA-Z]+)\\s+(.*)$/);\n  if (m && PREFIXES[m[1].toLowerCase()]) return PREFIXES[m[1].toLowerCase()] + encodeURIComponent(m[2]);\n  if (/^[a-zA-Z][a-zA-Z0-9+.-]*:\\/\\//.test(trimmed)) return trimmed;\n  if (/^[^\\s]+\\.[^\\s]+$/.test(trimmed)) return 'https://' + trimmed;\n  return DEFAULT_ENGINE + encodeURIComponent(trimmed);\n}\nfunction go(raw) {\n  if (!raw) return;\n  const dest = resolve(raw);\n  window.location = 'omnibox://go?q=' + encodeURIComponent(raw) + '&url=' + encodeURIComponent(dest);\n}\n</script>";

/// One recent entry's chip.
pub open spec fn chip_html(entry: Seq<char>, t: PageTheme) -> Seq<char> {
    "<button onclick=\"go("@
        + js_string_literal_of(entry)
        + ")\" style=\"background:"@
        + t.help_card_bg@
        + ";color:"@
        + t.help_fg@
        + ";border:1px solid "@
        + t.help_card_border@
        + ";border-radius:6px;padding:6px 10px;font:inherit;font-size:13px;cursor:pointer;margin:0 6px 6px 0\">"@
        + html_escaped(entry)
        + "</button>"@
}

/// The chips of the first `n` entries.
pub open spec fn chips_upto(h: Seq<Seq<char>>, t: PageTheme, n: nat) -> Seq<char>
    decreases n,
{
    if n == 0 {
        Seq::empty()
    } else {
        chips_upto(h, t, (n - 1) as nat) + chip_html(h[n - 1], t)
    }
}

/// The whole page as a `data:` URL, with chips for the first
/// `MAX_CHIPS` entries of `typed`.
pub open spec fn omnibox_page(t: PageTheme, typed: Seq<Seq<char>>, default_search_engine: Seq<char>) -> Seq<char> {
    let chips = chips_upto(typed, t, if typed.len() < MAX_CHIPS { typed.len() } else { MAX_CHIPS as nat });
    "data:text/html;charset=utf-8,"@
        + OMNIBOX_SCRIPT@
        + engine_override_of(default_search_engine)
        + "<body style=\"margin:0;padding:64px 48px;background:"@
        + t.help_bg@
        + ";color:"@
        + t.help_fg@
        + ";font-family:ui-monospace,monospace;font-size:15px\"><form onsubmit=\"go(document.getElementById('q').value);return false\"><input id=\"q\" autofocus placeholder=\"Search or type a URL &mdash; try @y, @ddg, @wiki, @bing...\" style=\"width:100%;box-sizing:border-box;background:"@
        + t.help_card_bg@
        + ";color:"@
        + t.help_fg@
        + ";border:1px solid "@
        + t.help_card_border@
        + ";border-radius:8px;padding:14px 16px;font:inherit;font-size:18px\"></form><div style=\"margin-top:20px\">"@
        + chips
        + "</div></body>"@
}

pub open spec fn string_views(v: Seq<String>) -> Seq<Seq<char>> {
    v.map_values(|s: String| s@)
}

fn chip(entry: &str, t: &PageTheme) -> (r: String)
    ensures
        r@ == chip_html(entry@, *t),
{
    let entry_js = js_string_literal(entry);
    let entry_html = html_escape(entry);
    let mut out: Vec<char> = Vec::new();
    push_str(&mut out, "<button onclick=\"go(");
    push_str(&mut out, entry_js.as_str());
    push_str(&mut out, ")\" style=\"background:");
    push_str(&mut out, t.help_card_bg);
    push_str(&mut out, ";color:");
    push_str(&mut out, t.help_fg);
    push_str(&mut out, ";border:1px solid ");
    push_str(&mut out, t.help_card_border);
    push_str(&mut out, ";border-radius:6px;padding:6px 10px;font:inherit;font-size:13px;cursor:pointer;margin:0 6px 6px 0\">");
    push_str(&mut out, entry_html.as_str());
    push_str(&mut out, "</button>");
    string_of(out.as_slice())
}

/// Builds the omnibox page's `data:` URL: chips for the newest typed
/// entries, and `default_search_engine` for plain searches.
pub fn page_url(theme: &PageTheme, typed_history: &[String], default_search_engine: &str) -> (r: String)
    ensures
        r@ == omnibox_page(*theme, string_views(typed_history@), default_search_engine@),
{
    let t = theme;
    let ghost h = string_views(typed_history@);
    let n = if typed_history.len() < MAX_CHIPS { typed_history.len() } else { MAX_CHIPS };
    let mut chips: Vec<char> = Vec::new();
    let mut i: usize = 0;
    while i < n
        invariant
            i <= n,
            n <= typed_history.len(),
            h == string_views(typed_history@),
            chips@ == chips_upto(h, *t, i as nat),
        decreases n - i,
    {
        let c = chip(typed_history[i].as_str(), t);
        push_str(&mut chips, c.as_str());
        i = i + 1;
    }
    let engine = default_engine_override(default_search_engine);
    let mut out: Vec<char> = Vec::new();
    push_str(&mut out, "data:text/html;charset=utf-8,");
    push_str(&mut out, OMNIBOX_SCRIPT);
    push_str(&mut out, engine.as_str());
    push_str(&mut out, "<body style=\"margin:0;padding:64px 48px;background:");
    push_str(&mut out, t.help_bg);
    push_str(&mut out, ";color:");
    push_str(&mut out, t.help_fg);
    push_str(&mut out, ";font-family:ui-monospace,monospace;font-size:15px\"><form onsubmit=\"go(document.getElementById('q').value);return false\"><input id=\"q\" autofocus placeholder=\"Search or type a URL &mdash; try @y, @ddg, @wiki, @bing...\" style=\"width:100%;box-sizing:border-box;background:");
    push_str(&mut out, t.help_card_bg);
    push_str(&mut out, ";color:");
    push_str(&mut out, t.help_fg);
    push_str(&mut out, ";border:1px solid ");
    push_str(&mut out, t.help_card_border);
    push_str(&mut out, ";border-radius:8px;padding:14px 16px;font:inherit;font-size:18px\"></form><div style=\"margin-top:20px\">");
    push_all(&mut out, chips.as_slice());
    push_str(&mut out, "</div></body>");
    string_of(out.as_slice())
}

} // verus!
