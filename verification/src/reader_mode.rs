//! Reader mode: the themes and the script that rewrites a page to its
//! main content (the longest run of paragraphs) in the theme's colors.

use vstd::prelude::*;
use crate::text::{push_str, string_of};

verus! {

/// Colors of one reader-mode theme.
#[derive(Clone, Copy)]
pub struct ReaderTheme {
    pub name: &'static str,
    pub bg: &'static str,
    pub fg: &'static str,
    pub accent: &'static str,
}

/// How many reader themes there are (Light, Sepia, Dark).
pub const READER_THEME_COUNT: usize = 3;

/// Light, Sepia and Dark, in that order.
pub open spec fn reader_theme_spec(index: usize) -> Option<ReaderTheme> {
    if index == 0 {
        Some(ReaderTheme { name: "Light", bg: "#ffffff", fg: "#1a1a1a", accent: "#1a73e8" })
    } else if index == 1 {
        Some(ReaderTheme { name: "Sepia", bg: "#f4ecd8", fg: "#3b3629", accent: "#8a5a2b" })
    } else if index == 2 {
        Some(ReaderTheme { name: "Dark", bg: "#1a1a1a", fg: "#d8d8d8", accent: "#7aa2f7" })
    } else {
        None
    }
}

/// The reader theme at `index`.
pub fn reader_theme(index: usize) -> (r: Option<ReaderTheme>)
    ensures
        r == reader_theme_spec(index),
        r is Some <==> index < READER_THEME_COUNT,
{
    if index == 0 {
        Some(ReaderTheme { name: "Light", bg: "#ffffff", fg: "#1a1a1a", accent: "#1a73e8" })
    } else if index == 1 {
        Some(ReaderTheme { name: "Sepia", bg: "#f4ecd8", fg: "#3b3629", accent: "#8a5a2b" })
    } else if index == 2 {
        Some(ReaderTheme { name: "Dark", bg: "#1a1a1a", fg: "#d8d8d8", accent: "#7aa2f7" })
    } else {
        None
    }
}

/// The theme the settings select, or the first when the index is out of range.
pub fn theme_or_first(index: usize) -> (r: ReaderTheme)
    ensures
        index < READER_THEME_COUNT ==> Some(r) == reader_theme_spec(index),
        index >= READER_THEME_COUNT ==> Some(r) == reader_theme_spec(0),
{
    match reader_theme(index) {
        Some(t) => t,
        None => {
            let t = reader_theme(0);
            t.unwrap()
        },
    }
}

/// Reader-mode script up to the background color.
pub const READER_SCRIPT_HEAD: &'static str = "\n(function() {\n  function textLen(el) { return (el.innerText || '').length; }\n  function score(el) {\n    var ps = el.querySelectorAll('p');\n    var total = 0;\n    for (var i = 0; i < ps.length; i++) total += textLen(ps[i]);\n    return total;\n  }\n  var candidates = document.querySelectorAll('article, main, [role=\"main\"], div, section');\n  var best = document.body, bestScore = 0;\n  for (var i = 0; i < candidates.length; i++) {\n    var s = score(candidates[i]);\n    if (s > bestScore) { bestScore = s; best = candidates[i]; }\n  }\n  var clone = best.cloneNode(true);\n  var junk = clone.querySelectorAll('script, style, noscript, iframe');\n  for (var j = 0; j < junk.length; j++) junk[j].remove();\n\n  var title = document.title || '';\n  var escTitle = title.replace(/&/g, '&amp;').replace(/</g, '&lt;');\n  var contentHtml = clone.innerHTML;\n\n  document.open();\n  document.write(\n    '<!doctype html><html><head><meta charset=\"utf-8\"><title>' + escTitle + '</title>' +\n    '<style>' +\n    'html,body{margin:0;padding:0;background:";

/// Between the background and the text color.
pub const READER_SCRIPT_AFTER_BG: &'static str = ";color:";

/// Between the text color and the link color.
pub const READER_SCRIPT_AFTER_FG: &'static str = ";overflow-x:hidden}' +\n    '.spatial-reader{max-width:680px;margin:0 auto;padding:48px 24px 96px;' +\n      'font-family:Georgia,\\'Times New Roman\\',serif;font-size:19px;line-height:1.7;' +\n      'word-wrap:break-word;overflow-x:hidden}' +\n    // Override inline width/absolute leftovers from the source page.\n    '.spatial-reader *{max-width:100%!important;box-sizing:border-box;' +\n      'position:static!important;float:none!important}' +\n    '.spatial-reader img,.spatial-reader video,.spatial-reader svg,' +\n      '.spatial-reader picture,.spatial-reader canvas{height:auto!important}' +\n    '.spatial-reader h1{font-size:30px;line-height:1.3;margin:0 0 28px}' +\n    '.spatial-reader a{color:";

/// After the link color.
pub const READER_SCRIPT_TAIL: &'static str = "}' +\n    '</style></head><body><div class=\"spatial-reader\"><h1>' + escTitle + '</h1>' +\n    contentHtml + '</div></body></html>'\n  );\n  document.close();\n})();\n";

/// The extract-and-rewrite script for a theme: the fixed text with the
/// theme's background, text and link colors put in.
pub open spec fn reader_script(bg: Seq<char>, fg: Seq<char>, accent: Seq<char>) -> Seq<char> {
    READER_SCRIPT_HEAD@ + bg + READER_SCRIPT_AFTER_BG@ + fg + READER_SCRIPT_AFTER_FG@ + accent
        + READER_SCRIPT_TAIL@
}

/// Extract+rewrite script; scripts are stripped from a clone before the
/// document is rewritten.
pub fn extract_script(theme: &ReaderTheme) -> (r: String)
    ensures
        r@ == reader_script(theme.bg@, theme.fg@, theme.accent@),
{
    let mut out: Vec<char> = Vec::new();
    push_str(&mut out, READER_SCRIPT_HEAD);
    push_str(&mut out, theme.bg);
    push_str(&mut out, READER_SCRIPT_AFTER_BG);
    push_str(&mut out, theme.fg);
    push_str(&mut out, READER_SCRIPT_AFTER_FG);
    push_str(&mut out, theme.accent);
    push_str(&mut out, READER_SCRIPT_TAIL);
    string_of(out.as_slice())
}

} // verus!
