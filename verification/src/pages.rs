//! Escaping and encoding for the generated `data:` chrome pages, and the
//! right-click menu's item list (which items appear for which hit target).

use vstd::prelude::*;
use vstd::utf8::encode_utf8;
use crate::text::{
    ascii_char, bytes_of, chars_of, flat_map_bytes, flat_map_chars, lemma_flat_map_bytes_step,
    lemma_flat_map_chars_step, percent_byte, push_percent_byte, push_str, string_of,
};

pub mod bookmarks_list;
pub mod context_menu;
pub mod downloads_list;
pub mod help;
pub mod history_list;
pub mod omnibox;
pub mod passwords_list;
pub mod settings_list;
pub mod switcher;
pub mod userscripts_list;
pub mod workspace_list;

verus! {

/// HTML escape of one character.
pub open spec fn html_char(c: char) -> Seq<char> {
    if c == '&' {
        "&amp;"@
    } else if c == '"' {
        "&quot;"@
    } else if c == '<' {
        "&lt;"@
    } else if c == '>' {
        "&gt;"@
    } else {
        seq![c]
    }
}

/// `&`, `"`, `<`, `>` escaped for HTML text and double-quoted attributes.
pub open spec fn html_escaped(s: Seq<char>) -> Seq<char> {
    flat_map_chars(s, |c: char| html_char(c))
}

/// Backslash and single quote escaped for a single-quoted JS literal.
pub open spec fn js_quote_char(c: char) -> Seq<char> {
    if c == '\\' {
        seq!['\\', '\\']
    } else if c == '\'' {
        seq!['\\', '\'']
    } else {
        seq![c]
    }
}

pub open spec fn js_quote_escaped(s: Seq<char>) -> Seq<char> {
    flat_map_chars(s, |c: char| js_quote_char(c))
}

/// A JS single-quoted literal that is safe inside a double-quoted HTML attribute.
pub open spec fn js_string_literal_of(s: Seq<char>) -> Seq<char> {
    seq!['\''] + html_escaped(js_quote_escaped(s)) + seq!['\'']
}

/// A character that can neither open or close a tag nor end a
/// double-quoted attribute.
pub open spec fn inert(c: char) -> bool {
    c != '<' && c != '>' && c != '"'
}

/// Escaped text is inert: it holds no `<`, `>` or `"`, so it can stand in
/// page text or inside a double-quoted attribute.
pub proof fn law_html_escaped_inert(s: Seq<char>)
    ensures
        forall|i: int| 0 <= i < html_escaped(s).len() ==> inert(#[trigger] html_escaped(s)[i]),
    decreases s.len(),
{
    reveal_strlit("&amp;");
    reveal_strlit("&quot;");
    reveal_strlit("&lt;");
    reveal_strlit("&gt;");
    if s.len() > 0 {
        law_html_escaped_inert(s.drop_last());
        let a = html_escaped(s.drop_last());
        let b = html_char(s.last());
        assert(html_escaped(s) == a + b);
        assert forall|i: int| 0 <= i < (a + b).len() implies inert(#[trigger] (a + b)[i]) by {
            if i < a.len() {
                assert((a + b)[i] == a[i]);
            } else {
                assert((a + b)[i] == b[i - a.len()]);
            }
        }
    }
}

/// A JS literal made by `js_string_literal` is quoted with `'` at both
/// ends and inert throughout, so it is safe in a double-quoted attribute.
pub proof fn law_js_literal_inert(s: Seq<char>)
    ensures
        js_string_literal_of(s).len() >= 2,
        js_string_literal_of(s)[0] == '\'',
        js_string_literal_of(s).last() == '\'',
        forall|i: int| 0 <= i < js_string_literal_of(s).len() ==> inert(#[trigger] js_string_literal_of(s)[i]),
{
    let e = html_escaped(js_quote_escaped(s));
    law_html_escaped_inert(js_quote_escaped(s));
    let r = seq!['\''] + e + seq!['\''];
    assert(js_string_literal_of(s) == r);
    assert forall|i: int| 0 <= i < r.len() implies inert(#[trigger] r[i]) by {
        if i == 0 {
        } else if i <= e.len() {
            assert(r[i] == e[i - 1]);
        } else {
            assert(r[i] == '\'');
        }
    }
}

fn push_html_char(out: &mut Vec<char>, c: char)
    ensures
        final(out)@ == old(out)@ + html_char(c),
{
    if c == '&' {
        push_str(out, "&amp;");
    } else if c == '"' {
        push_str(out, "&quot;");
    } else if c == '<' {
        push_str(out, "&lt;");
    } else if c == '>' {
        push_str(out, "&gt;");
    } else {
        out.push(c);
        assert(final(out)@ == old(out)@ + seq![c]);
    }
}

fn html_escape_chars(s: &[char]) -> (r: Vec<char>)
    ensures
        r@ == html_escaped(s@),
{
    let mut out: Vec<char> = Vec::new();
    let mut i: usize = 0;
    while i < s.len()
        invariant
            i <= s@.len(),
            out@ == html_escaped(s@.take(i as int)),
        decreases s@.len() - i,
    {
        proof {
            lemma_flat_map_chars_step(s@, |c: char| html_char(c), i as int);
        }
        push_html_char(&mut out, s[i]);
        i = i + 1;
    }
    assert(s@.take(s@.len() as int) == s@);
    out
}

/// `&`, `"`, `<`, `>` escaped.
pub fn html_escape(s: &str) -> (r: String)
    ensures
        r@ == html_escaped(s@),
{
    let v = chars_of(s);
    let out = html_escape_chars(v.as_slice());
    string_of(out.as_slice())
}

fn js_quote_escape_chars(s: &[char]) -> (r: Vec<char>)
    ensures
        r@ == js_quote_escaped(s@),
{
    let mut out: Vec<char> = Vec::new();
    let mut i: usize = 0;
    while i < s.len()
        invariant
            i <= s@.len(),
            out@ == js_quote_escaped(s@.take(i as int)),
        decreases s@.len() - i,
    {
        proof {
            lemma_flat_map_chars_step(s@, |c: char| js_quote_char(c), i as int);
        }
        let c = s[i];
        if c == '\\' {
            out.push('\\');
            out.push('\\');
        } else if c == '\'' {
            out.push('\\');
            out.push('\'');
        } else {
            out.push(c);
        }
        i = i + 1;
    }
    assert(s@.take(s@.len() as int) == s@);
    out
}

/// JS single-quoted literal safe inside a double-quoted HTML attribute.
pub fn js_string_literal(s: &str) -> (r: String)
    ensures
        r@ == js_string_literal_of(s@),
{
    let v = chars_of(s);
    let quoted = js_quote_escape_chars(v.as_slice());
    let escaped = html_escape_chars(quoted.as_slice());
    let mut out: Vec<char> = Vec::new();
    out.push('\'');
    let mut i: usize = 0;
    while i < escaped.len()
        invariant
            i <= escaped@.len(),
            out@ == seq!['\''] + escaped@.take(i as int),
        decreases escaped@.len() - i,
    {
        out.push(escaped[i]);
        i = i + 1;
        assert(escaped@.take(i as int) == escaped@.take(i - 1).push(escaped@[i - 1]));
    }
    assert(escaped@.take(escaped@.len() as int) == escaped@);
    out.push('\'');
    string_of(out.as_slice())
}

/// Bytes kept as they are by `urlencoding_minimal`.
pub open spec fn unreserved(b: u8) -> bool {
    (65 <= b && b <= 90) || (97 <= b && b <= 122) || (48 <= b && b <= 57) || b == 45 || b == 95
        || b == 46 || b == 126
}

/// Bytes kept as they are by `urlencoding_path` (no `~`).
pub open spec fn path_safe(b: u8) -> bool {
    unreserved(b) && b != 126
}

pub open spec fn min_encode_byte(b: u8) -> Seq<char> {
    if unreserved(b) {
        seq![b as char]
    } else {
        percent_byte(b)
    }
}

pub open spec fn path_encode_byte(b: u8) -> Seq<char> {
    if path_safe(b) {
        seq![b as char]
    } else {
        percent_byte(b)
    }
}

/// Percent-encoding of the UTF-8 bytes of `s`, keeping `A-Z a-z 0-9 - _ . ~`.
pub open spec fn url_encoded_minimal(s: Seq<char>) -> Seq<char> {
    flat_map_bytes(encode_utf8(s), |b: u8| min_encode_byte(b))
}

/// Percent-encoding of the UTF-8 bytes of `s`, keeping `A-Z a-z 0-9 - _ .`.
pub open spec fn url_encoded_path(s: Seq<char>) -> Seq<char> {
    flat_map_bytes(encode_utf8(s), |b: u8| path_encode_byte(b))
}

fn is_unreserved(b: u8) -> (r: bool)
    ensures
        r == unreserved(b),
{
    (65 <= b && b <= 90) || (97 <= b && b <= 122) || (48 <= b && b <= 57) || b == 45 || b == 95
        || b == 46 || b == 126
}

fn encode_bytes(bytes: &[u8], keep_tilde: bool) -> (r: Vec<char>)
    ensures
        keep_tilde ==> r@ == flat_map_bytes(bytes@, |b: u8| min_encode_byte(b)),
        !keep_tilde ==> r@ == flat_map_bytes(bytes@, |b: u8| path_encode_byte(b)),
{
    let mut out: Vec<char> = Vec::new();
    let mut i: usize = 0;
    while i < bytes.len()
        invariant
            i <= bytes@.len(),
            keep_tilde ==> out@ == flat_map_bytes(bytes@.take(i as int), |b: u8| min_encode_byte(b)),
            !keep_tilde ==> out@ == flat_map_bytes(
                bytes@.take(i as int),
                |b: u8| path_encode_byte(b),
            ),
        decreases bytes@.len() - i,
    {
        proof {
            lemma_flat_map_bytes_step(bytes@, |b: u8| min_encode_byte(b), i as int);
            lemma_flat_map_bytes_step(bytes@, |b: u8| path_encode_byte(b), i as int);
        }
        let b = bytes[i];
        if is_unreserved(b) && (keep_tilde || b != 126) {
            let c = ascii_char(b);
            out.push(c);
        } else {
            push_percent_byte(&mut out, b);
        }
        i = i + 1;
    }
    assert(bytes@.take(bytes@.len() as int) == bytes@);
    out
}

/// Percent-encode every byte outside `A-Z a-z 0-9 - _ . ~` (upper-case hex).
pub fn urlencoding_minimal(s: &str) -> (r: String)
    ensures
        r@ == url_encoded_minimal(s@),
{
    let bytes = bytes_of(s);
    let out = encode_bytes(bytes.as_slice(), true);
    string_of(out.as_slice())
}

/// Percent-encode every byte outside `A-Z a-z 0-9 - _ .` (upper-case hex).
pub fn urlencoding_path(s: &str) -> (r: String)
    ensures
        r@ == url_encoded_path(s@),
{
    let bytes = bytes_of(s);
    let out = encode_bytes(bytes.as_slice(), false);
    string_of(out.as_slice())
}

pub open spec fn lite_char(c: char) -> Seq<char> {
    if c == ':' {
        "%3A"@
    } else if c == '/' {
        "%2F"@
    } else if c == '?' {
        "%3F"@
    } else if c == '=' {
        "%3D"@
    } else if c == '&' {
        "%26"@
    } else {
        seq![c]
    }
}

/// `:` `/` `?` `=` `&` percent-encoded, everything else kept.
pub open spec fn url_encoded_lite(s: Seq<char>) -> Seq<char> {
    flat_map_chars(s, |c: char| lite_char(c))
}

/// Encodes the characters that would break a `settings://...?engine=` link.
pub fn urlencoding_lite(s: &str) -> (r: String)
    ensures
        r@ == url_encoded_lite(s@),
{
    let v = chars_of(s);
    let mut out: Vec<char> = Vec::new();
    let mut i: usize = 0;
    while i < v.len()
        invariant
            i <= v@.len(),
            v@ == s@,
            out@ == url_encoded_lite(v@.take(i as int)),
        decreases v@.len() - i,
    {
        proof {
            lemma_flat_map_chars_step(v@, |c: char| lite_char(c), i as int);
        }
        let c = v[i];
        if c == ':' {
            push_str(&mut out, "%3A");
        } else if c == '/' {
            push_str(&mut out, "%2F");
        } else if c == '?' {
            push_str(&mut out, "%3F");
        } else if c == '=' {
            push_str(&mut out, "%3D");
        } else if c == '&' {
            push_str(&mut out, "%26");
        } else {
            out.push(c);
            assert(out@ == url_encoded_lite(v@.take(i as int)) + seq![c]);
        }
        i = i + 1;
    }
    assert(v@.take(v@.len() as int) == v@);
    string_of(out.as_slice())
}

/// `On` / `Off` for a settings toggle.
pub fn on_off(v: bool) -> (r: &'static str)
    ensures
        r@ == if v {
            "On"@
        } else {
            "Off"@
        },
{
    if v {
        "On"
    } else {
        "Off"
    }
}

/// `<script>` that overrides the omnibox's default search engine.
pub open spec fn engine_override_of(engine: Seq<char>) -> Seq<char> {
    "<script>DEFAULT_ENGINE = '"@ + js_quote_escaped(engine) + "';</script>"@
}

/// Separate script after the omnibox script that sets its default engine.
pub fn default_engine_override(default_engine: &str) -> (r: String)
    ensures
        r@ == engine_override_of(default_engine@),
{
    let v = chars_of(default_engine);
    let escaped = js_quote_escape_chars(v.as_slice());
    let mut out: Vec<char> = Vec::new();
    push_str(&mut out, "<script>DEFAULT_ENGINE = '");
    crate::text::push_all(&mut out, escaped.as_slice());
    push_str(&mut out, "';</script>");
    string_of(out.as_slice())
}

/// What was under the cursor when the context menu opened.
#[derive(Clone)]
pub struct MenuContext {
    pub on_canvas: bool,
    pub page_url: Option<String>,
    pub link: Option<String>,
    pub image: Option<String>,
    pub password_field: bool,
    pub target_browser_id: Option<i32>,
}

/// The text of a present, non-empty optional string.
pub open spec fn non_empty(o: Option<String>) -> Option<Seq<char>> {
    match o {
        Some(s) => if s@.len() > 0 {
            Some(s@)
        } else {
            None
        },
        None => None,
    }
}

pub open spec fn password_items() -> Seq<(Seq<char>, Seq<char>)> {
    seq![
        ("Generate password"@, "context://gen-password"@),
        ("Fill / open vault"@, "context://fill-password"@),
    ]
}

/// The menu's `(label, href)` rows for `ctx`, in display order.
pub open spec fn menu_items(ctx: MenuContext) -> Seq<(Seq<char>, Seq<char>)> {
    let link_items = match non_empty(ctx.link) {
        Some(l) => seq![
            ("Open link in new page"@, "context://open-link?url="@ + url_encoded_minimal(l)),
            ("Copy link"@, "context://copy?text="@ + url_encoded_minimal(l)),
        ],
        None => Seq::empty(),
    };
    let image_items = match non_empty(ctx.image) {
        Some(i) => seq![
            ("Copy image address"@, "context://copy?text="@ + url_encoded_minimal(i)),
            ("Save image"@, "context://save-image?url="@ + url_encoded_minimal(i)),
        ],
        None => Seq::empty(),
    };
    let field_items = if ctx.password_field {
        password_items()
    } else {
        Seq::empty()
    };
    let page_items = if !ctx.on_canvas {
        let copy_url = match non_empty(ctx.page_url) {
            Some(u) => if ctx.link is None {
                seq![("Copy page URL"@, "context://copy?text="@ + url_encoded_minimal(u))]
            } else {
                Seq::empty()
            },
            None => Seq::empty(),
        };
        copy_url + seq![("Reader mode"@, "context://reader"@)] + (if !ctx.password_field {
            password_items()
        } else {
            Seq::empty()
        }) + seq![("Close page"@, "context://close-page"@)]
    } else {
        Seq::empty()
    };
    link_items + image_items + field_items + page_items + seq![
        ("New page"@, "context://new-page"@),
        ("Save as workspace"@, "context://save-workspace"@),
    ]
}

/// The views of a list of menu rows.
pub open spec fn item_views(v: Seq<(&'static str, String)>) -> Seq<(Seq<char>, Seq<char>)> {
    v.map_values(|p: (&'static str, String)| (p.0@, p.1@))
}

fn push_item(items: &mut Vec<(&'static str, String)>, label: &'static str, href: Vec<char>)
    ensures
        item_views(final(items)@) == item_views(old(items)@).push((label@, href@)),
{
    let h = string_of(href.as_slice());
    items.push((label, h));
    assert(item_views(final(items)@) =~= item_views(old(items)@).push((label@, href@)));
}

fn href_with(prefix: &str, value: &str) -> (r: Vec<char>)
    ensures
        r@ == prefix@ + url_encoded_minimal(value@),
{
    let enc = urlencoding_minimal(value);
    let mut out: Vec<char> = Vec::new();
    push_str(&mut out, prefix);
    push_str(&mut out, enc.as_str());
    out
}

fn plain(s: &str) -> (r: Vec<char>)
    ensures
        r@ == s@,
{
    chars_of(s)
}

fn non_empty_ref(o: &Option<String>) -> (r: Option<&String>)
    ensures
        match r {
            Some(s) => non_empty(*o) == Some(s@),
            None => non_empty(*o) is None,
        },
{
    match o {
        Some(s) => if !s.as_str().is_empty() {
            Some(s)
        } else {
            None
        },
        None => None,
    }
}

/// Builds the label/href list (shared by the menu page and its size estimate).
pub fn items(ctx: &MenuContext) -> (r: Vec<(&'static str, String)>)
    ensures
        item_views(r@) == menu_items(*ctx),
{
    let mut items: Vec<(&'static str, String)> = Vec::new();
    if let Some(link) = non_empty_ref(&ctx.link) {
        push_item(&mut items, "Open link in new page", href_with("context://open-link?url=", link.as_str()));
        push_item(&mut items, "Copy link", href_with("context://copy?text=", link.as_str()));
    }
    let ghost a = item_views(items@);
    if let Some(img) = non_empty_ref(&ctx.image) {
        push_item(&mut items, "Copy image address", href_with("context://copy?text=", img.as_str()));
        push_item(&mut items, "Save image", href_with("context://save-image?url=", img.as_str()));
    }
    let ghost b = item_views(items@);
    if ctx.password_field {
        push_item(&mut items, "Generate password", plain("context://gen-password"));
        push_item(&mut items, "Fill / open vault", plain("context://fill-password"));
    }
    let ghost c = item_views(items@);
    if !ctx.on_canvas {
        if let Some(url) = non_empty_ref(&ctx.page_url) {
            if ctx.link.is_none() {
                push_item(&mut items, "Copy page URL", href_with("context://copy?text=", url.as_str()));
            }
        }
        push_item(&mut items, "Reader mode", plain("context://reader"));
        if !ctx.password_field {
            push_item(&mut items, "Generate password", plain("context://gen-password"));
            push_item(&mut items, "Fill / open vault", plain("context://fill-password"));
        }
        push_item(&mut items, "Close page", plain("context://close-page"));
    }
    let ghost d = item_views(items@);
    push_item(&mut items, "New page", plain("context://new-page"));
    push_item(&mut items, "Save as workspace", plain("context://save-workspace"));
    proof {
        let m = menu_items(*ctx);
        assert(item_views(items@) =~= m);
    }
    items
}


/// The colors that the generated pages take from the active theme: CSS
/// `rgb()` strings, never hex, since a `#` would start the `data:` URL's
/// fragment and cut the document short.
#[derive(Clone, Copy)]
pub struct PageTheme {
    pub name: &'static str,
    pub help_bg: &'static str,
    pub help_fg: &'static str,
    pub help_heading: &'static str,
    pub help_card_bg: &'static str,
    pub help_card_border: &'static str,
    pub help_key_bg: &'static str,
    pub help_key_fg: &'static str,
}

/// How many themes there are to cycle through.
pub const PAGE_THEME_COUNT: usize = 2;

/// The page colors of each theme, in cycle order: Tokyo Night, then
/// ANSI Terminal.
pub open spec fn page_theme_spec(index: usize) -> PageTheme {
    if index == 0 {
        PageTheme {
            name: "Tokyo Night",
            help_bg: "rgb(26,27,38)",
            help_fg: "rgb(169,177,214)",
            help_heading: "rgb(192,202,245)",
            help_card_bg: "rgb(36,40,59)",
            help_card_border: "rgb(65,72,104)",
            help_key_bg: "rgb(122,162,247)",
            help_key_fg: "rgb(19,20,28)",
        }
    } else {
        PageTheme {
            name: "ANSI Terminal",
            help_bg: "rgb(5,5,5)",
            help_fg: "rgb(220,220,220)",
            help_heading: "rgb(255,153,51)",
            help_card_bg: "rgb(18,18,18)",
            help_card_border: "rgb(255,153,51)",
            help_key_bg: "rgb(255,153,51)",
            help_key_fg: "rgb(0,0,0)",
        }
    }
}

/// A color free of `#`, which would end a `data:` URL's document.
pub open spec fn no_hash(s: Seq<char>) -> bool {
    forall|i: int| 0 <= i < s.len() ==> s[i] != '#'
}

/// Every theme's page colors are `rgb()` strings with no `#` in them.
pub proof fn law_theme_colors_have_no_hash(index: usize)
    requires
        index < PAGE_THEME_COUNT,
    ensures
        no_hash(page_theme_spec(index).help_bg@),
        no_hash(page_theme_spec(index).help_fg@),
        no_hash(page_theme_spec(index).help_heading@),
        no_hash(page_theme_spec(index).help_card_bg@),
        no_hash(page_theme_spec(index).help_card_border@),
        no_hash(page_theme_spec(index).help_key_bg@),
        no_hash(page_theme_spec(index).help_key_fg@),
{
    reveal_strlit("rgb(26,27,38)");
    reveal_strlit("rgb(169,177,214)");
    reveal_strlit("rgb(192,202,245)");
    reveal_strlit("rgb(36,40,59)");
    reveal_strlit("rgb(65,72,104)");
    reveal_strlit("rgb(122,162,247)");
    reveal_strlit("rgb(19,20,28)");
    reveal_strlit("rgb(5,5,5)");
    reveal_strlit("rgb(220,220,220)");
    reveal_strlit("rgb(255,153,51)");
    reveal_strlit("rgb(18,18,18)");
    reveal_strlit("rgb(0,0,0)");
}

/// The page colors of the theme at `index` in the cycle.
pub fn page_theme(index: usize) -> (t: PageTheme)
    requires
        index < PAGE_THEME_COUNT,
    ensures
        t == page_theme_spec(index),
{
    if index == 0 {
        PageTheme {
            name: "Tokyo Night",
            help_bg: "rgb(26,27,38)",
            help_fg: "rgb(169,177,214)",
            help_heading: "rgb(192,202,245)",
            help_card_bg: "rgb(36,40,59)",
            help_card_border: "rgb(65,72,104)",
            help_key_bg: "rgb(122,162,247)",
            help_key_fg: "rgb(19,20,28)",
        }
    } else {
        PageTheme {
            name: "ANSI Terminal",
            help_bg: "rgb(5,5,5)",
            help_fg: "rgb(220,220,220)",
            help_heading: "rgb(255,153,51)",
            help_card_bg: "rgb(18,18,18)",
            help_card_border: "rgb(255,153,51)",
            help_key_bg: "rgb(255,153,51)",
            help_key_fg: "rgb(0,0,0)",
        }
    }
}

/// Trash-can icon (Material "delete").
pub const TRASH_SVG_PATH: &'static str =
    "M6 19c0 1.1.9 2 2 2h8c1.1 0 2-.9 2-2V7H6v12zM19 4h-3.5l-1-1h-5l-1 1H5v2h14V4z";

/// Checkmark icon (Material "done").
pub const CHECKMARK_SVG_PATH: &'static str = "M9 16.2 4.8 12l-1.4 1.4L9 19 21 7l-1.4-1.4z";

/// `<body>` with the theme's page colors and extra attributes.
pub open spec fn body_open_html(t: PageTheme, extra_attrs: Seq<char>) -> Seq<char> {
    "<body "@
        + extra_attrs
        + " style=\"margin:0;padding:32px;background:"@
        + t.help_bg@
        + ";color:"@
        + t.help_fg@
        + ";font-family:ui-monospace,monospace;font-size:15px\">"@
}

pub fn body_open(t: &PageTheme, extra_attrs: &str) -> (r: String)
    ensures
        r@ == body_open_html(*t, extra_attrs@),
{
    let mut out: Vec<char> = Vec::new();
    push_str(&mut out, "<body ");
    push_str(&mut out, extra_attrs);
    push_str(&mut out, " style=\"margin:0;padding:32px;background:");
    push_str(&mut out, t.help_bg);
    push_str(&mut out, ";color:");
    push_str(&mut out, t.help_fg);
    push_str(&mut out, ";font-family:ui-monospace,monospace;font-size:15px\">");
    string_of(out.as_slice())
}

/// Empty-list placeholder (`text` is markup of the library's own).
pub open spec fn empty_state_html(t: PageTheme, text: Seq<char>) -> Seq<char> {
    "<p style=\"color:"@
        + t.help_fg@
        + ";opacity:0.7\">"@
        + text
        + "</p>"@
}

pub fn empty_state(t: &PageTheme, text: &str) -> (r: String)
    ensures
        r@ == empty_state_html(*t, text@),
{
    let mut out: Vec<char> = Vec::new();
    push_str(&mut out, "<p style=\"color:");
    push_str(&mut out, t.help_fg);
    push_str(&mut out, ";opacity:0.7\">");
    push_str(&mut out, text);
    push_str(&mut out, "</p>");
    string_of(out.as_slice())
}

/// A site's favicon over a tile with its initial, shown until or unless
/// the icon loads.
pub open spec fn favicon_html(host: Seq<char>, letter: Seq<char>, t: PageTheme) -> Seq<char> {
    "<span style=\"position:relative;width:20px;height:20px;flex-shrink:0\"><span style=\"position:absolute;inset:0;border-radius:4px;background:"@
        + t.help_key_bg@
        + ";color:"@
        + t.help_key_fg@
        + ";display:flex;align-items:center;justify-content:center;font-size:11px;font-weight:700\">"@
        + letter
        + "</span><img src=\"https://"@
        + host
        + "/favicon.ico\" width=\"20\" height=\"20\" style=\"position:absolute;inset:0;border-radius:4px\" onerror=\"this.style.display='none'\"></span>"@
}

pub fn favicon_tile(host: &str, letter: &str, t: &PageTheme) -> (r: String)
    ensures
        r@ == favicon_html(host@, letter@, *t),
{
    let mut out: Vec<char> = Vec::new();
    push_str(&mut out, "<span style=\"position:relative;width:20px;height:20px;flex-shrink:0\"><span style=\"position:absolute;inset:0;border-radius:4px;background:");
    push_str(&mut out, t.help_key_bg);
    push_str(&mut out, ";color:");
    push_str(&mut out, t.help_key_fg);
    push_str(&mut out, ";display:flex;align-items:center;justify-content:center;font-size:11px;font-weight:700\">");
    push_str(&mut out, letter);
    push_str(&mut out, "</span><img src=\"https://");
    push_str(&mut out, host);
    push_str(&mut out, "/favicon.ico\" width=\"20\" height=\"20\" style=\"position:absolute;inset:0;border-radius:4px\" onerror=\"this.style.display='none'\"></span>");
    string_of(out.as_slice())
}

/// A row's icon link.
pub open spec fn icon_link_html(href: Seq<char>, title: Seq<char>, svg_path: Seq<char>, extra_attrs: Seq<char>, t: PageTheme) -> Seq<char> {
    "<a href=\""@
        + href
        + "\" title=\""@
        + title
        + "\" class=\"bm-icon-btn\" "@
        + extra_attrs
        + " style=\"flex-shrink:0;margin-left:4px;display:flex;align-items:center;justify-content:center;width:26px;height:26px;border-radius:6px;background:"@
        + t.help_bg@
        + ";color:"@
        + t.help_fg@
        + ";opacity:0.7;text-decoration:none\"><svg width=\"14\" height=\"14\" viewBox=\"0 0 24 24\" fill=\"currentColor\"><path d=\""@
        + svg_path
        + "\"/></svg></a>"@
}

pub fn icon_link_button(href: &str, title: &str, svg_path: &str, extra_attrs: &str, t: &PageTheme) -> (r: String)
    ensures
        r@ == icon_link_html(href@, title@, svg_path@, extra_attrs@, *t),
{
    let mut out: Vec<char> = Vec::new();
    push_str(&mut out, "<a href=\"");
    push_str(&mut out, href);
    push_str(&mut out, "\" title=\"");
    push_str(&mut out, title);
    push_str(&mut out, "\" class=\"bm-icon-btn\" ");
    push_str(&mut out, extra_attrs);
    push_str(&mut out, " style=\"flex-shrink:0;margin-left:4px;display:flex;align-items:center;justify-content:center;width:26px;height:26px;border-radius:6px;background:");
    push_str(&mut out, t.help_bg);
    push_str(&mut out, ";color:");
    push_str(&mut out, t.help_fg);
    push_str(&mut out, ";opacity:0.7;text-decoration:none\"><svg width=\"14\" height=\"14\" viewBox=\"0 0 24 24\" fill=\"currentColor\"><path d=\"");
    push_str(&mut out, svg_path);
    push_str(&mut out, "\"/></svg></a>");
    string_of(out.as_slice())
}

/// A row's icon button that submits its form.
pub open spec fn icon_submit_html(title: Seq<char>, svg_path: Seq<char>, t: PageTheme) -> Seq<char> {
    "<button type=\"submit\" title=\""@
        + title
        + "\" class=\"bm-icon-btn\" style=\"flex-shrink:0;margin-left:4px;display:flex;align-items:center;justify-content:center;width:26px;height:26px;border-radius:6px;background:"@
        + t.help_bg@
        + ";color:"@
        + t.help_fg@
        + ";opacity:0.7;border:none;cursor:pointer;font:inherit\"><svg width=\"14\" height=\"14\" viewBox=\"0 0 24 24\" fill=\"currentColor\"><path d=\""@
        + svg_path
        + "\"/></svg></button>"@
}

pub fn icon_submit_button(title: &str, svg_path: &str, t: &PageTheme) -> (r: String)
    ensures
        r@ == icon_submit_html(title@, svg_path@, *t),
{
    let mut out: Vec<char> = Vec::new();
    push_str(&mut out, "<button type=\"submit\" title=\"");
    push_str(&mut out, title);
    push_str(&mut out, "\" class=\"bm-icon-btn\" style=\"flex-shrink:0;margin-left:4px;display:flex;align-items:center;justify-content:center;width:26px;height:26px;border-radius:6px;background:");
    push_str(&mut out, t.help_bg);
    push_str(&mut out, ";color:");
    push_str(&mut out, t.help_fg);
    push_str(&mut out, ";opacity:0.7;border:none;cursor:pointer;font:inherit\"><svg width=\"14\" height=\"14\" viewBox=\"0 0 24 24\" fill=\"currentColor\"><path d=\"");
    push_str(&mut out, svg_path);
    push_str(&mut out, "\"/></svg></button>");
    string_of(out.as_slice())
}

/// The hover rule of the icon buttons.
pub open spec fn icon_hover_css(t: PageTheme) -> Seq<char> {
    ".bm-icon-btn:hover{background:"@
        + t.help_key_bg@
        + "!important;color:"@
        + t.help_key_fg@
        + "!important;opacity:1!important}"@
}

pub fn icon_button_hover_css(t: &PageTheme) -> (r: String)
    ensures
        r@ == icon_hover_css(*t),
{
    let mut out: Vec<char> = Vec::new();
    push_str(&mut out, ".bm-icon-btn:hover{background:");
    push_str(&mut out, t.help_key_bg);
    push_str(&mut out, "!important;color:");
    push_str(&mut out, t.help_key_fg);
    push_str(&mut out, "!important;opacity:1!important}");
    string_of(out.as_slice())
}

/// Arrow keys and Enter move through and open `.list-row[data-open]` rows.
pub const LIST_NAV_SCRIPT: &'static str = "<script>\nlet listActiveIndex = 0;\nfunction listRows() {\n  return Array.from(document.querySelectorAll('.list-row')).filter(r => r.offsetParent !== null);\n}\nfunction setListActive(index) {\n  const rows = listRows();\n  if (!rows.length) return;\n  listActiveIndex = ((index % rows.length) + rows.length) % rows.length;\n  rows.forEach(r => r.classList.remove('list-active'));\n  rows[listActiveIndex].classList.add('list-active');\n  rows[listActiveIndex].scrollIntoView({block: 'nearest'});\n}\ndocument.addEventListener('keydown', (event) => {\n  if (event.target.tagName === 'INPUT') return;\n  if (event.key === 'ArrowDown') {\n    event.preventDefault();\n    setListActive(listActiveIndex + 1);\n  } else if (event.key === 'ArrowUp') {\n    event.preventDefault();\n    setListActive(listActiveIndex - 1);\n  } else if (event.key === 'Enter') {\n    const row = listRows()[listActiveIndex];\n    if (row && row.dataset.open) window.location = row.dataset.open;\n  }\n});\ndocument.addEventListener('mouseover', (event) => {\n  const row = event.target.closest('.list-row');\n  if (!row) return;\n  const index = listRows().indexOf(row);\n  if (index >= 0) setListActive(index);\n});\nwindow.addEventListener('load', () => setListActive(0));\n</script>";

} // verus!
