//! The generated list pages signal actions by navigating to fake
//! `scheme://...` URLs. This module turns such a URL into the action it
//! stands for, and decides what the browser does with any navigation.

use vstd::prelude::*;
use vstd::utf8::{encode_utf8, valid_utf8, decode_utf8};
use vstd::string::StringSliceAdditionalSpecFns;
use crate::text::{
    split, split_once, strip_prefix, chars_of, string_of, chars_eq_str, split_chars,
    split_once_chars, strip_prefix_str, views, bytes_of, starts_with, parse_nat, parse_int,
    parse_usize, parse_u32, parse_i32, starts_with_str,
};
use crate::settings::SettingsPageAction;
use crate::clean_urls::{CleanUrlsSwitch, cleaned, clean};

verus! {

/// An ASCII hex digit's value.
pub open spec fn hex_value(b: u8) -> Option<u8> {
    if 48 <= b && b <= 57 {
        Some((b - 48) as u8)
    } else if 97 <= b && b <= 102 {
        Some((b - 87) as u8)
    } else if 65 <= b && b <= 70 {
        Some((b - 55) as u8)
    } else {
        None
    }
}

/// What `u8::from_str_radix(_, 16)` gives for the two bytes after a `%`:
/// two hex digits, or `+` and one hex digit; anything else fails.
pub open spec fn hex_pair(a: u8, b: u8) -> Option<u8> {
    match (hex_value(a), hex_value(b)) {
        (Some(x), Some(y)) => Some((x * 16 + y) as u8),
        (None, Some(y)) => if a == 43 {
            Some(y)
        } else {
            None
        },
        _ => None,
    }
}

/// Form decoding of bytes: `+` is a space, `%` with two more bytes after
/// it that `hex_pair` reads is that byte, every other byte is itself.
pub open spec fn form_bytes(b: Seq<u8>) -> Seq<u8>
    decreases b.len(),
{
    if b.len() == 0 {
        b
    } else if b[0] == 43 {
        seq![32u8] + form_bytes(b.skip(1))
    } else if b[0] == 37 && b.len() >= 3 && hex_pair(b[1], b[2]) is Some {
        seq![hex_pair(b[1], b[2])->0] + form_bytes(b.skip(3))
    } else {
        seq![b[0]] + form_bytes(b.skip(1))
    }
}

/// What `String::from_utf8_lossy` gives for `bytes`.
pub uninterp spec fn utf8_lossy(bytes: Seq<u8>) -> Seq<char>;

/// Text of bytes: valid UTF-8 decodes as is; otherwise what
/// `String::from_utf8_lossy` makes of it (invalid sequences replaced).
pub open spec fn lossy_text(b: Seq<u8>) -> Seq<char> {
    if valid_utf8(b) {
        decode_utf8(b)
    } else {
        utf8_lossy(b)
    }
}

/// `String::from_utf8_lossy`: valid UTF-8 decodes as is (as its
/// documentation says); for other input the result is only named.
#[verifier::external_body]
fn lossy_string(b: &[u8]) -> (r: String)
    ensures
        r@ == (if valid_utf8(b@) {
            decode_utf8(b@)
        } else {
            utf8_lossy(b@)
        }),
{
    String::from_utf8_lossy(b).into_owned()
}

/// The decoded text of a form value.
pub open spec fn form_decode(s: Seq<char>) -> Seq<char> {
    lossy_text(form_bytes(encode_utf8(s)))
}

fn hex_value_exec(b: u8) -> (r: Option<u8>)
    ensures
        r == hex_value(b),
{
    if 48 <= b && b <= 57 {
        Some(b - 48)
    } else if 97 <= b && b <= 102 {
        Some(b - 87)
    } else if 65 <= b && b <= 70 {
        Some(b - 55)
    } else {
        None
    }
}

fn hex_pair_exec(a: u8, b: u8) -> (r: Option<u8>)
    ensures
        r == hex_pair(a, b),
{
    match (hex_value_exec(a), hex_value_exec(b)) {
        (Some(x), Some(y)) => Some(x * 16 + y),
        (None, Some(y)) => if a == 43 {
            Some(y)
        } else {
            None
        },
        _ => None,
    }
}

/// Minimal `application/x-www-form-urlencoded` decoding (`+` is a space,
/// `%XX` a byte), then UTF-8 with invalid sequences replaced.
pub fn percent_decode(s: &str) -> (r: String)
    ensures
        r@ == form_decode(s@),
{
    let bytes = bytes_of(s);
    let ghost b = bytes@;
    let mut out: Vec<u8> = Vec::new();
    let mut i: usize = 0;
    assert(b.skip(0) == b);
    while i < bytes.len()
        invariant
            b == bytes@,
            i <= b.len(),
            out@ + form_bytes(b.skip(i as int)) == form_bytes(b),
        decreases b.len() - i,
    {
        let ghost rest = b.skip(i as int);
        if bytes[i] == 43 {
            assert(rest.skip(1) == b.skip(i + 1));
            out.push(32);
            i = i + 1;
        } else if bytes[i] == 37 && bytes.len() - i > 2 && hex_pair_exec(bytes[i + 1], bytes[i + 2]).is_some() {
            let v = hex_pair_exec(bytes[i + 1], bytes[i + 2]).unwrap();
            assert(rest.skip(3) == b.skip(i + 3));
            out.push(v);
            i = i + 3;
        } else {
            assert(rest.skip(1) == b.skip(i + 1));
            out.push(bytes[i]);
            i = i + 1;
        }
    }
    assert(b.skip(i as int).len() == 0);
    assert(out@ == form_bytes(b));
    lossy_string(out.as_slice())
}

/// The value of the first `name=value` pair of `pairs` whose key is `name`
/// (pairs without `=` are passed over), decoded.
pub open spec fn first_value(pairs: Seq<Seq<char>>, name: Seq<char>) -> Option<Seq<char>>
    decreases pairs.len(),
{
    if pairs.len() == 0 {
        None
    } else {
        match split_once(pairs[0], '=') {
            Some((k, v)) => if k == name {
                Some(form_decode(v))
            } else {
                first_value(pairs.drop_first(), name)
            },
            None => first_value(pairs.drop_first(), name),
        }
    }
}

/// The decoded value of `name` in `a=1&b=2`-style text.
pub open spec fn query_value(query: Seq<char>, name: Seq<char>) -> Option<Seq<char>> {
    first_value(split(query, '&'), name)
}

/// Pulls a query parameter's decoded value out of `a=1&b=2`-style text.
pub fn query_param(query: &str, name: &str) -> (r: Option<String>)
    ensures
        match query_value(query@, name@) {
            Some(v) => r matches Some(s) && s@ == v,
            None => r is None,
        },
{
    let q = chars_of(query);
    let pairs = split_chars(q.as_slice(), '&');
    let ghost ps = views(pairs@);
    let mut i: usize = 0;
    assert(ps.skip(0) == ps);
    while i < pairs.len()
        invariant
            ps == views(pairs@),
            i <= ps.len(),
            query_value(query@, name@) == first_value(ps.skip(i as int), name@),
        decreases ps.len() - i,
    {
        let ghost rest = ps.skip(i as int);
        assert(rest[0] == pairs@[i as int]@);
        assert(rest.drop_first() == ps.skip(i + 1));
        match split_once_chars(pairs[i].as_slice(), '=') {
            Some((k, v)) => {
                if chars_eq_str(k.as_slice(), name) {
                    let vs = string_of(v.as_slice());
                    return Some(percent_decode(vs.as_str()));
                }
            },
            None => {},
        }
        i = i + 1;
    }
    None
}

/// `str::parse::<usize>` on text.
pub open spec fn usize_of(s: Seq<char>) -> Option<usize> {
    match parse_nat(s) {
        Some(v) => if v <= usize::MAX {
            Some(v as usize)
        } else {
            None
        },
        None => None,
    }
}

/// `str::parse::<u32>` on text.
pub open spec fn u32_of(s: Seq<char>) -> Option<u32> {
    match parse_nat(s) {
        Some(v) => if v <= u32::MAX {
            Some(v as u32)
        } else {
            None
        },
        None => None,
    }
}

/// `str::parse::<i32>` on text.
pub open spec fn i32_of(s: Seq<char>) -> Option<i32> {
    match parse_int(s) {
        Some(v) => if i32::MIN <= v <= i32::MAX {
            Some(v as i32)
        } else {
            None
        },
        None => None,
    }
}

fn usize_exec(s: &[char]) -> (r: Option<usize>)
    ensures
        r == usize_of(s@),
{
    parse_usize(s)
}

/// `(index, query)` from `index?query`, or `(all, "")` without a `?`.
pub open spec fn index_and_query(after: Seq<char>) -> (Seq<char>, Seq<char>) {
    match split_once(after, '?') {
        Some((a, b)) => (a, b),
        None => (after, Seq::empty()),
    }
}

/// What the bookmarks-list page asked for.
pub enum BookmarkAction {
    Open(usize),
    Delete(usize),
    /// Index, new title, new folder (empty: ungrouped).
    Rename(usize, String, String),
}

pub enum BookmarkActionView {
    Open(usize),
    Delete(usize),
    Rename(usize, Seq<char>, Seq<char>),
}

impl View for BookmarkAction {
    type V = BookmarkActionView;

    open spec fn view(&self) -> BookmarkActionView {
        match self {
            BookmarkAction::Open(i) => BookmarkActionView::Open(*i),
            BookmarkAction::Delete(i) => BookmarkActionView::Delete(*i),
            BookmarkAction::Rename(i, t, f) => BookmarkActionView::Rename(*i, t@, f@),
        }
    }
}

/// A query value, or empty when absent.
pub open spec fn value_or_empty(query: Seq<char>, name: Seq<char>) -> Seq<char> {
    match query_value(query, name) {
        Some(v) => v,
        None => Seq::empty(),
    }
}

/// `bookmark://open/N`, `bookmark://delete/N`,
/// `bookmark://rename/N?title=..&folder=..`.
pub open spec fn bookmark_action_of(url: Seq<char>) -> Option<BookmarkActionView> {
    match strip_prefix(url, "bookmark://"@) {
        None => None,
        Some(rest) => match strip_prefix(rest, "open/"@) {
            Some(t) => match usize_of(t) {
                Some(i) => Some(BookmarkActionView::Open(i)),
                None => None,
            },
            None => match strip_prefix(rest, "delete/"@) {
                Some(t) => match usize_of(t) {
                    Some(i) => Some(BookmarkActionView::Delete(i)),
                    None => None,
                },
                None => match strip_prefix(rest, "rename/"@) {
                    Some(after) => {
                        let (idx, query) = index_and_query(after);
                        match usize_of(idx) {
                            Some(i) => Some(
                                BookmarkActionView::Rename(
                                    i,
                                    value_or_empty(query, "title"@),
                                    value_or_empty(query, "folder"@),
                                ),
                            ),
                            None => None,
                        }
                    },
                    None => None,
                },
            },
        },
    }
}

fn split_index_query(after: &[char]) -> (r: (Vec<char>, Vec<char>))
    ensures
        (r.0@, r.1@) == index_and_query(after@),
{
    match split_once_chars(after, '?') {
        Some((a, b)) => (a, b),
        None => (crate::text::slice_copy(after, 0, after.len()), Vec::new()),
    }
}

fn param_or_empty(query: &[char], name: &str) -> (r: String)
    ensures
        r@ == value_or_empty(query@, name@),
{
    let q = string_of(query);
    match query_param(q.as_str(), name) {
        Some(v) => v,
        None => String::new(),
    }
}

pub fn parse_bookmark_action(url: &str) -> (r: Option<BookmarkAction>)
    ensures
        match bookmark_action_of(url@) {
            Some(a) => r matches Some(x) && x@ == a,
            None => r is None,
        },
{
    let u = chars_of(url);
    let rest = match strip_prefix_str(u.as_slice(), "bookmark://") {
        Some(r) => r,
        None => {
            return None;
        },
    };
    if let Some(t) = strip_prefix_str(rest.as_slice(), "open/") {
        return match usize_exec(t.as_slice()) {
            Some(i) => Some(BookmarkAction::Open(i)),
            None => None,
        };
    }
    if let Some(t) = strip_prefix_str(rest.as_slice(), "delete/") {
        return match usize_exec(t.as_slice()) {
            Some(i) => Some(BookmarkAction::Delete(i)),
            None => None,
        };
    }
    if let Some(after) = strip_prefix_str(rest.as_slice(), "rename/") {
        let (idx, query) = split_index_query(after.as_slice());
        return match usize_exec(idx.as_slice()) {
            Some(i) => {
                let title = param_or_empty(query.as_slice(), "title");
                let folder = param_or_empty(query.as_slice(), "folder");
                Some(BookmarkAction::Rename(i, title, folder))
            },
            None => None,
        };
    }
    None
}

/// What the omnibox page submitted: what was typed, and where it resolved.
pub struct OmniboxSubmit {
    pub raw: String,
    pub url: String,
}

/// `omnibox://go?q=..&url=..`; both parameters are needed.
pub open spec fn omnibox_submit_of(url: Seq<char>) -> Option<(Seq<char>, Seq<char>)> {
    match strip_prefix(url, "omnibox://go?"@) {
        None => None,
        Some(query) => match (query_value(query, "q"@), query_value(query, "url"@)) {
            (Some(raw), Some(u)) => Some((raw, u)),
            _ => None,
        },
    }
}

pub fn parse_omnibox_submit(url: &str) -> (r: Option<OmniboxSubmit>)
    ensures
        match omnibox_submit_of(url@) {
            Some((raw, u)) => r matches Some(x) && x.raw@ == raw && x.url@ == u,
            None => r is None,
        },
{
    let u = chars_of(url);
    let query = match strip_prefix_str(u.as_slice(), "omnibox://go?") {
        Some(q) => string_of(q.as_slice()),
        None => {
            return None;
        },
    };
    let raw = match query_param(query.as_str(), "q") {
        Some(v) => v,
        None => {
            return None;
        },
    };
    let target = match query_param(query.as_str(), "url") {
        Some(v) => v,
        None => {
            return None;
        },
    };
    Some(OmniboxSubmit { raw, url: target })
}

/// `switcher://go/ID`: the browser id of the page to bring forward.
pub open spec fn switch_target_of(url: Seq<char>) -> Option<i32> {
    match strip_prefix(url, "switcher://go/"@) {
        Some(t) => i32_of(t),
        None => None,
    }
}

pub fn parse_switch_target(url: &str) -> (r: Option<i32>)
    ensures
        r == switch_target_of(url@),
{
    let u = chars_of(url);
    match strip_prefix_str(u.as_slice(), "switcher://go/") {
        Some(t) => parse_i32(t.as_slice()),
        None => None,
    }
}

/// What the downloads-list page asked for.
#[derive(Clone, Copy, Debug, PartialEq, Eq, Structural)]
pub enum DownloadPageAction {
    /// Open the downloaded file with the desktop's default handler.
    Open(usize),
    /// Forget the entry (the file stays on disk).
    Remove(usize),
}

/// `download://open/N`, `download://remove/N`.
pub open spec fn download_action_of(url: Seq<char>) -> Option<DownloadPageAction> {
    match strip_prefix(url, "download://"@) {
        None => None,
        Some(rest) => match strip_prefix(rest, "open/"@) {
            Some(t) => match usize_of(t) {
                Some(i) => Some(DownloadPageAction::Open(i)),
                None => None,
            },
            None => match strip_prefix(rest, "remove/"@) {
                Some(t) => match usize_of(t) {
                    Some(i) => Some(DownloadPageAction::Remove(i)),
                    None => None,
                },
                None => None,
            },
        },
    }
}

pub fn parse_download_action(url: &str) -> (r: Option<DownloadPageAction>)
    ensures
        r == download_action_of(url@),
{
    let u = chars_of(url);
    let rest = match strip_prefix_str(u.as_slice(), "download://") {
        Some(r) => r,
        None => {
            return None;
        },
    };
    if let Some(t) = strip_prefix_str(rest.as_slice(), "open/") {
        return match usize_exec(t.as_slice()) {
            Some(i) => Some(DownloadPageAction::Open(i)),
            None => None,
        };
    }
    if let Some(t) = strip_prefix_str(rest.as_slice(), "remove/") {
        return match usize_exec(t.as_slice()) {
            Some(i) => Some(DownloadPageAction::Remove(i)),
            None => None,
        };
    }
    None
}

/// What the history-list page asked for.
#[derive(Clone, Copy, Debug, PartialEq, Eq, Structural)]
pub enum HistoryPageAction {
    Open(usize),
    Remove(usize),
    Clear,
}

/// `history://open/N`, `history://remove/N`, `history://clear`.
pub open spec fn history_action_of(url: Seq<char>) -> Option<HistoryPageAction> {
    match strip_prefix(url, "history://"@) {
        None => None,
        Some(rest) => match strip_prefix(rest, "open/"@) {
            Some(t) => match usize_of(t) {
                Some(i) => Some(HistoryPageAction::Open(i)),
                None => None,
            },
            None => match strip_prefix(rest, "remove/"@) {
                Some(t) => match usize_of(t) {
                    Some(i) => Some(HistoryPageAction::Remove(i)),
                    None => None,
                },
                None => if rest == "clear"@ {
                    Some(HistoryPageAction::Clear)
                } else {
                    None
                },
            },
        },
    }
}

pub fn parse_history_action(url: &str) -> (r: Option<HistoryPageAction>)
    ensures
        r == history_action_of(url@),
{
    let u = chars_of(url);
    let rest = match strip_prefix_str(u.as_slice(), "history://") {
        Some(r) => r,
        None => {
            return None;
        },
    };
    if let Some(t) = strip_prefix_str(rest.as_slice(), "open/") {
        return match usize_exec(t.as_slice()) {
            Some(i) => Some(HistoryPageAction::Open(i)),
            None => None,
        };
    }
    if let Some(t) = strip_prefix_str(rest.as_slice(), "remove/") {
        return match usize_exec(t.as_slice()) {
            Some(i) => Some(HistoryPageAction::Remove(i)),
            None => None,
        };
    }
    if chars_eq_str(rest.as_slice(), "clear") {
        return Some(HistoryPageAction::Clear);
    }
    None
}

/// What the workspace-list page asked for.
pub enum WorkspacePageAction {
    /// Replace the open pages with the ones saved in this workspace.
    Load(usize),
    /// New display name.
    Rename(usize, String),
    Delete(usize),
    /// Snapshot the canvas as a new workspace.
    SaveNew,
}

pub enum WorkspaceActionView {
    Load(usize),
    Rename(usize, Seq<char>),
    Delete(usize),
    SaveNew,
}

impl View for WorkspacePageAction {
    type V = WorkspaceActionView;

    open spec fn view(&self) -> WorkspaceActionView {
        match self {
            WorkspacePageAction::Load(i) => WorkspaceActionView::Load(*i),
            WorkspacePageAction::Rename(i, n) => WorkspaceActionView::Rename(*i, n@),
            WorkspacePageAction::Delete(i) => WorkspaceActionView::Delete(*i),
            WorkspacePageAction::SaveNew => WorkspaceActionView::SaveNew,
        }
    }
}

/// `workspace://load/N`, `workspace://rename/N?name=..`,
/// `workspace://delete/N`, `workspace://save`.
pub open spec fn workspace_action_of(url: Seq<char>) -> Option<WorkspaceActionView> {
    match strip_prefix(url, "workspace://"@) {
        None => None,
        Some(rest) => match strip_prefix(rest, "load/"@) {
            Some(t) => match usize_of(t) {
                Some(i) => Some(WorkspaceActionView::Load(i)),
                None => None,
            },
            None => match strip_prefix(rest, "rename/"@) {
                Some(after) => {
                    let (idx, query) = index_and_query(after);
                    match usize_of(idx) {
                        Some(i) => Some(
                            WorkspaceActionView::Rename(i, value_or_empty(query, "name"@)),
                        ),
                        None => None,
                    }
                },
                None => match strip_prefix(rest, "delete/"@) {
                    Some(t) => match usize_of(t) {
                        Some(i) => Some(WorkspaceActionView::Delete(i)),
                        None => None,
                    },
                    None => if rest == "save"@ {
                        Some(WorkspaceActionView::SaveNew)
                    } else {
                        None
                    },
                },
            },
        },
    }
}

pub fn parse_workspace_action(url: &str) -> (r: Option<WorkspacePageAction>)
    ensures
        match workspace_action_of(url@) {
            Some(a) => r matches Some(x) && x@ == a,
            None => r is None,
        },
{
    let u = chars_of(url);
    let rest = match strip_prefix_str(u.as_slice(), "workspace://") {
        Some(r) => r,
        None => {
            return None;
        },
    };
    if let Some(t) = strip_prefix_str(rest.as_slice(), "load/") {
        return match usize_exec(t.as_slice()) {
            Some(i) => Some(WorkspacePageAction::Load(i)),
            None => None,
        };
    }
    if let Some(after) = strip_prefix_str(rest.as_slice(), "rename/") {
        let (idx, query) = split_index_query(after.as_slice());
        return match usize_exec(idx.as_slice()) {
            Some(i) => Some(WorkspacePageAction::Rename(i, param_or_empty(query.as_slice(), "name"))),
            None => None,
        };
    }
    if let Some(t) = strip_prefix_str(rest.as_slice(), "delete/") {
        return match usize_exec(t.as_slice()) {
            Some(i) => Some(WorkspacePageAction::Delete(i)),
            None => None,
        };
    }
    if chars_eq_str(rest.as_slice(), "save") {
        return Some(WorkspacePageAction::SaveNew);
    }
    None
}

pub enum SettingsActionView {
    ToggleAdBlock,
    ToggleCleanUrls,
    ToggleFilterNetwork,
    ToggleFilterCosmetic,
    ToggleFilterScriptlets,
    ToggleFilterList(Seq<char>),
    SetTab(Seq<char>),
    SetSearchEngine(Seq<char>),
    SetTheme(usize),
    SetReaderTheme(usize),
    AddBlockedHost(Seq<char>),
    RemoveBlockedHost(usize),
    SetFrameRate(u32),
}

/// The view of the settings actions a `settings://` link can carry.
pub open spec fn settings_action_view(a: SettingsPageAction) -> Option<SettingsActionView> {
    match a {
        SettingsPageAction::ToggleAdBlock => Some(SettingsActionView::ToggleAdBlock),
        SettingsPageAction::ToggleCleanUrls => Some(SettingsActionView::ToggleCleanUrls),
        SettingsPageAction::ToggleFilterNetwork => Some(SettingsActionView::ToggleFilterNetwork),
        SettingsPageAction::ToggleFilterCosmetic => Some(SettingsActionView::ToggleFilterCosmetic),
        SettingsPageAction::ToggleFilterScriptlets => Some(
            SettingsActionView::ToggleFilterScriptlets,
        ),
        SettingsPageAction::ToggleFilterList(id) => Some(SettingsActionView::ToggleFilterList(id@)),
        SettingsPageAction::SetTab(t) => Some(SettingsActionView::SetTab(t@)),
        SettingsPageAction::SetSearchEngine(e) => Some(SettingsActionView::SetSearchEngine(e@)),
        SettingsPageAction::SetTheme(i) => Some(SettingsActionView::SetTheme(i)),
        SettingsPageAction::SetReaderTheme(i) => Some(SettingsActionView::SetReaderTheme(i)),
        SettingsPageAction::AddBlockedHost(h) => Some(SettingsActionView::AddBlockedHost(h@)),
        SettingsPageAction::RemoveBlockedHost(i) => Some(SettingsActionView::RemoveBlockedHost(i)),
        SettingsPageAction::SetFrameRate(f) => Some(SettingsActionView::SetFrameRate(f)),
    }
}

/// `settings://toggle-adblock`, `settings://toggle-clean-urls`,
/// `settings://toggle-filter-network`, `settings://toggle-filter-cosmetic`,
/// `settings://toggle-filter-scriptlets`, `settings://toggle-filter-list/ID`,
/// `settings://tab/NAME`,
/// `settings://search-engine?engine=..`, `settings://theme/N`,
/// `settings://reader-theme/N`, `settings://add-host?host=..`,
/// `settings://remove-host/N`, `settings://frame-rate/N`.
pub open spec fn settings_action_of(url: Seq<char>) -> Option<SettingsActionView> {
    match strip_prefix(url, "settings://"@) {
        None => None,
        Some(rest) => if rest == "toggle-adblock"@ {
            Some(SettingsActionView::ToggleAdBlock)
        } else if rest == "toggle-clean-urls"@ {
            Some(SettingsActionView::ToggleCleanUrls)
        } else if rest == "toggle-filter-network"@ {
            Some(SettingsActionView::ToggleFilterNetwork)
        } else if rest == "toggle-filter-cosmetic"@ {
            Some(SettingsActionView::ToggleFilterCosmetic)
        } else if rest == "toggle-filter-scriptlets"@ {
            Some(SettingsActionView::ToggleFilterScriptlets)
        } else if let Some(id) = strip_prefix(rest, "toggle-filter-list/"@) {
            Some(SettingsActionView::ToggleFilterList(id))
        } else if let Some(t) = strip_prefix(rest, "tab/"@) {
            Some(SettingsActionView::SetTab(t))
        } else if let Some(q) = strip_prefix(rest, "search-engine?"@) {
            match query_value(q, "engine"@) {
                Some(e) => Some(SettingsActionView::SetSearchEngine(e)),
                None => None,
            }
        } else if let Some(t) = strip_prefix(rest, "theme/"@) {
            match usize_of(t) {
                Some(i) => Some(SettingsActionView::SetTheme(i)),
                None => None,
            }
        } else if let Some(t) = strip_prefix(rest, "reader-theme/"@) {
            match usize_of(t) {
                Some(i) => Some(SettingsActionView::SetReaderTheme(i)),
                None => None,
            }
        } else if let Some(q) = strip_prefix(rest, "add-host?"@) {
            match query_value(q, "host"@) {
                Some(h) => Some(SettingsActionView::AddBlockedHost(h)),
                None => None,
            }
        } else if let Some(t) = strip_prefix(rest, "remove-host/"@) {
            match usize_of(t) {
                Some(i) => Some(SettingsActionView::RemoveBlockedHost(i)),
                None => None,
            }
        } else if let Some(t) = strip_prefix(rest, "frame-rate/"@) {
            match u32_of(t) {
                Some(f) => Some(SettingsActionView::SetFrameRate(f)),
                None => None,
            }
        } else {
            None
        },
    }
}

pub fn parse_settings_action(url: &str) -> (r: Option<SettingsPageAction>)
    ensures
        match settings_action_of(url@) {
            Some(a) => r matches Some(x) && settings_action_view(x) == Some(a),
            None => r is None,
        },
{
    let u = chars_of(url);
    let rest = match strip_prefix_str(u.as_slice(), "settings://") {
        Some(r) => r,
        None => {
            return None;
        },
    };
    if chars_eq_str(rest.as_slice(), "toggle-adblock") {
        return Some(SettingsPageAction::ToggleAdBlock);
    }
    if chars_eq_str(rest.as_slice(), "toggle-clean-urls") {
        return Some(SettingsPageAction::ToggleCleanUrls);
    }
    if chars_eq_str(rest.as_slice(), "toggle-filter-network") {
        return Some(SettingsPageAction::ToggleFilterNetwork);
    }
    if chars_eq_str(rest.as_slice(), "toggle-filter-cosmetic") {
        return Some(SettingsPageAction::ToggleFilterCosmetic);
    }
    if chars_eq_str(rest.as_slice(), "toggle-filter-scriptlets") {
        return Some(SettingsPageAction::ToggleFilterScriptlets);
    }
    if let Some(id) = strip_prefix_str(rest.as_slice(), "toggle-filter-list/") {
        return Some(SettingsPageAction::ToggleFilterList(string_of(id.as_slice())));
    }
    if let Some(t) = strip_prefix_str(rest.as_slice(), "tab/") {
        return Some(SettingsPageAction::SetTab(string_of(t.as_slice())));
    }
    if let Some(q) = strip_prefix_str(rest.as_slice(), "search-engine?") {
        let qs = string_of(q.as_slice());
        return match query_param(qs.as_str(), "engine") {
            Some(e) => Some(SettingsPageAction::SetSearchEngine(e)),
            None => None,
        };
    }
    if let Some(t) = strip_prefix_str(rest.as_slice(), "theme/") {
        return match usize_exec(t.as_slice()) {
            Some(i) => Some(SettingsPageAction::SetTheme(i)),
            None => None,
        };
    }
    if let Some(t) = strip_prefix_str(rest.as_slice(), "reader-theme/") {
        return match usize_exec(t.as_slice()) {
            Some(i) => Some(SettingsPageAction::SetReaderTheme(i)),
            None => None,
        };
    }
    if let Some(q) = strip_prefix_str(rest.as_slice(), "add-host?") {
        let qs = string_of(q.as_slice());
        return match query_param(qs.as_str(), "host") {
            Some(h) => Some(SettingsPageAction::AddBlockedHost(h)),
            None => None,
        };
    }
    if let Some(t) = strip_prefix_str(rest.as_slice(), "remove-host/") {
        return match usize_exec(t.as_slice()) {
            Some(i) => Some(SettingsPageAction::RemoveBlockedHost(i)),
            None => None,
        };
    }
    if let Some(t) = strip_prefix_str(rest.as_slice(), "frame-rate/") {
        return match parse_u32(t.as_slice()) {
            Some(f) => Some(SettingsPageAction::SetFrameRate(f)),
            None => None,
        };
    }
    None
}

/// What the userscripts list page asked for.
pub enum UserscriptsPageAction {
    Reload,
    OpenDir,
    /// Basename of the script to switch on or off.
    Toggle(String),
}

pub enum UserscriptsActionView {
    Reload,
    OpenDir,
    Toggle(Seq<char>),
}

impl View for UserscriptsPageAction {
    type V = UserscriptsActionView;

    open spec fn view(&self) -> UserscriptsActionView {
        match self {
            UserscriptsPageAction::Reload => UserscriptsActionView::Reload,
            UserscriptsPageAction::OpenDir => UserscriptsActionView::OpenDir,
            UserscriptsPageAction::Toggle(n) => UserscriptsActionView::Toggle(n@),
        }
    }
}

/// `userscripts://reload`, `userscripts://open-dir`,
/// `userscripts://toggle/NAME` (NAME decoded, not empty).
pub open spec fn userscripts_action_of(url: Seq<char>) -> Option<UserscriptsActionView> {
    match strip_prefix(url, "userscripts://"@) {
        None => None,
        Some(rest) => if rest == "reload"@ {
            Some(UserscriptsActionView::Reload)
        } else if rest == "open-dir"@ {
            Some(UserscriptsActionView::OpenDir)
        } else {
            match strip_prefix(rest, "toggle/"@) {
                Some(n) => if form_decode(n).len() > 0 {
                    Some(UserscriptsActionView::Toggle(form_decode(n)))
                } else {
                    None
                },
                None => None,
            }
        },
    }
}

pub fn parse_userscripts_action(url: &str) -> (r: Option<UserscriptsPageAction>)
    ensures
        match userscripts_action_of(url@) {
            Some(a) => r matches Some(x) && x@ == a,
            None => r is None,
        },
{
    let u = chars_of(url);
    let rest = match strip_prefix_str(u.as_slice(), "userscripts://") {
        Some(r) => r,
        None => {
            return None;
        },
    };
    if chars_eq_str(rest.as_slice(), "reload") {
        return Some(UserscriptsPageAction::Reload);
    }
    if chars_eq_str(rest.as_slice(), "open-dir") {
        return Some(UserscriptsPageAction::OpenDir);
    }
    if let Some(n) = strip_prefix_str(rest.as_slice(), "toggle/") {
        let ns = string_of(n.as_slice());
        let name = percent_decode(ns.as_str());
        if !name.as_str().is_empty() {
            return Some(UserscriptsPageAction::Toggle(name));
        }
    }
    None
}

/// `clipboard://copy?text=..`: the text to put on the clipboard.
pub open spec fn clipboard_copy_of(url: Seq<char>) -> Option<Seq<char>> {
    match strip_prefix(url, "clipboard://copy?"@) {
        Some(q) => query_value(q, "text"@),
        None => None,
    }
}

pub fn parse_clipboard_copy(url: &str) -> (r: Option<String>)
    ensures
        match clipboard_copy_of(url@) {
            Some(t) => r matches Some(s) && s@ == t,
            None => r is None,
        },
{
    let u = chars_of(url);
    match strip_prefix_str(u.as_slice(), "clipboard://copy?") {
        Some(q) => {
            let qs = string_of(q.as_slice());
            query_param(qs.as_str(), "text")
        },
        None => None,
    }
}

/// What to do with a navigation the browser is about to make.
pub enum Intercept {
    /// Cancel it and load this URL (tracking parameters stripped) instead.
    Redirect(String),
    Bookmark(BookmarkAction),
    Omnibox(OmniboxSubmit),
    /// Bring the page with this browser id forward.
    Switch(i32),
    Download(DownloadPageAction),
    History(HistoryPageAction),
    Workspace(WorkspacePageAction),
    Settings(SettingsPageAction),
    Userscripts(UserscriptsPageAction),
    /// Put this text on the system clipboard.
    Copy(String),
    /// Let the navigation go ahead.
    Proceed,
}

/// Which kind of interception `on_before_browse` picks: an http(s) URL
/// with tracking parameters is redirected; otherwise the action schemes
/// are tried in a fixed order; anything else proceeds.
pub enum InterceptKind {
    Redirect(Seq<char>),
    Bookmark,
    Omnibox,
    Switch,
    Download,
    History,
    Workspace,
    Settings,
    Userscripts,
    Copy,
    Proceed,
}

pub open spec fn intercept_kind(url: Seq<char>, clean_enabled: bool) -> InterceptKind {
    if (starts_with(url, "http://"@) || starts_with(url, "https://"@)) && clean_enabled && cleaned(
        url,
    ) is Some {
        InterceptKind::Redirect(cleaned(url)->0)
    } else if bookmark_action_of(url) is Some {
        InterceptKind::Bookmark
    } else if omnibox_submit_of(url) is Some {
        InterceptKind::Omnibox
    } else if switch_target_of(url) is Some {
        InterceptKind::Switch
    } else if download_action_of(url) is Some {
        InterceptKind::Download
    } else if history_action_of(url) is Some {
        InterceptKind::History
    } else if workspace_action_of(url) is Some {
        InterceptKind::Workspace
    } else if settings_action_of(url) is Some {
        InterceptKind::Settings
    } else if userscripts_action_of(url) is Some {
        InterceptKind::Userscripts
    } else if clipboard_copy_of(url) is Some {
        InterceptKind::Copy
    } else {
        InterceptKind::Proceed
    }
}

/// The decision for a navigation to `url`, carrying the parsed action.
pub fn intercept(url: &str, switch: &CleanUrlsSwitch) -> (r: Intercept)
    ensures
        match intercept_kind(url@, switch.enabled) {
            InterceptKind::Redirect(c) => r matches Intercept::Redirect(s) && s@ == c,
            InterceptKind::Bookmark => r matches Intercept::Bookmark(a) && Some(a@) == bookmark_action_of(url@),
            InterceptKind::Omnibox => r matches Intercept::Omnibox(o) && omnibox_submit_of(url@) == Some((o.raw@, o.url@)),
            InterceptKind::Switch => r matches Intercept::Switch(id) && switch_target_of(url@) == Some(id),
            InterceptKind::Download => r matches Intercept::Download(a) && download_action_of(url@) == Some(a),
            InterceptKind::History => r matches Intercept::History(a) && history_action_of(url@) == Some(a),
            InterceptKind::Workspace => r matches Intercept::Workspace(a) && workspace_action_of(url@) == Some(a@),
            InterceptKind::Settings => r matches Intercept::Settings(a) && settings_action_view(a) == settings_action_of(url@),
            InterceptKind::Userscripts => r matches Intercept::Userscripts(a) && userscripts_action_of(url@) == Some(a@),
            InterceptKind::Copy => r matches Intercept::Copy(t) && clipboard_copy_of(url@) == Some(t@),
            InterceptKind::Proceed => r matches Intercept::Proceed,
        },
{
    let u = chars_of(url);
    if starts_with_str(u.as_slice(), "http://") || starts_with_str(u.as_slice(), "https://") {
        if let Some(c) = clean(switch, url) {
            return Intercept::Redirect(c);
        }
    }
    if let Some(a) = parse_bookmark_action(url) {
        return Intercept::Bookmark(a);
    }
    if let Some(o) = parse_omnibox_submit(url) {
        return Intercept::Omnibox(o);
    }
    if let Some(id) = parse_switch_target(url) {
        return Intercept::Switch(id);
    }
    if let Some(a) = parse_download_action(url) {
        return Intercept::Download(a);
    }
    if let Some(a) = parse_history_action(url) {
        return Intercept::History(a);
    }
    if let Some(a) = parse_workspace_action(url) {
        return Intercept::Workspace(a);
    }
    if let Some(a) = parse_settings_action(url) {
        return Intercept::Settings(a);
    }
    if let Some(a) = parse_userscripts_action(url) {
        return Intercept::Userscripts(a);
    }
    if let Some(t) = parse_clipboard_copy(url) {
        return Intercept::Copy(t);
    }
    Intercept::Proceed
}

/// No byte of `b` is `%` or `+`.
pub open spec fn plain_bytes(b: Seq<u8>) -> bool {
    forall|i: int| 0 <= i < b.len() ==> b[i] != 37u8 && b[i] != 43u8
}

proof fn lemma_form_bytes_plain(b: Seq<u8>)
    requires
        plain_bytes(b),
    ensures
        form_bytes(b) == b,
    decreases b.len(),
{
    if b.len() > 0 {
        assert(plain_bytes(b.skip(1)));
        lemma_form_bytes_plain(b.skip(1));
        assert(seq![b[0]] + b.skip(1) =~= b);
    }
}

proof fn lemma_scalar_plain(c: char)
    requires
        c != '%',
        c != '+',
    ensures
        plain_bytes(vstd::utf8::encode_scalar(c as u32)),
{
    let v = c as u32;
    vstd::utf8::char_is_scalar(c);
    assert(forall|y: u8| #[trigger] (0x80u8 | y) >= 0x80u8) by (bit_vector);
    assert(forall|y: u8| #[trigger] (0xC0u8 | y) >= 0x80u8) by (bit_vector);
    assert(forall|y: u8| #[trigger] (0xE0u8 | y) >= 0x80u8) by (bit_vector);
    assert(forall|y: u8| #[trigger] (0xF0u8 | y) >= 0x80u8) by (bit_vector);
    if v <= 0x7F {
        assert(v <= 0x7F ==> (v & 0x7F) == v) by (bit_vector);
        assert(v != 37 && v != 43);
        assert(((v & 0x7F) as u8) == v);
    }
}

proof fn lemma_encode_plain(s: Seq<char>)
    requires
        forall|i: int| 0 <= i < s.len() ==> s[i] != '%' && s[i] != '+',
    ensures
        plain_bytes(encode_utf8(s)),
    decreases s.len(),
{
    if s.len() > 0 {
        lemma_scalar_plain(s[0]);
        lemma_encode_plain(s.drop_first());
        let a = vstd::utf8::encode_scalar(s[0] as u32);
        let b = encode_utf8(s.drop_first());
        assert(encode_utf8(s) == a + b);
        assert forall|i: int| 0 <= i < (a + b).len() implies (a + b)[i] != 37u8 && (a + b)[i]
            != 43u8 by {
            if i < a.len() {
                assert((a + b)[i] == a[i]);
            } else {
                assert((a + b)[i] == b[i - a.len()]);
            }
        }
    }
}

/// Decoding text without `%` or `+` leaves it unchanged.
pub proof fn law_decode_plain_text(s: Seq<char>)
    requires
        forall|i: int| 0 <= i < s.len() ==> s[i] != '%' && s[i] != '+',
    ensures
        form_decode(s) == s,
{
    lemma_encode_plain(s);
    lemma_form_bytes_plain(encode_utf8(s));
    vstd::utf8::encode_utf8_valid_utf8(s);
    vstd::utf8::encode_utf8_decode_utf8(s);
}

} // verus!
