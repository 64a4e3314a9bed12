//! Classic URL bookmarks: the record, and what a bookmark is shown as.

use vstd::prelude::*;
use crate::text::{
    before_any, before_any_chars, chars_of, split_once_seq, split_once_str_chars, string_of,
};

verus! {

/// One saved bookmark.
#[derive(Clone)]
pub struct Bookmark {
    pub url: String,
    /// `None` until renamed; the label falls back to the URL's host.
    pub title: Option<String>,
    /// `None` = ungrouped.
    pub folder: Option<String>,
}

pub struct BookmarkView {
    pub url: Seq<char>,
    pub title: Option<Seq<char>>,
    pub folder: Option<Seq<char>>,
}

impl View for Bookmark {
    type V = BookmarkView;

    open spec fn view(&self) -> BookmarkView {
        BookmarkView {
            url: self.url@,
            title: crate::vault::opt_view(self.title),
            folder: crate::vault::opt_view(self.folder),
        }
    }
}

pub open spec fn bookmark_views(v: Seq<Bookmark>) -> Seq<BookmarkView> {
    v.map_values(|b: Bookmark| b@)
}

/// The text after the first `://`, or all of `url`.
pub open spec fn after_scheme(url: Seq<char>) -> Seq<char> {
    match split_once_seq(url, "://"@) {
        Some((_, rest)) => rest,
        None => url,
    }
}

/// Bare host (with port) of a URL: after the scheme, before `/`, `?` or `#`.
pub open spec fn host_of_spec(url: Seq<char>) -> Seq<char> {
    before_any(after_scheme(url), seq!['/', '?', '#'])
}

/// Bare host from a URL: the fallback display label, and the favicon guess
/// (`https://{host}/favicon.ico`).
pub fn host_of(url: &str) -> (r: String)
    ensures
        r@ == host_of_spec(url@),
{
    let u = chars_of(url);
    let rest = match split_once_str_chars(u.as_slice(), "://") {
        Some((_, rest)) => rest,
        None => u,
    };
    let mut stops: Vec<char> = Vec::new();
    stops.push('/');
    stops.push('?');
    stops.push('#');
    assert(stops@ == seq!['/', '?', '#']);
    let h = before_any_chars(rest.as_slice(), stops.as_slice());
    string_of(h.as_slice())
}

/// The label a bookmark is shown with: its title when set and non-empty,
/// else the host of its URL.
pub open spec fn label_of(b: Bookmark) -> Seq<char> {
    match b.title {
        Some(t) => if t@.len() > 0 {
            t@
        } else {
            host_of_spec(b.url@)
        },
        None => host_of_spec(b.url@),
    }
}

/// What to show for a bookmark: its title if renamed, else its host.
pub fn display_label(bookmark: &Bookmark) -> (r: String)
    ensures
        r@ == label_of(*bookmark),
{
    match &bookmark.title {
        Some(t) => if !t.as_str().is_empty() {
            t.clone()
        } else {
            host_of(bookmark.url.as_str())
        },
        None => host_of(bookmark.url.as_str()),
    }
}

} // verus!
