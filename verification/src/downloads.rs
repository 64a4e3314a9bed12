//! Completed downloads for the downloads list: newest first, at most
//! `MAX_DOWNLOADS`. Loading and saving `downloads.json` is left to the caller.

use vstd::prelude::*;
use crate::history::capped;
use crate::paths::{extension_of, file_name_of, path_file_name, split_file_name, stem_of};
use crate::text::{decimal, push_decimal, push_str, string_of};

verus! {

/// How many downloads are kept.
pub const MAX_DOWNLOADS: usize = 200;

/// A finished download: where it came from and where it was written.
pub struct DownloadRecord {
    pub url: String,
    pub path: String,
}

pub struct DownloadView {
    pub url: Seq<char>,
    pub path: Seq<char>,
}

impl View for DownloadRecord {
    type V = DownloadView;

    open spec fn view(&self) -> DownloadView {
        DownloadView { url: self.url@, path: self.path@ }
    }
}

pub open spec fn download_views(v: Seq<DownloadRecord>) -> Seq<DownloadView> {
    v.map_values(|d: DownloadRecord| d@)
}

/// The list with `entry` in front, cut to `MAX_DOWNLOADS`.
pub open spec fn with_download(d: Seq<DownloadView>, entry: DownloadView) -> Seq<DownloadView> {
    capped(seq![entry] + d, MAX_DOWNLOADS as int)
}

/// Records a completed download at the front; the caller saves.
pub fn record(downloads: &mut Vec<DownloadRecord>, entry: DownloadRecord)
    ensures
        download_views(final(downloads)@) == with_download(download_views(old(downloads)@), entry@),
{
    let ghost d = download_views(downloads@);
    let ghost e = entry@;
    downloads.insert(0, entry);
    assert(download_views(downloads@) =~= seq![e] + d);
    let ghost d2 = download_views(downloads@);
    downloads.truncate(MAX_DOWNLOADS);
    assert(download_views(downloads@) =~= capped(d2, MAX_DOWNLOADS as int));
}

/// The newest download comes first, the older ones follow in order, and the
/// list never grows past `MAX_DOWNLOADS`.
pub proof fn law_download_newest_first(d: Seq<DownloadView>, entry: DownloadView)
    ensures
        with_download(d, entry)[0] == entry,
        with_download(d, entry).len() <= MAX_DOWNLOADS,
        forall|i: int|
            0 <= i < with_download(d, entry).len() - 1 ==> #[trigger] with_download(d, entry)[i
                + 1] == d[i],
{
}


/// The stem a renamed download takes: the suggested name's stem, or
/// `download` when it has none.
pub open spec fn download_stem(suggested: Seq<char>) -> Seq<char> {
    match path_file_name(suggested) {
        Some(f) => if stem_of(f).len() > 0 {
            stem_of(f)
        } else {
            "download"@
        },
        None => "download"@,
    }
}

/// The extension a renamed download keeps.
pub open spec fn download_extension(suggested: Seq<char>) -> Option<Seq<char>> {
    match path_file_name(suggested) {
        Some(f) => extension_of(f),
        None => None,
    }
}

/// The name tried `n`-th when saving a download suggested as `suggested`:
/// the suggestion itself, then `stem (n).ext` (or `stem (n)` without an
/// extension), until one is free.
pub open spec fn download_candidate(suggested: Seq<char>, n: nat) -> Seq<char> {
    if n == 0 {
        suggested
    } else {
        let numbered = download_stem(suggested) + " ("@ + decimal(n) + ")"@;
        match download_extension(suggested) {
            Some(e) => numbered + "."@ + e,
            None => numbered,
        }
    }
}

/// The `n`-th file name to try for a download suggested as `suggested`.
pub fn download_file_name(suggested: &str, n: usize) -> (r: String)
    ensures
        r@ == download_candidate(suggested@, n as nat),
{
    if n == 0 {
        return suggested.to_string();
    }
    let (stem, ext) = match file_name_of(suggested) {
        Some(f) => {
            let (st, e) = split_file_name(f.as_str());
            if st.as_str().is_empty() {
                (String::from_str("download"), e)
            } else {
                (st, e)
            }
        },
        None => (String::from_str("download"), None),
    };
    let mut out: Vec<char> = Vec::new();
    push_str(&mut out, stem.as_str());
    push_str(&mut out, " (");
    push_decimal(&mut out, n);
    push_str(&mut out, ")");
    match ext {
        Some(e) => {
            push_str(&mut out, ".");
            push_str(&mut out, e.as_str());
        },
        None => {},
    }
    string_of(out.as_slice())
}

/// Remembers that download `id` completed; `true` the first time only, so
/// that each download is reported once.
pub fn first_completion(seen: &mut Vec<u32>, id: u32) -> (r: bool)
    ensures
        r == !old(seen)@.contains(id),
        r ==> final(seen)@ == old(seen)@.push(id),
        !r ==> final(seen)@ == old(seen)@,
{
    let mut i: usize = 0;
    while i < seen.len()
        invariant
            i <= seen@.len(),
            forall|k: int| 0 <= k < i ==> seen@[k] != id,
        decreases seen@.len() - i,
    {
        if seen[i] == id {
            assert(seen@.contains(id));
            return false;
        }
        i = i + 1;
    }
    seen.push(id);
    true
}


proof fn lemma_decimal_len(n: nat)
    ensures
        decimal(n).len() >= 1,
        n >= 10 ==> decimal(n).len() >= 2,
    decreases n,
{
    if n >= 10 {
        lemma_decimal_len(n / 10);
    }
}

proof fn lemma_digit_char(d: nat, e: nat)
    requires
        d < 10,
        e < 10,
        decimal(d)[0] == decimal(e)[0],
    ensures
        d == e,
{
    assert(decimal(d)[0] as int == 48 + d);
    assert(decimal(e)[0] as int == 48 + e);
}

proof fn lemma_decimal_injective(n: nat, m: nat)
    requires
        decimal(n) == decimal(m),
    ensures
        n == m,
    decreases n,
{
    lemma_decimal_len(n);
    lemma_decimal_len(m);
    if n < 10 && m < 10 {
        assert(decimal(n)[0] == decimal(m)[0]);
        lemma_digit_char(n, m);
    } else if n >= 10 && m >= 10 {
        let a = decimal(n);
        let b = decimal(m);
        assert(a.last() == b.last());
        assert(a.last() == decimal(n % 10)[0]);
        assert(b.last() == decimal(m % 10)[0]);
        lemma_digit_char(n % 10, m % 10);
        assert(a.drop_last() == decimal(n / 10));
        assert(b.drop_last() == decimal(m / 10));
        lemma_decimal_injective(n / 10, m / 10);
        assert(n == 10 * (n / 10) + n % 10);
        assert(m == 10 * (m / 10) + m % 10);
    }
}

/// Renamed candidates never repeat: the `n`-th and `m`-th differ, so
/// trying them in turn finds a free name rather than overwriting a file.
pub proof fn law_download_candidates_distinct(suggested: Seq<char>, n: nat, m: nat)
    requires
        n >= 1,
        m >= 1,
        n != m,
    ensures
        download_candidate(suggested, n) != download_candidate(suggested, m),
{
    let stem = download_stem(suggested) + " ("@;
    let a = download_candidate(suggested, n);
    let b = download_candidate(suggested, m);
    let tail = match download_extension(suggested) {
        Some(e) => ")"@ + "."@ + e,
        None => ")"@,
    };
    assert(a =~= stem + decimal(n) + tail);
    assert(b =~= stem + decimal(m) + tail);
    if a == b {
        assert(decimal(n).len() == decimal(m).len());
        assert(decimal(n) =~= a.subrange(stem.len() as int, (stem.len() + decimal(n).len()) as int));
        assert(decimal(m) =~= b.subrange(stem.len() as int, (stem.len() + decimal(m).len()) as int));
        lemma_decimal_injective(n, m);
    }
}

} // verus!
