//! Importing Chromium-family bookmark trees into the flat bookmark list,
//! and the path logic around finding the file. Reading the file, parsing
//! its JSON and probing the disk are left to the caller.

use vstd::prelude::*;
use crate::text::{
    trim, strip_prefix, chars_of, string_of, trim_chars, chars_eq_str, strip_prefix_str, push_all,
    push_str, slice_copy, starts_with, starts_with_str,
};
use crate::bookmarks::{Bookmark, BookmarkView, bookmark_views};
use crate::name_sort::{stable_sort_by_rank, stably_ranked};

verus! {

/// How many bookmarks an import added and how many it passed over.
#[derive(Clone, Copy, Debug, PartialEq, Eq, Structural)]
pub struct ImportStats {
    pub added: usize,
    pub skipped: usize,
}

/// One node of a Chromium `Bookmarks` tree: a `url` leaf or a `folder`.
pub struct ChromeNode {
    /// `url`, `folder`, or something else (ignored).
    pub kind: String,
    pub name: String,
    pub url: Option<String>,
    pub children: Vec<ChromeNode>,
}

/// `a` and `b` joined by `/`, or `b` alone when `a` is empty.
pub open spec fn child_path(parent: Seq<char>, name: Seq<char>) -> Seq<char> {
    if parent.len() == 0 {
        name
    } else {
        parent + seq!['/'] + name
    }
}

/// The bookmarks under `node`, in document order, each with the path of
/// folder names above it (the roots themselves are not part of a path).
pub open spec fn collected(node: ChromeNode, parent: Seq<char>) -> Seq<BookmarkView>
    decreases node, 0int,
{
    if node.kind@ == "url"@ {
        match node.url {
            Some(u) => seq![
                BookmarkView {
                    url: u@,
                    title: Some(node.name@),
                    folder: if parent.len() == 0 {
                        None
                    } else {
                        Some(parent)
                    },
                },
            ],
            None => Seq::empty(),
        }
    } else if node.kind@ == "folder"@ {
        proof {
            assert(decreases_to!(node => node.children));
        }
        collected_all(node.children@, child_path(parent, node.name@), node.children@.len() as int)
    } else {
        Seq::empty()
    }
}

/// The bookmarks under the first `n` of `nodes`, in order.
pub open spec fn collected_all(nodes: Seq<ChromeNode>, parent: Seq<char>, n: int) -> Seq<
    BookmarkView,
>
    decreases nodes, n,
{
    if n <= 0 || n > nodes.len() {
        Seq::empty()
    } else {
        collected_all(nodes, parent, n - 1) + collected(nodes[n - 1], parent)
    }
}

fn collect(node: &ChromeNode, parent: &[char], out: &mut Vec<Bookmark>)
    ensures
        bookmark_views(final(out)@) == bookmark_views(old(out)@) + collected(*node, parent@),
    decreases node,
{
    let kind = chars_of(node.kind.as_str());
    if chars_eq_str(kind.as_slice(), "url") {
        match &node.url {
            Some(u) => {
                let folder = if parent.len() == 0 {
                    None
                } else {
                    Some(string_of(parent))
                };
                let ghost before = bookmark_views(out@);
                out.push(Bookmark { url: u.clone(), title: Some(node.name.clone()), folder });
                assert(bookmark_views(out@) =~= before + collected(*node, parent@));
            },
            None => {
                assert(bookmark_views(out@) =~= bookmark_views(out@) + Seq::<BookmarkView>::empty());
            },
        }
    } else if chars_eq_str(kind.as_slice(), "folder") {
        let mut path: Vec<char> = Vec::new();
        push_all(&mut path, parent);
        if parent.len() > 0 {
            path.push('/');
        }
        push_str(&mut path, node.name.as_str());
        assert(path@ == child_path(parent@, node.name@));
        let ghost start = bookmark_views(out@);
        let mut i: usize = 0;
        while i < node.children.len()
            invariant
                i <= node.children@.len(),
                path@ == child_path(parent@, node.name@),
                bookmark_views(out@) == start + collected_all(node.children@, path@, i as int),
            decreases node.children@.len() - i,
        {
            assert(decreases_to!(node => node.children));
            collect(&node.children[i], path.as_slice(), out);
            i = i + 1;
            assert(start + collected_all(node.children@, path@, i as int) =~= start + collected_all(
                node.children@,
                path@,
                i - 1,
            ) + collected(node.children@[i - 1], path@));
        }
    } else {
        assert(bookmark_views(out@) =~= bookmark_views(out@) + Seq::<BookmarkView>::empty());
    }
}

/// The bookmarks of every top-level node under the given roots
/// (bookmark bar, other, synced), flattened in order.
pub open spec fn flattened(roots: Seq<ChromeNode>) -> Seq<BookmarkView>
    decreases roots.len(),
{
    if roots.len() == 0 {
        Seq::empty()
    } else {
        flattened(roots.drop_last()) + collected_all(
            roots.last().children@,
            Seq::empty(),
            roots.last().children@.len() as int,
        )
    }
}

/// Flattens the children of each root into bookmarks (roots are not part
/// of folder paths).
pub fn flatten_roots(roots: &[ChromeNode]) -> (r: Vec<Bookmark>)
    ensures
        bookmark_views(r@) == flattened(roots@),
{
    let mut out: Vec<Bookmark> = Vec::new();
    let empty: Vec<char> = Vec::new();
    let mut k: usize = 0;
    assert(bookmark_views(out@) =~= Seq::<BookmarkView>::empty());
    assert(roots@.take(0) =~= Seq::<ChromeNode>::empty());
    while k < roots.len()
        invariant
            k <= roots@.len(),
            empty@ == Seq::<char>::empty(),
            bookmark_views(out@) == flattened(roots@.take(k as int)),
        decreases roots@.len() - k,
    {
        let root = &roots[k];
        let ghost start = bookmark_views(out@);
        let mut i: usize = 0;
        while i < root.children.len()
            invariant
                i <= root.children@.len(),
                empty@ == Seq::<char>::empty(),
                bookmark_views(out@) == start + collected_all(root.children@, empty@, i as int),
            decreases root.children@.len() - i,
        {
            collect(&root.children[i], empty.as_slice(), &mut out);
            i = i + 1;
            assert(start + collected_all(root.children@, empty@, i as int) =~= start
                + collected_all(root.children@, empty@, i - 1) + collected(
                root.children@[i - 1],
                empty@,
            ));
        }
        assert(roots@.take(k + 1).drop_last() == roots@.take(k as int));
        assert(roots@.take(k + 1).last() == *root);
        k = k + 1;
    }
    assert(roots@.take(roots@.len() as int) == roots@);
    out
}

/// Why an import did not happen.
#[derive(Clone, Copy, Debug, PartialEq, Eq, Structural)]
pub enum ImportError {
    /// The file held no bookmarks.
    NoBookmarks,
}

impl ImportError {
    /// What the import reports.
    pub fn message(&self) -> (r: &'static str)
        ensures
            r@ == "no bookmarks found in file"@,
    {
        match self {
            ImportError::NoBookmarks => "no bookmarks found in file",
        }
    }
}

/// Some bookmark of `bs` has this URL.
pub open spec fn has_url(bs: Seq<BookmarkView>, url: Seq<char>) -> bool {
    exists|i: int| 0 <= i < bs.len() && #[trigger] bs[i].url == url
}

/// The bookmarks after merging `imported` (in order) into `existing`: an
/// imported bookmark whose URL was already saved before the import is
/// skipped, every other one is appended.
pub open spec fn merged(existing: Seq<BookmarkView>, imported: Seq<BookmarkView>) -> (
    Seq<BookmarkView>,
    nat,
)
    decreases imported.len(),
{
    if imported.len() == 0 {
        (existing, 0)
    } else {
        let (m, skipped) = merged(existing, imported.drop_last());
        let b = imported.last();
        if has_url(existing, b.url) {
            (m, skipped + 1)
        } else {
            (m.push(b), skipped)
        }
    }
}

fn has_url_exec(bs: &Vec<Bookmark>, n: usize, url: &str) -> (r: bool)
    requires
        n <= bs@.len(),
    ensures
        r == has_url(bookmark_views(bs@).take(n as int), url@),
{
    let ghost v = bookmark_views(bs@).take(n as int);
    let mut i: usize = 0;
    while i < n
        invariant
            i <= n <= bs@.len(),
            v == bookmark_views(bs@).take(n as int),
            forall|j: int| 0 <= j < i ==> #[trigger] v[j].url != url@,
        decreases n - i,
    {
        if chars_eq_str(chars_of(bs[i].url.as_str()).as_slice(), url) {
            assert(v[i as int].url == url@);
            return true;
        }
        i = i + 1;
    }
    false
}

/// Merges imported bookmarks into `bookmarks`, deduplicating by URL
/// against the bookmarks saved before; an empty import is refused.
pub fn merge_imported(bookmarks: &mut Vec<Bookmark>, imported: Vec<Bookmark>) -> (r: Result<
    ImportStats,
    ImportError,
>)
    ensures
        imported@.len() == 0 ==> r == Err::<ImportStats, ImportError>(ImportError::NoBookmarks)
            && final(bookmarks)@ == old(bookmarks)@,
        imported@.len() > 0 ==> ({
            let (m, skipped) = merged(bookmark_views(old(bookmarks)@), bookmark_views(imported@));
            &&& r matches Ok(stats)
            &&& bookmark_views(final(bookmarks)@) == m
            &&& stats.skipped == skipped
            &&& stats.added + stats.skipped == imported@.len()
        }),
{
    if imported.len() == 0 {
        return Err(ImportError::NoBookmarks);
    }
    let n = bookmarks.len();
    let ghost existing = bookmark_views(bookmarks@);
    let ghost inc = bookmark_views(imported@);
    let mut stats = ImportStats { added: 0, skipped: 0 };
    let mut i: usize = 0;
    assert(inc.take(0) =~= Seq::<BookmarkView>::empty());
    while i < imported.len()
        invariant
            i <= imported@.len(),
            n <= bookmarks@.len(),
            inc == bookmark_views(imported@),
            existing == bookmark_views(bookmarks@).take(n as int),
            (bookmark_views(bookmarks@), stats.skipped as nat) == merged(existing, inc.take(i as int)),
            stats.added + stats.skipped == i,
        decreases imported@.len() - i,
    {
        assert(inc.take(i + 1).drop_last() == inc.take(i as int));
        assert(inc.take(i + 1).last() == imported@[i as int]@);
        let b = &imported[i];
        if has_url_exec(bookmarks, n, b.url.as_str()) {
            stats.skipped = stats.skipped + 1;
        } else {
            let ghost before = bookmark_views(bookmarks@);
            bookmarks.push(Bookmark { url: b.url.clone(), title: crate::vault::clone_opt(&b.title), folder: crate::vault::clone_opt(&b.folder) });
            assert(bookmark_views(bookmarks@) =~= before.push(b@));
            assert(bookmark_views(bookmarks@).take(n as int) =~= before.take(n as int));
            stats.added = stats.added + 1;
        }
        i = i + 1;
    }
    assert(inc.take(imported@.len() as int) == inc);
    Ok(stats)
}

/// Merging keeps every saved bookmark where it was, appends only
/// bookmarks whose URL was not saved before, and accounts for every
/// imported bookmark as added or skipped.
pub proof fn law_merge_keeps_saved(existing: Seq<BookmarkView>, imported: Seq<BookmarkView>)
    ensures
        merged(existing, imported).0.len() >= existing.len(),
        merged(existing, imported).0.take(existing.len() as int) == existing,
        merged(existing, imported).0.len() + merged(existing, imported).1 == existing.len()
            + imported.len(),
        forall|i: int|
            existing.len() <= i < merged(existing, imported).0.len() ==> !has_url(
                existing,
                #[trigger] merged(existing, imported).0[i].url,
            ),
    decreases imported.len(),
{
    if imported.len() > 0 {
        law_merge_keeps_saved(existing, imported.drop_last());
        let (m, k) = merged(existing, imported.drop_last());
        let b = imported.last();
        if !has_url(existing, b.url) {
            assert(m.push(b).take(existing.len() as int) =~= m.take(existing.len() as int));
            assert forall|i: int| existing.len() <= i < m.push(b).len() implies !has_url(
                existing,
                #[trigger] m.push(b)[i].url,
            ) by {
                if i < m.len() {
                    assert(m.push(b)[i] == m[i]);
                }
            }
        }
    }
}

/// `PathBuf::join` on Unix: an absolute `rest` replaces the base; else a
/// `/` goes between unless the base is empty or already ends in one.
pub open spec fn path_join(base: Seq<char>, rest: Seq<char>) -> Seq<char> {
    if rest.len() > 0 && rest[0] == '/' {
        rest
    } else if base.len() == 0 || base.last() == '/' {
        base + rest
    } else {
        base + seq!['/'] + rest
    }
}

pub fn join_path(base: &str, rest: &str) -> (r: String)
    ensures
        r@ == path_join(base@, rest@),
{
    let b = chars_of(base);
    let t = chars_of(rest);
    if t.len() > 0 && t[0] == '/' {
        return string_of(t.as_slice());
    }
    let mut out: Vec<char> = Vec::new();
    push_all(&mut out, b.as_slice());
    if !(b.len() == 0 || b[b.len() - 1] == '/') {
        out.push('/');
    }
    push_all(&mut out, t.as_slice());
    string_of(out.as_slice())
}

/// A typed path with `~` for the home directory expanded: `~` alone is
/// home, `~/rest` is home joined with rest, anything else is itself
/// (trimmed either way).
pub open spec fn expanded_path(path: Seq<char>, home: Seq<char>) -> Seq<char> {
    let p = trim(path);
    if p == "~"@ {
        home
    } else {
        match strip_prefix(p, "~/"@) {
            Some(rest) => path_join(home, rest),
            None => p,
        }
    }
}

pub fn expand_user_path(path: &str, home: &str) -> (r: String)
    ensures
        r@ == expanded_path(path@, home@),
{
    let p = trim_chars(chars_of(path).as_slice());
    if chars_eq_str(p.as_slice(), "~") {
        return string_of(chars_of(home).as_slice());
    }
    match strip_prefix_str(p.as_slice(), "~/") {
        Some(rest) => {
            let rs = string_of(rest.as_slice());
            join_path(home, rs.as_str())
        },
        None => string_of(p.as_slice()),
    }
}

/// What the disk says about one browser config root.
pub struct RootProbe {
    /// The root directory.
    pub root: String,
    /// `root/Default` is a directory.
    pub default_is_dir: bool,
    /// `root` itself is a directory.
    pub root_is_dir: bool,
}

/// Where the file dialog starts when no bookmarks file was found: the
/// `Default` profile of the first root that has one, else that root when
/// it exists (roots tried in order); else `~/.config` when it exists,
/// else home.
pub open spec fn fallback_start(roots: Seq<RootProbe>, home: Seq<char>, config_is_dir: bool) -> Seq<
    char,
>
    decreases roots.len(),
{
    if roots.len() == 0 {
        if config_is_dir {
            path_join(home, ".config"@)
        } else {
            home
        }
    } else if roots[0].default_is_dir {
        path_join(roots[0].root@, "Default"@)
    } else if roots[0].root_is_dir {
        roots[0].root@
    } else {
        fallback_start(roots.drop_first(), home, config_is_dir)
    }
}

/// Best starting directory and file-name hint for the file dialog: the
/// directory and name of the best bookmarks file found (`best`, given as
/// directory and file name), else a directory from `fallback_start` and
/// no name.
pub fn dialog_start(best: Option<(String, String)>, roots: &[RootProbe], home: &str, config_is_dir: bool) -> (r: (
    Option<String>,
    Option<String>,
))
    ensures
        match best {
            Some((dir, name)) => (r.0 matches Some(d) && d@ == dir@) && (r.1 matches Some(n) && n@
                == name@),
            None => (r.0 matches Some(d) && d@ == fallback_start(roots@, home@, config_is_dir))
                && r.1 is None,
        },
{
    let ghost no_best = best is None;
    if let Some((dir, name)) = best {
        return (Some(dir), Some(name));
    }
    let mut i: usize = 0;
    assert(roots@.skip(0) == roots@);
    while i < roots.len()
        invariant
            no_best == (best is None),
            no_best,
            i <= roots@.len(),
            fallback_start(roots@, home@, config_is_dir) == fallback_start(
                roots@.skip(i as int),
                home@,
                config_is_dir,
            ),
        decreases roots@.len() - i,
    {
        let ghost rest = roots@.skip(i as int);
        assert(rest[0] == roots@[i as int]);
        assert(rest.drop_first() == roots@.skip(i + 1));
        if roots[i].default_is_dir {
            return (Some(join_path(roots[i].root.as_str(), "Default")), None);
        }
        if roots[i].root_is_dir {
            return (Some(roots[i].root.clone()), None);
        }
        i = i + 1;
    }
    assert(roots@.skip(i as int).len() == 0);
    if config_is_dir {
        (Some(join_path(home, ".config")), None)
    } else {
        (Some(string_of(chars_of(home).as_slice())), None)
    }
}


/// Where Chromium-family browsers keep their profiles, under home: the
/// usual config directories, then Flatpak, then Snap locations.
pub open spec fn root_suffixes() -> Seq<Seq<char>> {
    seq![
        ".config/google-chrome"@,
        ".config/google-chrome-beta"@,
        ".config/google-chrome-unstable"@,
        ".config/chromium"@,
        ".config/chromium-browser"@,
        ".config/BraveSoftware/Brave-Browser"@,
        ".config/BraveSoftware/Brave-Browser-Beta"@,
        ".config/microsoft-edge"@,
        ".config/microsoft-edge-beta"@,
        ".config/vivaldi"@,
        ".config/opera"@,
        ".config/opera-beta"@,
        ".var/app/com.google.Chrome/config/google-chrome"@,
        ".var/app/com.google.ChromeDev/config/google-chrome"@,
        ".var/app/org.chromium.Chromium/config/chromium"@,
        ".var/app/com.brave.Browser/config/BraveSoftware/Brave-Browser"@,
        ".var/app/com.microsoft.Edge/config/microsoft-edge"@,
        "snap/chromium/common/chromium"@,
        "snap/brave/current/.config/BraveSoftware/Brave-Browser"@,
    ]
}

/// Browser config roots that may hold a Chromium-style `Bookmarks` file.
pub fn browser_config_roots(home: &str) -> (r: Vec<String>)
    ensures
        r@.len() == root_suffixes().len(),
        forall|i: int| 0 <= i < r@.len() ==> #[trigger] r@[i]@ == path_join(home@, root_suffixes()[i]),
{
    let mut roots: Vec<String> = Vec::new();
    roots.push(join_path(home, ".config/google-chrome"));
    roots.push(join_path(home, ".config/google-chrome-beta"));
    roots.push(join_path(home, ".config/google-chrome-unstable"));
    roots.push(join_path(home, ".config/chromium"));
    roots.push(join_path(home, ".config/chromium-browser"));
    roots.push(join_path(home, ".config/BraveSoftware/Brave-Browser"));
    roots.push(join_path(home, ".config/BraveSoftware/Brave-Browser-Beta"));
    roots.push(join_path(home, ".config/microsoft-edge"));
    roots.push(join_path(home, ".config/microsoft-edge-beta"));
    roots.push(join_path(home, ".config/vivaldi"));
    roots.push(join_path(home, ".config/opera"));
    roots.push(join_path(home, ".config/opera-beta"));
    roots.push(join_path(home, ".var/app/com.google.Chrome/config/google-chrome"));
    roots.push(join_path(home, ".var/app/com.google.ChromeDev/config/google-chrome"));
    roots.push(join_path(home, ".var/app/org.chromium.Chromium/config/chromium"));
    roots.push(join_path(home, ".var/app/com.brave.Browser/config/BraveSoftware/Brave-Browser"));
    roots.push(join_path(home, ".var/app/com.microsoft.Edge/config/microsoft-edge"));
    roots.push(join_path(home, "snap/chromium/common/chromium"));
    roots.push(join_path(home, "snap/brave/current/.config/BraveSoftware/Brave-Browser"));
    roots
}


/// A directory under a browser root that holds a profile: `Default`,
/// `Profile N`, the guest or the system profile.
pub open spec fn is_profile_name(name: Seq<char>) -> bool {
    name == "Default"@ || starts_with(name, "Profile "@) || name == "Guest Profile"@ || name
        == "System Profile"@
}

/// Whether a directory under a browser root is a profile.
pub fn looks_like_profile(name: &str) -> (r: bool)
    ensures
        r == is_profile_name(name@),
{
    let v = chars_of(name);
    chars_eq_str(v.as_slice(), "Default") || starts_with_str(v.as_slice(), "Profile ")
        || chars_eq_str(v.as_slice(), "Guest Profile") || chars_eq_str(v.as_slice(), "System Profile")
}

/// The names a profile may keep its bookmarks under: the local file, then
/// the one that account sync writes.
pub fn bookmark_file_names() -> (r: Vec<&'static str>)
    ensures
        r@.len() == 2,
        r@[0]@ == "Bookmarks"@,
        r@[1]@ == "AccountBookmarks"@,
{
    let mut v: Vec<&'static str> = Vec::new();
    v.push("Bookmarks");
    v.push("AccountBookmarks");
    v
}

/// Files no bigger than this are empty shells and are passed over.
pub const MIN_BOOKMARKS_FILE_SIZE: u64 = 64;

/// Whether a bookmarks file of `size` bytes is worth offering.
pub fn worth_importing(size: u64) -> (r: bool)
    ensures
        r == (size > MIN_BOOKMARKS_FILE_SIZE),
{
    size > MIN_BOOKMARKS_FILE_SIZE
}

/// Orders the bookmarks files found, each with its (size, modification
/// time in nanoseconds) key: the largest first and, among equal sizes,
/// the newest first, files that tie keeping the order they were found in.
pub fn rank_bookmark_files(paths: &mut Vec<String>, keys: &mut Vec<(u64, u128)>)
    requires
        old(paths)@.len() == old(keys)@.len(),
    ensures
        stably_ranked(final(paths)@, final(keys)@, old(paths)@, old(keys)@),
{
    stable_sort_by_rank(paths, keys);
}

} // verus!
