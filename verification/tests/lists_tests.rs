use spatial_browser::list_actions::{context_action_step, ContextActionKind, ContextMenuState};
use spatial_browser::bookmarks::{display_label, host_of, Bookmark};
use spatial_browser::bookmarks_chrome::{
    browser_config_roots, dialog_start, expand_user_path, flatten_roots, merge_imported,
    ChromeNode, ImportError, RootProbe,
};
use spatial_browser::downloads::{self, download_file_name, first_completion, DownloadRecord, MAX_DOWNLOADS};
use spatial_browser::paths::split_file_name;
use spatial_browser::history::{self, HistoryEntry, MAX_HISTORY};
use spatial_browser::list_actions::{
    apply_bookmark_action, apply_download_action, apply_history_action, bookmark_url,
    workspace_action_step, WorkspaceStep,
};
use spatial_browser::nav_actions::{BookmarkAction, DownloadPageAction, HistoryPageAction, WorkspacePageAction};
use spatial_browser::typed_history::{self, MAX_TYPED_HISTORY};

fn url_node(name: &str, url: &str) -> ChromeNode {
    ChromeNode { kind: "url".to_string(), name: name.to_string(), url: Some(url.to_string()), children: vec![] }
}

fn folder(name: &str, children: Vec<ChromeNode>) -> ChromeNode {
    ChromeNode { kind: "folder".to_string(), name: name.to_string(), url: None, children }
}

fn bm(url: &str) -> Bookmark {
    Bookmark { url: url.to_string(), title: None, folder: None }
}

#[test]
fn history_keeps_newest_first() {
    let mut h: Vec<HistoryEntry> = Vec::new();
    history::record(&mut h, "https://a.com", 1);
    history::record(&mut h, "https://b.com", 2);
    history::record(&mut h, "https://b.com", 3);
    assert_eq!(h.len(), 2);
    assert_eq!(h[0].url, "https://b.com");
    assert_eq!(h[0].visited_at, 3);
    for i in 0..250 {
        history::record(&mut h, &format!("https://{i}.com"), i);
    }
    assert_eq!(h.len(), MAX_HISTORY);
    assert_eq!(h[0].url, "https://249.com");
}

#[test]
fn downloads_newest_first_and_capped() {
    let mut d: Vec<DownloadRecord> = Vec::new();
    for i in 0..205 {
        downloads::record(&mut d, DownloadRecord { url: format!("u{i}"), path: format!("/tmp/{i}") });
    }
    assert_eq!(d.len(), MAX_DOWNLOADS);
    assert_eq!(d[0].path, "/tmp/204");
    assert_eq!(d[1].path, "/tmp/203");
}

#[test]
fn typed_history_moves_repeats_to_front() {
    let mut t: Vec<String> = Vec::new();
    typed_history::record(&mut t, "a");
    typed_history::record(&mut t, "b");
    typed_history::record(&mut t, "a");
    assert_eq!(t, vec!["a".to_string(), "b".to_string()]);
    for i in 0..60 {
        typed_history::record(&mut t, &format!("q{i}"));
    }
    assert_eq!(t.len(), MAX_TYPED_HISTORY);
    assert_eq!(t[0], "q59");
}

#[test]
fn labels_and_hosts() {
    assert_eq!(host_of("https://user@host.com:8080/x?y#z"), "user@host.com:8080");
    assert_eq!(host_of("host.com/path"), "host.com");
    let b = Bookmark { url: "https://rust-lang.org/learn".to_string(), title: Some(String::new()), folder: None };
    assert_eq!(display_label(&b), "rust-lang.org");
    let c = Bookmark { title: Some("Rust".to_string()), ..b };
    assert_eq!(display_label(&c), "Rust");
}

#[test]
fn chrome_tree_flattens_with_folder_paths() {
    let bar = folder("Bookmarks bar", vec![
        url_node("Top", "https://top.com"),
        folder("Dev", vec![url_node("Rust", "https://rust-lang.org"), folder("Deep", vec![url_node("D", "https://d.com")])]),
        ChromeNode { kind: "url".to_string(), name: "NoUrl".to_string(), url: None, children: vec![] },
    ]);
    let other = folder("Other", vec![url_node("O", "https://o.com")]);
    let flat = flatten_roots(&[bar, other]);
    let got: Vec<(String, Option<String>, Option<String>)> =
        flat.iter().map(|b| (b.url.clone(), b.title.clone(), b.folder.clone())).collect();
    assert_eq!(got, vec![
        ("https://top.com".to_string(), Some("Top".to_string()), None),
        ("https://rust-lang.org".to_string(), Some("Rust".to_string()), Some("Dev".to_string())),
        ("https://d.com".to_string(), Some("D".to_string()), Some("Dev/Deep".to_string())),
        ("https://o.com".to_string(), Some("O".to_string()), None),
    ]);
}

#[test]
fn chrome_import_dedupes_by_existing_url() {
    let mut saved = vec![bm("https://a.com")];
    assert!(matches!(merge_imported(&mut saved, vec![]), Err(ImportError::NoBookmarks)));
    let stats = merge_imported(&mut saved, vec![bm("https://a.com"), bm("https://b.com"), bm("https://b.com")]).unwrap();
    assert_eq!(stats.added, 2);
    assert_eq!(stats.skipped, 1);
    assert_eq!(saved.len(), 3);
}

#[test]
fn user_paths_expand_home() {
    assert_eq!(expand_user_path(" ~ ", "/home/me"), "/home/me");
    assert_eq!(expand_user_path("~/Bookmarks", "/home/me"), "/home/me/Bookmarks");
    assert_eq!(expand_user_path("~/x", "/home/me/"), "/home/me/x");
    assert_eq!(expand_user_path("~//etc/x", "/home/me"), "/etc/x");
    assert_eq!(expand_user_path("/abs/path", "/home/me"), "/abs/path");
}

#[test]
fn dialog_start_falls_back_in_order() {
    let best = Some(("/p/Default".to_string(), "Bookmarks".to_string()));
    assert_eq!(dialog_start(best, &[], "/h", true), (Some("/p/Default".to_string()), Some("Bookmarks".to_string())));
    let roots = vec![
        RootProbe { root: "/h/.config/a".to_string(), default_is_dir: false, root_is_dir: false },
        RootProbe { root: "/h/.config/b".to_string(), default_is_dir: false, root_is_dir: true },
        RootProbe { root: "/h/.config/c".to_string(), default_is_dir: true, root_is_dir: true },
    ];
    assert_eq!(dialog_start(None, &roots, "/h", true), (Some("/h/.config/b".to_string()), None));
    assert_eq!(dialog_start(None, &roots[2..], "/h", true), (Some("/h/.config/c/Default".to_string()), None));
    assert_eq!(dialog_start(None, &[], "/h", true), (Some("/h/.config".to_string()), None));
    assert_eq!(dialog_start(None, &[], "/h", false), (Some("/h".to_string()), None));
    let roots = browser_config_roots("/home/me");
    assert_eq!(roots.len(), 19);
    assert_eq!(roots[0], "/home/me/.config/google-chrome");
    assert_eq!(roots[18], "/home/me/snap/brave/current/.config/BraveSoftware/Brave-Browser");
}

#[test]
fn list_page_actions() {
    let mut b = vec![bm("https://a.com"), bm("https://b.com")];
    let e = apply_bookmark_action(&mut b, BookmarkAction::Open(1));
    assert_eq!(e.open, Some("https://b.com".to_string()));
    let e = apply_bookmark_action(&mut b, BookmarkAction::Rename(0, "A".to_string(), String::new()));
    assert!(e.save && e.refresh);
    assert_eq!(b[0].title, Some("A".to_string()));
    assert_eq!(b[0].folder, None);
    let e = apply_bookmark_action(&mut b, BookmarkAction::Delete(5));
    assert!(!e.save && e.refresh && b.len() == 2);
    apply_bookmark_action(&mut b, BookmarkAction::Delete(0));
    assert_eq!(b.len(), 1);
    assert!(bookmark_url(&mut b, "https://c.com", false));
    assert!(!bookmark_url(&mut b, "https://c.com", false));
    assert!(!bookmark_url(&mut b, "data:text/html,x", true));
    assert_eq!(b.len(), 2);

    let mut d = vec![DownloadRecord { url: "u".to_string(), path: "/f".to_string() }];
    assert_eq!(apply_download_action(&mut d, DownloadPageAction::Open(0)).open, Some("/f".to_string()));
    assert!(apply_download_action(&mut d, DownloadPageAction::Remove(0)).save);
    assert!(d.is_empty());

    let mut h = vec![HistoryEntry { url: "https://x.com".to_string(), visited_at: 1 }];
    assert_eq!(apply_history_action(&mut h, HistoryPageAction::Open(0)).open, Some("https://x.com".to_string()));
    assert!(apply_history_action(&mut h, HistoryPageAction::Clear).save);
    assert!(h.is_empty());

    assert!(workspace_action_step(&[1, 2, 3], WorkspacePageAction::Load(1)) == WorkspaceStep::SwitchTo(2));
    assert!(workspace_action_step(&[1, 2, 3], WorkspacePageAction::Delete(7)) == WorkspaceStep::Nothing);
    assert!(workspace_action_step(&[1], WorkspacePageAction::SaveNew) == WorkspaceStep::AddAndSwitch);
}

#[test]
fn download_names_and_completion() {
    assert_eq!(download_file_name("report.pdf", 0), "report.pdf");
    assert_eq!(download_file_name("report.pdf", 1), "report (1).pdf");
    assert_eq!(download_file_name("archive.tar.gz", 2), "archive.tar (2).gz");
    assert_eq!(download_file_name("README", 3), "README (3)");
    assert_eq!(download_file_name(".bashrc", 1), ".bashrc (1)");
    assert_eq!(download_file_name("", 1), "download (1)");
    assert_eq!(download_file_name("dir/a.txt", 12), "a (12).txt");
    assert_eq!(split_file_name("a."), ("a".to_string(), Some(String::new())));
    assert_eq!(split_file_name(".."), ("..".to_string(), None));
    let mut seen = Vec::new();
    assert!(first_completion(&mut seen, 7));
    assert!(!first_completion(&mut seen, 7));
    assert!(first_completion(&mut seen, 8));
    assert_eq!(seen, vec![7, 8]);
}

#[test]
fn download_candidates_never_repeat() {
    let mut seen: Vec<String> = Vec::new();
    for n in 1..120 {
        let c = download_file_name("photo.jpeg", n);
        assert!(!seen.contains(&c));
        seen.push(c);
    }
}

#[test]
fn download_names_follow_path_components() {
    assert_eq!(download_file_name("dir/sub/", 1), "sub (1)");
    assert_eq!(download_file_name("x.txt/.", 2), "x (2).txt");
    assert_eq!(download_file_name("a/..", 1), "download (1)");
    assert_eq!(download_file_name("/", 1), "download (1)");
    assert_eq!(download_file_name("./notes.md", 3), "notes (3).md");
}

#[test]
fn context_menu_steps_dismiss_and_target() {
    let mut menu = Some(ContextMenuState { menu_browser_id: 9, target_browser_id: Some(4) });
    let s = context_action_step(&mut menu, ContextActionKind::ClosePage, 9, None);
    assert_eq!((s.close_menu_page, s.target), (Some(9), Some(4)));
    assert!(menu.is_none());
    let s = context_action_step(&mut menu, ContextActionKind::SaveImage, 7, None);
    assert_eq!((s.close_menu_page, s.target), (None, Some(7)));
    let mut menu = Some(ContextMenuState { menu_browser_id: 9, target_browser_id: None });
    let s = context_action_step(&mut menu, ContextActionKind::Hit, 3, Some(5));
    assert_eq!((s.close_menu_page, s.target), (Some(9), Some(5)));
    let mut menu = Some(ContextMenuState { menu_browser_id: 9, target_browser_id: Some(2) });
    let s = context_action_step(&mut menu, ContextActionKind::NewPage, 9, None);
    assert_eq!((s.close_menu_page, s.target), (Some(9), None));
}
