use spatial_browser::bookmarks_chrome::{
    bookmark_file_names, looks_like_profile, rank_bookmark_files, worth_importing, ImportError,
};
use spatial_browser::canvas::{grid_shape, next_theme_index, PageStack, MAX_CLOSED};
use spatial_browser::cursor::{cef_cursor_to_winit, CefCursor, CursorShape};
use spatial_browser::parked::WorkspaceRuntime;
use spatial_browser::vault::VaultError;
use spatial_browser::vault_csv::logins_to_import;

#[test]
fn page_stack_z_order() {
    let mut s: PageStack<&str, u32> = PageStack::new(vec!["a", "b", "c"]);
    assert!(!s.is_dirty());
    s.rotate_focus(false);
    assert_eq!(s.pages, vec!["b", "c", "a"]);
    assert!(s.is_dirty());
    s.rotate_focus(true);
    assert_eq!(s.pages, vec!["a", "b", "c"]);
    s.clear_dirty();
    assert_eq!(s.bring_to_front(0), 2);
    assert_eq!(s.pages, vec!["b", "c", "a"]);
    assert!(s.is_dirty());
    assert_eq!(s.remove_at(5), None);
    assert_eq!(s.remove_at(1), Some("c"));
    assert_eq!(s.pages, vec!["b", "a"]);
    s.add_page("d");
    assert_eq!(s.pop_topmost(), Some("d"));
    let mut empty: PageStack<&str, u32> = PageStack::new(vec![]);
    empty.rotate_focus(false);
    assert!(!empty.is_dirty());
    assert_eq!(empty.pop_topmost(), None);
    assert!(!empty.is_dirty());
}

#[test]
fn closed_pages_come_back_newest_first_and_are_capped() {
    let mut s: PageStack<&str, u32> = PageStack::new(vec![]);
    for i in 0..25u32 {
        s.remember_closed(i, format!("https://p{i}.example/"));
    }
    assert_eq!(s.closed.len(), MAX_CLOSED);
    assert_eq!(s.pop_closed(), Some((24, "https://p24.example/".to_string())));
    assert_eq!(s.closed[0].0, 5);
    while s.pop_closed().is_some() {}
    assert_eq!(s.pop_closed(), None);
}

#[test]
fn grid_shapes() {
    assert_eq!(grid_shape(1), (1, 1));
    assert_eq!(grid_shape(2), (2, 1));
    assert_eq!(grid_shape(3), (2, 2));
    assert_eq!(grid_shape(4), (2, 2));
    assert_eq!(grid_shape(5), (3, 2));
    assert_eq!(grid_shape(9), (3, 3));
    assert_eq!(grid_shape(10), (4, 3));
    for n in 1..200usize {
        let (cols, rows) = grid_shape(n);
        assert_eq!(cols, (n as f32).sqrt().ceil() as usize);
        assert_eq!(rows, (n + cols - 1) / cols);
    }
}

#[test]
fn theme_cycle() {
    let names = ["Tokyo Night", "ANSI Terminal"];
    assert_eq!(next_theme_index(&names, "Tokyo Night"), 1);
    assert_eq!(next_theme_index(&names, "ANSI Terminal"), 0);
    assert_eq!(next_theme_index(&names, "unknown"), 1);
}

#[test]
fn bookmark_file_discovery_rules() {
    assert!(looks_like_profile("Default"));
    assert!(looks_like_profile("Profile 3"));
    assert!(looks_like_profile("Guest Profile"));
    assert!(looks_like_profile("System Profile"));
    assert!(!looks_like_profile("Crashpad"));
    assert!(!looks_like_profile("Profile"));
    assert_eq!(bookmark_file_names(), vec!["Bookmarks", "AccountBookmarks"]);
    assert!(!worth_importing(64));
    assert!(worth_importing(65));
    let mut paths = vec!["small".to_string(), "big-old".to_string(), "big-new".to_string(), "tie".to_string()];
    let mut keys = vec![(100u64, 5u128), (900, 1), (900, 7), (100, 5)];
    rank_bookmark_files(&mut paths, &mut keys);
    assert_eq!(paths, vec!["big-new", "big-old", "small", "tie"]);
    assert_eq!(keys, vec![(900, 7), (900, 1), (100, 5), (100, 5)]);
}

#[test]
fn error_messages() {
    assert_eq!(VaultError::BadPassword.message(), "wrong master password");
    assert_eq!(VaultError::Corrupt("bad magic").message(), "corrupt vault: bad magic");
    assert_eq!(VaultError::Io("gone".to_string()).message(), "gone");
    assert_eq!(ImportError::NoBookmarks.message(), "no bookmarks found in file");
    assert_eq!(
        logins_to_import("name,url,username,password\n").err().as_deref(),
        Some("no login rows found (Chrome or Bitwarden CSV?)")
    );
    assert_eq!(logins_to_import("name,url,username,password\nx,https://a.com,u,p\n").unwrap().len(), 1);
}

#[test]
fn cursor_shapes() {
    assert_eq!(cef_cursor_to_winit(CefCursor::Hand), CursorShape::Pointer);
    assert_eq!(cef_cursor_to_winit(CefCursor::IBeam), CursorShape::Text);
    assert_eq!(cef_cursor_to_winit(CefCursor::NorthPanning), CursorShape::AllScroll);
    assert_eq!(cef_cursor_to_winit(CefCursor::DndMove), CursorShape::Grab);
    assert_eq!(cef_cursor_to_winit(CefCursor::DndLink), CursorShape::Alias);
    assert_eq!(cef_cursor_to_winit(CefCursor::Invisible), CursorShape::Default);
    assert_eq!(cef_cursor_to_winit(CefCursor::Custom), CursorShape::Default);
}

fn parked_ids(rt: &WorkspaceRuntime<&'static str>) -> Vec<(u32, &'static str)> {
    let mut v = rt.parked.clone();
    v.sort();
    v
}

#[test]
fn parked_workspaces_follow_renumbering() {
    let mut rt: WorkspaceRuntime<&'static str> = WorkspaceRuntime::new();
    assert_eq!(rt.park(1, "one"), None);
    assert_eq!(rt.park(3, "three"), None);
    assert_eq!(rt.park(4, "four"), None);
    assert_eq!(rt.park(1, "uno"), Some("one"));
    assert_eq!(rt.take(9), None);
    assert_eq!(rt.discard(3), Some("three"));
    assert_eq!(rt.reindex_after_remove(3), None);
    assert_eq!(parked_ids(&rt), vec![(1, "uno"), (3, "four")]);
    assert_eq!(rt.park(2, "two"), None);
    assert_eq!(rt.reindex_after_remove(2), Some("two"));
    assert_eq!(parked_ids(&rt), vec![(1, "uno"), (2, "four")]);
    assert_eq!(rt.take(2), Some("four"));
    assert_eq!(parked_ids(&rt), vec![(1, "uno")]);
}
