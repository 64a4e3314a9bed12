use spatial_browser::clean_urls::CleanUrlsSwitch;
use spatial_browser::nav_actions::{
    intercept, parse_bookmark_action, parse_clipboard_copy, parse_download_action,
    parse_history_action, parse_omnibox_submit, parse_settings_action, parse_switch_target,
    parse_userscripts_action, parse_workspace_action, percent_decode, query_param,
    BookmarkAction, DownloadPageAction, HistoryPageAction, Intercept, UserscriptsPageAction,
    WorkspacePageAction,
};
use spatial_browser::settings::SettingsPageAction;
use spatial_browser::text::{parse_i32, parse_u32, parse_usize};

fn chars(s: &str) -> Vec<char> {
    s.chars().collect()
}

#[test]
fn percent_decoding() {
    assert_eq!(percent_decode("a+b%20c%2Fd"), "a b c/d");
    assert_eq!(percent_decode("%E2%82%AC"), "€");
    assert_eq!(percent_decode("100%"), "100%");
    assert_eq!(percent_decode("%zz"), "%zz");
    assert_eq!(percent_decode("%+a"), "\n");
    assert_eq!(percent_decode("%FF"), "\u{FFFD}");
    assert_eq!(percent_decode("plain"), "plain");
}

#[test]
fn query_parameters() {
    assert_eq!(query_param("a=1&b=x+y&a=2", "a"), Some("1".to_string()));
    assert_eq!(query_param("a=1&b=x+y", "b"), Some("x y".to_string()));
    assert_eq!(query_param("flag&b=2", "flag"), None);
    assert_eq!(query_param("k=v=w", "k"), Some("v=w".to_string()));
    assert_eq!(query_param("", "k"), None);
}

#[test]
fn std_number_parsing() {
    assert_eq!(parse_usize(&chars("42")), Some(42));
    assert_eq!(parse_usize(&chars("+7")), Some(7));
    assert_eq!(parse_usize(&chars("")), None);
    assert_eq!(parse_usize(&chars("+")), None);
    assert_eq!(parse_usize(&chars("-1")), None);
    assert_eq!(parse_usize(&chars("1a")), None);
    assert_eq!(parse_usize(&chars("99999999999999999999999")), None);
    assert_eq!(parse_u32(&chars("4294967295")), Some(u32::MAX));
    assert_eq!(parse_u32(&chars("4294967296")), None);
    assert_eq!(parse_i32(&chars("-2147483648")), Some(i32::MIN));
    assert_eq!(parse_i32(&chars("2147483648")), None);
    assert_eq!(parse_i32(&chars("-0")), Some(0));
    assert_eq!(parse_i32(&chars("--1")), None);
}

#[test]
fn bookmark_actions() {
    assert!(matches!(parse_bookmark_action("bookmark://open/3"), Some(BookmarkAction::Open(3))));
    assert!(matches!(parse_bookmark_action("bookmark://delete/0"), Some(BookmarkAction::Delete(0))));
    match parse_bookmark_action("bookmark://rename/2?title=My+Site&folder=Work%2FDev") {
        Some(BookmarkAction::Rename(2, t, f)) => {
            assert_eq!(t, "My Site");
            assert_eq!(f, "Work/Dev");
        }
        _ => panic!("rename expected"),
    }
    match parse_bookmark_action("bookmark://rename/5") {
        Some(BookmarkAction::Rename(5, t, f)) => {
            assert_eq!(t, "");
            assert_eq!(f, "");
        }
        _ => panic!("rename expected"),
    }
    assert!(parse_bookmark_action("bookmark://open/x").is_none());
    assert!(parse_bookmark_action("https://open/1").is_none());
}

#[test]
fn other_page_actions() {
    let o = parse_omnibox_submit("omnibox://go?q=rust+lang&url=https%3A%2F%2Fexample.com").unwrap();
    assert_eq!(o.raw, "rust lang");
    assert_eq!(o.url, "https://example.com");
    assert!(parse_omnibox_submit("omnibox://go?q=x").is_none());
    assert_eq!(parse_switch_target("switcher://go/-4"), Some(-4));
    assert!(parse_download_action("download://remove/1") == Some(DownloadPageAction::Remove(1)));
    assert!(parse_history_action("history://clear") == Some(HistoryPageAction::Clear));
    assert!(parse_history_action("history://open/9") == Some(HistoryPageAction::Open(9)));
    assert!(matches!(parse_workspace_action("workspace://save"), Some(WorkspacePageAction::SaveNew)));
    match parse_workspace_action("workspace://rename/1?name=Home") {
        Some(WorkspacePageAction::Rename(1, n)) => assert_eq!(n, "Home"),
        _ => panic!("rename expected"),
    }
    match parse_userscripts_action("userscripts://toggle/my%20script.js") {
        Some(UserscriptsPageAction::Toggle(n)) => assert_eq!(n, "my script.js"),
        _ => panic!("toggle expected"),
    }
    assert!(parse_userscripts_action("userscripts://toggle/").is_none());
    assert_eq!(parse_clipboard_copy("clipboard://copy?text=hi%21"), Some("hi!".to_string()));
}

#[test]
fn settings_actions() {
    assert!(matches!(parse_settings_action("settings://toggle-adblock"), Some(SettingsPageAction::ToggleAdBlock)));
    match parse_settings_action("settings://search-engine?engine=https%3A%2F%2Fddg.gg%2F%3Fq%3D") {
        Some(SettingsPageAction::SetSearchEngine(e)) => assert_eq!(e, "https://ddg.gg/?q="),
        _ => panic!("engine expected"),
    }
    assert!(matches!(parse_settings_action("settings://frame-rate/120"), Some(SettingsPageAction::SetFrameRate(120))));
    assert!(matches!(parse_settings_action("settings://remove-host/2"), Some(SettingsPageAction::RemoveBlockedHost(2))));
    assert!(parse_settings_action("settings://unknown").is_none());
}

#[test]
fn navigation_interception() {
    let sw = CleanUrlsSwitch::new();
    match intercept("https://a.com/?utm_medium=x", &sw) {
        Intercept::Redirect(u) => assert_eq!(u, "https://a.com/"),
        _ => panic!("redirect expected"),
    }
    assert!(matches!(intercept("https://a.com/", &sw), Intercept::Proceed));
    assert!(matches!(intercept("history://clear", &sw), Intercept::History(HistoryPageAction::Clear)));
    match intercept("clipboard://copy?text=abc", &sw) {
        Intercept::Copy(t) => assert_eq!(t, "abc"),
        _ => panic!("copy expected"),
    }
}

#[test]
fn settings_tab_and_filter_links() {
    match parse_settings_action("settings://tab/blocking") {
        Some(SettingsPageAction::SetTab(t)) => assert_eq!(t, "blocking"),
        _ => panic!("tab expected"),
    }
    assert!(matches!(parse_settings_action("settings://toggle-filter-network"), Some(SettingsPageAction::ToggleFilterNetwork)));
    assert!(matches!(parse_settings_action("settings://toggle-filter-cosmetic"), Some(SettingsPageAction::ToggleFilterCosmetic)));
    assert!(matches!(parse_settings_action("settings://toggle-filter-scriptlets"), Some(SettingsPageAction::ToggleFilterScriptlets)));
    match parse_settings_action("settings://toggle-filter-list/easylist") {
        Some(SettingsPageAction::ToggleFilterList(id)) => assert_eq!(id, "easylist"),
        _ => panic!("filter list expected"),
    }
    assert!(parse_settings_action("settings://toggle-filter").is_none());
}
