use spatial_browser::blocklist::{
    host_of, is_blocked, matches_domain, parse_domain_list, request_verdict, should_cancel, BlockState,
};
use spatial_browser::filter_engine::ResourceKind;
use spatial_browser::settings::{apply_action, blocklist_sync, AppSettings, FilterLists, SettingsPageAction};

fn chars(s: &str) -> Vec<char> {
    s.chars().collect()
}

#[test]
fn default_settings() {
    let s = AppSettings::default();
    assert!(s.ad_block_enabled && s.filter_network_enabled && s.filter_cosmetic_enabled);
    assert!(!s.filter_scriptlets_enabled);
    assert!(s.filter_lists == FilterLists { peter_lowe: true, easylist: true, easyprivacy: true });
    assert_eq!(s.default_search_engine, "https://www.google.com/search?q=");
    assert_eq!(s.target_fps, 60);
    assert_eq!(s.settings_tab, "general");
    assert!(s.custom_blocked_hosts.is_empty());
}

#[test]
fn tab_names_normalize() {
    assert_eq!(AppSettings::normalize_tab("blocking"), "blocking");
    assert_eq!(AppSettings::normalize_tab("appearance"), "appearance");
    assert_eq!(AppSettings::normalize_tab("Blocking"), "general");
    assert_eq!(AppSettings::normalize_tab(""), "general");
}

#[test]
fn settings_actions_change_settings() {
    let mut s = AppSettings::default();
    let e = apply_action(&mut s, SettingsPageAction::ToggleAdBlock, 2, 3);
    assert!(!s.ad_block_enabled && e.save && e.sync_blocklist);
    assert_eq!(s.settings_tab, "blocking");
    let e = apply_action(&mut s, SettingsPageAction::ToggleCleanUrls, 2, 3);
    assert_eq!(e.clean_urls, Some(false));
    assert_eq!(s.settings_tab, "general");
    apply_action(&mut s, SettingsPageAction::ToggleFilterList("easylist".to_string()), 2, 3);
    assert!(!s.filter_lists.easylist);
    apply_action(&mut s, SettingsPageAction::ToggleFilterList("bogus".to_string()), 2, 3);
    assert!(s.filter_lists.peter_lowe && s.filter_lists.easyprivacy && !s.filter_lists.easylist);
    let e = apply_action(&mut s, SettingsPageAction::SetTheme(5), 2, 3);
    assert_eq!(e.theme, None);
    assert!(e.save);
    let e = apply_action(&mut s, SettingsPageAction::SetTheme(1), 2, 3);
    assert_eq!(e.theme, Some(1));
    let e = apply_action(&mut s, SettingsPageAction::SetReaderTheme(3), 2, 3);
    assert!(!e.save && s.reader_theme == 0);
    apply_action(&mut s, SettingsPageAction::SetReaderTheme(2), 2, 3);
    assert_eq!(s.reader_theme, 2);
    let e = apply_action(&mut s, SettingsPageAction::AddBlockedHost("  ads.com ".to_string()), 2, 3);
    assert!(e.sync_blocklist);
    let e = apply_action(&mut s, SettingsPageAction::AddBlockedHost("ads.com".to_string()), 2, 3);
    assert!(!e.save);
    apply_action(&mut s, SettingsPageAction::AddBlockedHost("  ".to_string()), 2, 3);
    assert_eq!(s.custom_blocked_hosts, vec!["ads.com".to_string()]);
    apply_action(&mut s, SettingsPageAction::RemoveBlockedHost(0), 2, 3);
    assert!(s.custom_blocked_hosts.is_empty());
    let e = apply_action(&mut s, SettingsPageAction::SetFrameRate(120), 2, 3);
    assert_eq!(e.frame_rate, Some(120));
    assert_eq!(s.target_fps, 120);
    apply_action(&mut s, SettingsPageAction::SetTab("appearance".to_string()), 2, 3);
    assert_eq!(s.settings_tab, "appearance");
    apply_action(&mut s, SettingsPageAction::SetSearchEngine("https://ddg.gg/?q=".to_string()), 2, 3);
    assert_eq!(s.default_search_engine, "https://ddg.gg/?q=");
}

#[test]
fn blocklist_sync_follows_switches() {
    let mut s = AppSettings::default();
    let b = blocklist_sync(&s);
    assert!(b.enabled && b.easylist && b.easyprivacy && b.peter_lowe);
    s.filter_network_enabled = false;
    let b = blocklist_sync(&s);
    assert!(!b.enabled && !b.easylist && !b.easyprivacy && b.peter_lowe);
}

#[test]
fn host_blocking() {
    assert_eq!(host_of("https://ads.example.com:443/x"), "ads.example.com");
    assert!(matches_domain(&chars("a.ads.com"), &chars("ads.com")));
    assert!(!matches_domain(&chars("badads.com"), &chars("ads.com")));
    let list = parse_domain_list("  doubleclick.net \n\n tracker.io\n");
    assert_eq!(list, vec!["doubleclick.net".to_string(), "tracker.io".to_string()]);
    let mut state = BlockState { enabled: true, peter_lowe_enabled: true, custom_hosts: vec!["evil.org".to_string()] };
    assert!(is_blocked("x.ad.doubleclick.net", &state, &list));
    assert!(is_blocked("cdn.evil.org", &state, &list));
    assert!(!is_blocked("example.com", &state, &list));
    state.peter_lowe_enabled = false;
    assert!(!is_blocked("x.ad.doubleclick.net", &state, &list));
    assert!(is_blocked("evil.org", &state, &list));
    state.enabled = false;
    assert!(!is_blocked("evil.org", &state, &list));
}

#[test]
fn requests_cancelled_by_engine_or_host() {
    let list = parse_domain_list("ads.example\n");
    let on = BlockState { enabled: true, peter_lowe_enabled: true, custom_hosts: vec![] };
    let off = BlockState { enabled: false, peter_lowe_enabled: true, custom_hosts: vec![] };
    assert!(request_verdict("https://x.ads.example:8080/a.js", false, &on, &list));
    assert!(request_verdict("https://fine.example/", true, &on, &list));
    assert!(!request_verdict("https://fine.example/", false, &on, &list));
    assert!(!request_verdict("https://x.ads.example/", true, &off, &list));
    assert!(should_cancel("https://x.ads.example/p", "", ResourceKind::Script, None, &on, &list));
    assert!(!should_cancel("https://fine.example/p", "", ResourceKind::Script, None, &on, &list));
    assert!(!should_cancel("https://x.ads.example/p", "", ResourceKind::Script, None, &off, &list));
}

#[test]
fn engine_verdict_cancels_only_while_enabled() {
    let engine = spatial_browser::filter_engine::FilterEngine::from_lists(vec!["||ads.example^\n".to_string()]).unwrap();
    let on = BlockState { enabled: true, peter_lowe_enabled: false, custom_hosts: vec![] };
    let off = BlockState { enabled: false, peter_lowe_enabled: false, custom_hosts: vec![] };
    let list: Vec<String> = vec![];
    let kind = spatial_browser::filter_engine::ResourceKind::Image;
    assert!(should_cancel("https://ads.example/p.gif", "https://site.com/", kind, Some(&engine), &on, &list));
    assert!(!should_cancel("https://ads.example/p.gif", "https://site.com/", kind, Some(&engine), &off, &list));
    assert!(!should_cancel("https://cdn.example/p.gif", "https://site.com/", kind, Some(&engine), &on, &list));
    assert!(!should_cancel("https://ads.example/p.gif", "https://site.com/", kind, None, &on, &list));
}
