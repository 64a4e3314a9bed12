use spatial_browser::autofill_bridge::script;
use spatial_browser::bookmarks::Bookmark;
use spatial_browser::downloads::DownloadRecord;
use spatial_browser::frame::{frame_action, should_save, FrameAction, FrameOutcome};
use spatial_browser::history::HistoryEntry;
use spatial_browser::pages::context_menu::{menu_row_count, page_url as menu_page_url};
use spatial_browser::pages::{
    bookmarks_list, downloads_list, help, history_list, omnibox, page_theme, passwords_list,
    settings_list, switcher, userscripts_list, workspace_list, MenuContext,
};
use spatial_browser::pages::{html_escape, js_string_literal};
use spatial_browser::settings::AppSettings;
use spatial_browser::userscripts::{RunAt, UserScript};
use spatial_browser::userstyles::UserStyle;
use spatial_browser::vault::VaultEntry;

fn bookmark(url: &str, title: Option<&str>, folder: Option<&str>) -> Bookmark {
    Bookmark {
        url: url.to_string(),
        title: title.map(|t| t.to_string()),
        folder: folder.map(|f| f.to_string()),
    }
}

fn menu(link: Option<&str>) -> MenuContext {
    MenuContext {
        on_canvas: false,
        page_url: Some("https://example.com/".to_string()),
        link: link.map(|l| l.to_string()),
        image: None,
        password_field: false,
        target_browser_id: Some(1),
    }
}

#[test]
fn themes_carry_their_colors() {
    let t = page_theme(0);
    assert_eq!(t.name, "Tokyo Night");
    assert_eq!(t.help_bg, "rgb(26,27,38)");
    let t = page_theme(1);
    assert_eq!(t.name, "ANSI Terminal");
    assert_eq!(t.help_key_fg, "rgb(0,0,0)");
}

#[test]
fn downloads_page_shows_file_names_and_placeholder() {
    let t = page_theme(0);
    let empty = downloads_list::page_url(&t, &[]);
    assert!(empty.starts_with("data:text/html,<script>"));
    assert!(empty.contains("No downloads yet."));
    let d = vec![DownloadRecord {
        url: "https://files.example.org/get?id=1".to_string(),
        path: "/home/u/Downloads/report.pdf".to_string(),
    }];
    let page = downloads_list::page_url(&t, &d);
    assert!(page.contains(">report.pdf</span>"));
    assert!(!page.contains(">/home/u/Downloads/report.pdf<"));
    assert!(page.contains("font-weight:700\">R</span>"));
    assert!(page.contains("download://open/0"));
    assert!(page.contains("download://remove/0"));
    assert!(page.contains("https://files.example.org/favicon.ico"));
    assert!(!page.contains("No downloads yet."));
}

#[test]
fn history_page_writes_signed_timestamps() {
    let t = page_theme(1);
    let h = vec![
        HistoryEntry { url: "https://a.example/x?q=<b>".to_string(), visited_at: 1700000000 },
        HistoryEntry { url: "https://b.example/".to_string(), visited_at: -5 },
    ];
    let page = history_list::page_url(&t, &h);
    assert!(page.contains("data-timestamp=\"1700000000\""));
    assert!(page.contains("data-timestamp=\"-5\""));
    assert!(page.contains("history://remove/1"));
    assert!(page.contains("https://a.example/x?q=&lt;b&gt;"));
    assert!(page.contains("onload=\"initTimestamps()\""));
    assert!(history_list::page_url(&t, &[]).contains("No history yet."));
}

#[test]
fn switcher_rows_search_in_lower_case() {
    let t = page_theme(0);
    let entries = vec![(7, "https://Example.COM/Path".to_string())];
    let page = switcher::page_url(&t, &entries);
    assert!(page.contains("data-search=\"https://example.com/path\""));
    assert!(page.contains("onclick=\"go(7)\""));
    assert!(page.contains(">https://Example.COM/Path</span>"));
    assert!(page.contains("font-weight:700\">E</span>"));
    assert!(switcher::page_url(&t, &[]).contains("No other open pages."));
}

#[test]
fn workspace_rows_status_badge_and_delete() {
    let t = page_theme(0);
    let page = workspace_list::page_url(&t, 2, &[(1, false, 0), (2, true, 1), (3, true, 4)]);
    assert!(page.contains(">empty</span>"));
    assert!(page.contains(">1 page</span>"));
    assert!(page.contains(">4 pages</span>"));
    assert_eq!(page.matches(">active</span>").count(), 1);
    assert!(page.contains("workspace://delete/2"));
    assert!(page.contains("Workspace 3"));
    let single = workspace_list::page_url(&t, 1, &[(1, true, 2)]);
    assert!(!single.contains("workspace://delete/"));
    assert!(single.contains("workspace://load/0"));
}

#[test]
fn bookmarks_group_ungrouped_first_then_by_folder_name() {
    let t = page_theme(0);
    let b = vec![
        bookmark("https://z.example/", None, Some("zeta")),
        bookmark("https://u.example/", Some("Plain"), None),
        bookmark("https://a.example/", Some("First"), Some("alpha")),
        bookmark("https://z2.example/", None, Some("zeta")),
    ];
    let page = bookmarks_list::page_url(&t, &b);
    let plain = page.find("title=\"Click to rename\">Plain<").unwrap();
    let alpha = page.find(">alpha</h2>").unwrap();
    let first = page.find("title=\"Click to rename\">First<").unwrap();
    let zeta = page.find(">zeta</h2>").unwrap();
    let z = page.find("bookmark://open/0").unwrap();
    let z2 = page.find("bookmark://open/3").unwrap();
    assert!(plain < alpha && alpha < first && first < zeta && zeta < z && z < z2);
    assert_eq!(page.matches(">zeta</h2>").count(), 1);
    assert!(page.contains("title=\"Click to rename\">z.example<"));
    assert!(page.contains("name=\"folder\" value=\"\""));
    let empty = bookmarks_list::page_url(&t, &[]);
    assert!(empty.contains("No bookmarks yet &mdash; Ctrl+D on a page to add one."));
}

#[test]
fn help_page_lists_shortcuts_in_theme() {
    let t = page_theme(1);
    let page = help::page_url(&t);
    assert!(page.starts_with("data:text/html;charset=utf-8,<body "));
    assert!(page.contains("shortcuts (ANSI Terminal)"));
    assert!(page.contains(">Ctrl+T</kbd>"));
    assert!(page.contains(">Pan canvas (touch)</span>"));
    assert_eq!(page.matches("<kbd ").count(), 32);
    assert_eq!(help::help_groups().len(), 4);
}

#[test]
fn omnibox_shows_at_most_ten_chips() {
    let t = page_theme(0);
    let typed: Vec<String> = (0..12).map(|i| format!("site{i}.example")).collect();
    let page = omnibox::page_url(&t, &typed, "https://duckduckgo.com/?q=");
    assert_eq!(page.matches("<button onclick=\"go(").count(), 10);
    assert!(page.contains("go('site0.example')"));
    assert!(!page.contains("site10.example"));
    assert!(page.contains("<script>DEFAULT_ENGINE = 'https://duckduckgo.com/?q=';</script>"));
    let quoted = omnibox::page_url(&t, &["it's".to_string()], "x");
    assert!(quoted.contains("go('it\\'s')"));
}

#[test]
fn scripts_page_rows_and_placeholders() {
    let t = page_theme(0);
    let s = vec![UserScript {
        file_name: "dark mode.user.js".to_string(),
        name: "Dark".to_string(),
        matches: vec!["*://a.com/*".to_string(), "spatial-ui".to_string()],
        excludes: vec![],
        run_at: RunAt::DocumentStart,
        code: String::new(),
        enabled: false,
    }];
    let page = userscripts_list::page_url(&t, "8px", "6px", &s, &[]);
    assert!(page.contains("userscripts://toggle/dark%20mode.user.js"));
    assert!(page.contains("dark mode.user.js · document-start"));
    assert!(page.contains("*://a.com/*, spatial-ui"));
    assert!(page.contains("opacity:0.55\"><div"));
    assert!(page.contains(">Off</span>"));
    assert!(page.contains("No styles yet."));
    assert!(page.contains("border-radius:8px"));
    let st = vec![UserStyle {
        file_name: "a.css".to_string(),
        name: "A".to_string(),
        matches: vec![],
        excludes: vec![],
        css: String::new(),
        enabled: true,
    }];
    let page = userscripts_list::page_url(&t, "0px", "0px", &[], &st);
    assert!(page.contains("No scripts yet."));
    assert!(page.contains("userscripts://toggle-style/a.css"));
}

#[test]
fn password_pages() {
    let t = page_theme(0);
    let unlock = passwords_list::unlock_url(&t, false, Some("Wrong <password>"));
    assert!(unlock.contains("Unlock password vault"));
    assert!(unlock.contains("Wrong &lt;password&gt;"));
    assert!(unlock.contains("create=0"));
    assert!(!unlock.contains("name=\"confirm\""));
    let create = passwords_list::unlock_url(&t, true, None);
    assert!(create.contains("Create password vault"));
    assert!(create.contains("name=\"confirm\""));
    assert!(create.contains(">Create vault</button>"));
    let e = vec![VaultEntry {
        id: "abc".to_string(),
        origin: "https://example.com".to_string(),
        username: "me".to_string(),
        password: "pw".to_string(),
        email: None,
        given_name: None,
        family_name: None,
        address_line1: None,
        city: None,
        postal_code: None,
        country: None,
        notes: None,
        updated_at: 0,
    }];
    let list = passwords_list::page_url(&t, &e, &["https://x.org".to_string()], Some("a b&c"));
    assert!(list.contains("password://fill?id=abc"));
    assert!(list.contains("remove-never?origin=https://x.org"));
    assert!(list.contains("clipboard://copy?text=a%20b%26c"));
    assert!(list.contains(">a b&amp;c</p>"));
    let empty = passwords_list::page_url(&t, &[], &[], None);
    assert!(empty.contains("No saved logins yet."));
    assert!(empty.contains(">None</p>"));
    assert!(!empty.contains("clipboard://copy"));
}

#[test]
fn settings_page_follows_its_tab() {
    let t = page_theme(0);
    let mut s = AppSettings::default();
    let general = settings_list::page_url(&t, &s);
    assert!(general.contains("settings://search-engine?engine=https%3A%2F%2Fwww.google.com%2Fsearch%3Fq%3D"));
    assert!(general.contains(">60 fps</span>"));
    s.settings_tab = "blocking".to_string();
    s.custom_blocked_hosts = vec!["ads.example".to_string()];
    let blocking = settings_list::page_url(&t, &s);
    assert!(blocking.contains("settings://remove-host/0"));
    assert!(blocking.contains(">Soon</span>"));
    assert!(!blocking.contains("fps"));
    s.settings_tab = "appearance".to_string();
    s.reader_theme = 2;
    let appearance = settings_list::page_url(&t, &s);
    assert!(appearance.contains("settings://theme/1"));
    assert!(appearance.contains("settings://reader-theme/2"));
    assert_eq!(appearance.matches("<svg width=\"16\"").count(), 2);
    s.settings_tab = "nonsense".to_string();
    assert_eq!(settings_list::page_url(&t, &s), {
        let mut g = AppSettings::default();
        g.settings_tab = "general".to_string();
        g.reader_theme = 2;
        g.custom_blocked_hosts = vec!["ads.example".to_string()];
        settings_list::page_url(&t, &g)
    });
}

#[test]
fn context_menu_page_and_size() {
    let t = page_theme(0);
    let ctx = menu(Some("https://l.example/a b"));
    let page = menu_page_url(&t, "8px", "6px", &ctx);
    assert!(page.starts_with("data:text/html;charset=utf-8,<html "));
    assert!(page.contains(">Open link in new page</a>"));
    assert!(page.contains("context://open-link?url=https%3A%2F%2Fl.example%2Fa%20b"));
    assert!(page.contains("border-radius:6px"));
    assert_eq!(menu_row_count(&ctx), page.matches("<a class=\"item\"").count());
}

#[test]
fn bridge_script_takes_theme_colors() {
    let t = page_theme(1);
    let s = script(&t, "0px", "0px");
    assert!(s.contains("bg: 'rgb(5,5,5)'"));
    assert!(s.contains("radiusInner: '0px'"));
    assert!(s.contains("window.__spatialAutofillBridge__ = true;"));
}

#[test]
fn frame_outcomes_and_save_debounce() {
    assert_eq!(frame_action(FrameOutcome::Rendered), FrameAction::Continue);
    assert_eq!(frame_action(FrameOutcome::Skip), FrameAction::Continue);
    assert_eq!(frame_action(FrameOutcome::Reconfigure), FrameAction::Reconfigure);
    assert_eq!(frame_action(FrameOutcome::Fatal), FrameAction::Exit);
    assert!(should_save(true, 1000));
    assert!(!should_save(true, 999));
    assert!(!should_save(false, 5000));
}

#[test]
fn escaped_text_is_inert() {
    let e = html_escape("<a href=\"x\">Tom & Jerry</a>");
    assert_eq!(e, "&lt;a href=&quot;x&quot;&gt;Tom &amp; Jerry&lt;/a&gt;");
    assert!(!e.contains('<') && !e.contains('>') && !e.contains('"'));
    let j = js_string_literal("it's <\"b\">\\");
    assert_eq!(j, "'it\\'s &lt;&quot;b&quot;&gt;\\\\'");
    assert!(j.starts_with('\'') && j.ends_with('\''));
    assert!(!j.contains('<') && !j.contains('>') && !j.contains('"'));
}

#[test]
fn theme_colors_have_no_hash() {
    for i in 0..2 {
        let t = page_theme(i);
        for c in [t.help_bg, t.help_fg, t.help_heading, t.help_card_bg, t.help_card_border, t.help_key_bg, t.help_key_fg] {
            assert!(c.starts_with("rgb(") && !c.contains('#'));
        }
    }
}
