//! User preferences and how each settings-page action changes them.
//! Loading, saving and pushing the effects out is left to the caller.

use vstd::prelude::*;
use crate::text::{trim, chars_of, chars_eq_str, trim_chars, string_of};
use crate::url_match::string_seq_views;
use crate::userscripts::{names_contain, contains_name};

verus! {

/// Which built-in host/filter subscriptions are enabled.
#[derive(Clone, Copy, Debug, PartialEq, Eq, Structural)]
pub struct FilterLists {
    /// Compiled-in Peter Lowe ad-server hosts.
    pub peter_lowe: bool,
    /// EasyList (network + cosmetic).
    pub easylist: bool,
    /// EasyPrivacy.
    pub easyprivacy: bool,
}

impl Default for FilterLists {
    fn default() -> (r: Self)
        ensures
            r == (FilterLists { peter_lowe: true, easylist: true, easyprivacy: true }),
    {
        FilterLists { peter_lowe: true, easylist: true, easyprivacy: true }
    }
}

/// The search URL template used until the user picks another.
pub const DEFAULT_SEARCH_ENGINE: &'static str = "https://www.google.com/search?q=";

/// User-editable preferences (one JSON object in `settings.json`).
pub struct AppSettings {
    /// Master content-filtering switch.
    pub ad_block_enabled: bool,
    /// Apply network (request-cancel) rules from enabled lists.
    pub filter_network_enabled: bool,
    /// Apply cosmetic hiding.
    pub filter_cosmetic_enabled: bool,
    /// Apply scriptlets; off by default.
    pub filter_scriptlets_enabled: bool,
    pub filter_lists: FilterLists,
    /// Strip tracking parameters from navigations.
    pub clean_urls_enabled: bool,
    pub default_search_engine: String,
    pub reader_theme: usize,
    pub custom_blocked_hosts: Vec<String>,
    pub target_fps: u32,
    /// Last settings tab shown: `general`, `blocking` or `appearance`.
    pub settings_tab: String,
}

pub struct SettingsView {
    pub ad_block_enabled: bool,
    pub filter_network_enabled: bool,
    pub filter_cosmetic_enabled: bool,
    pub filter_scriptlets_enabled: bool,
    pub filter_lists: FilterLists,
    pub clean_urls_enabled: bool,
    pub default_search_engine: Seq<char>,
    pub reader_theme: usize,
    pub custom_blocked_hosts: Seq<Seq<char>>,
    pub target_fps: u32,
    pub settings_tab: Seq<char>,
}

impl View for AppSettings {
    type V = SettingsView;

    open spec fn view(&self) -> SettingsView {
        SettingsView {
            ad_block_enabled: self.ad_block_enabled,
            filter_network_enabled: self.filter_network_enabled,
            filter_cosmetic_enabled: self.filter_cosmetic_enabled,
            filter_scriptlets_enabled: self.filter_scriptlets_enabled,
            filter_lists: self.filter_lists,
            clean_urls_enabled: self.clean_urls_enabled,
            default_search_engine: self.default_search_engine@,
            reader_theme: self.reader_theme,
            custom_blocked_hosts: string_seq_views(self.custom_blocked_hosts@),
            target_fps: self.target_fps,
            settings_tab: self.settings_tab@,
        }
    }
}

impl Default for AppSettings {
    fn default() -> (r: Self)
        ensures
            r@ == (SettingsView {
                ad_block_enabled: true,
                filter_network_enabled: true,
                filter_cosmetic_enabled: true,
                filter_scriptlets_enabled: false,
                filter_lists: FilterLists { peter_lowe: true, easylist: true, easyprivacy: true },
                clean_urls_enabled: true,
                default_search_engine: DEFAULT_SEARCH_ENGINE@,
                reader_theme: 0,
                custom_blocked_hosts: Seq::empty(),
                target_fps: 60,
                settings_tab: "general"@,
            }),
    {
        let r = AppSettings {
            ad_block_enabled: true,
            filter_network_enabled: true,
            filter_cosmetic_enabled: true,
            filter_scriptlets_enabled: false,
            filter_lists: FilterLists::default(),
            clean_urls_enabled: true,
            default_search_engine: DEFAULT_SEARCH_ENGINE.to_string(),
            reader_theme: 0,
            custom_blocked_hosts: Vec::new(),
            target_fps: 60,
            settings_tab: "general".to_string(),
        };
        assert(string_seq_views(r.custom_blocked_hosts@) =~= Seq::<Seq<char>>::empty());
        r
    }
}

/// The tab a requested name stands for: `blocking` and `appearance` are
/// kept, anything else is `general`.
pub open spec fn tab_of(tab: Seq<char>) -> Seq<char> {
    if tab == "blocking"@ {
        "blocking"@
    } else if tab == "appearance"@ {
        "appearance"@
    } else {
        "general"@
    }
}

impl AppSettings {
    pub fn normalize_tab(tab: &str) -> (r: &'static str)
        ensures
            r@ == tab_of(tab@),
    {
        let t = chars_of(tab);
        if chars_eq_str(t.as_slice(), "blocking") {
            "blocking"
        } else if chars_eq_str(t.as_slice(), "appearance") {
            "appearance"
        } else {
            "general"
        }
    }
}

/// What the settings page asked for.
pub enum SettingsPageAction {
    ToggleAdBlock,
    ToggleCleanUrls,
    ToggleFilterNetwork,
    ToggleFilterCosmetic,
    ToggleFilterScriptlets,
    /// `peter_lowe`, `easylist` or `easyprivacy`; other ids change nothing.
    ToggleFilterList(String),
    SetTab(String),
    /// A full search URL template.
    SetSearchEngine(String),
    /// Index into the canvas themes.
    SetTheme(usize),
    /// Index into the reader-mode themes.
    SetReaderTheme(usize),
    AddBlockedHost(String),
    RemoveBlockedHost(usize),
    SetFrameRate(u32),
}

/// What the caller does after an action, besides re-rendering the page.
#[derive(Clone, Copy, Debug, PartialEq, Eq, Structural)]
pub struct SettingsEffects {
    /// Write `settings.json`.
    pub save: bool,
    /// Push the ad-block switches and custom hosts into the request filter.
    pub sync_blocklist: bool,
    /// New clean-URLs switch to apply.
    pub clean_urls: Option<bool>,
    /// Canvas theme to switch to.
    pub theme: Option<usize>,
    /// Frame rate to apply to every open page.
    pub frame_rate: Option<u32>,
}

pub open spec fn no_effects() -> SettingsEffects {
    SettingsEffects { save: false, sync_blocklist: false, clean_urls: None, theme: None, frame_rate: None }
}

/// Saved, and the request filter refreshed.
pub open spec fn save_and_sync() -> SettingsEffects {
    SettingsEffects { save: true, sync_blocklist: true, ..no_effects() }
}

/// Saved only.
pub open spec fn save_only() -> SettingsEffects {
    SettingsEffects { save: true, ..no_effects() }
}

/// The filter lists with the one named `id` flipped.
pub open spec fn lists_toggled(l: FilterLists, id: Seq<char>) -> FilterLists {
    if id == "peter_lowe"@ {
        FilterLists { peter_lowe: !l.peter_lowe, ..l }
    } else if id == "easylist"@ {
        FilterLists { easylist: !l.easylist, ..l }
    } else if id == "easyprivacy"@ {
        FilterLists { easyprivacy: !l.easyprivacy, ..l }
    } else {
        l
    }
}

/// The settings and effects after `action`, with `theme_count` canvas
/// themes and `reader_theme_count` reader themes available.
pub open spec fn settings_after(
    s: SettingsView,
    action: SettingsPageAction,
    theme_count: usize,
    reader_theme_count: usize,
) -> (SettingsView, SettingsEffects) {
    match action {
        SettingsPageAction::ToggleAdBlock => (
            SettingsView { ad_block_enabled: !s.ad_block_enabled, settings_tab: "blocking"@, ..s },
            save_and_sync(),
        ),
        SettingsPageAction::ToggleCleanUrls => (
            SettingsView { clean_urls_enabled: !s.clean_urls_enabled, settings_tab: "general"@, ..s },
            SettingsEffects { clean_urls: Some(!s.clean_urls_enabled), ..save_only() },
        ),
        SettingsPageAction::ToggleFilterNetwork => (
            SettingsView {
                filter_network_enabled: !s.filter_network_enabled,
                settings_tab: "blocking"@,
                ..s
            },
            save_and_sync(),
        ),
        SettingsPageAction::ToggleFilterCosmetic => (
            SettingsView {
                filter_cosmetic_enabled: !s.filter_cosmetic_enabled,
                settings_tab: "blocking"@,
                ..s
            },
            save_only(),
        ),
        SettingsPageAction::ToggleFilterScriptlets => (
            SettingsView {
                filter_scriptlets_enabled: !s.filter_scriptlets_enabled,
                settings_tab: "blocking"@,
                ..s
            },
            save_only(),
        ),
        SettingsPageAction::ToggleFilterList(id) => (
            SettingsView {
                filter_lists: lists_toggled(s.filter_lists, id@),
                settings_tab: "blocking"@,
                ..s
            },
            save_and_sync(),
        ),
        SettingsPageAction::SetTab(tab) => (
            SettingsView { settings_tab: tab_of(tab@), ..s },
            save_only(),
        ),
        SettingsPageAction::SetSearchEngine(engine) => (
            SettingsView { default_search_engine: engine@, settings_tab: "general"@, ..s },
            save_only(),
        ),
        SettingsPageAction::SetTheme(index) => (
            SettingsView { settings_tab: "appearance"@, ..s },
            SettingsEffects {
                theme: if index < theme_count {
                    Some(index)
                } else {
                    None
                },
                ..save_only()
            },
        ),
        SettingsPageAction::SetReaderTheme(index) => if index < reader_theme_count {
            (SettingsView { reader_theme: index, settings_tab: "appearance"@, ..s }, save_only())
        } else {
            (s, no_effects())
        },
        SettingsPageAction::AddBlockedHost(host) => {
            let h = trim(host@);
            if h.len() > 0 && !s.custom_blocked_hosts.contains(h) {
                (
                    SettingsView {
                        custom_blocked_hosts: s.custom_blocked_hosts.push(h),
                        settings_tab: "blocking"@,
                        ..s
                    },
                    save_and_sync(),
                )
            } else {
                (s, no_effects())
            }
        },
        SettingsPageAction::RemoveBlockedHost(index) => if index < s.custom_blocked_hosts.len() {
            (
                SettingsView {
                    custom_blocked_hosts: s.custom_blocked_hosts.remove(index as int),
                    settings_tab: "blocking"@,
                    ..s
                },
                save_and_sync(),
            )
        } else {
            (s, no_effects())
        },
        SettingsPageAction::SetFrameRate(fps) => (
            SettingsView { target_fps: fps, settings_tab: "general"@, ..s },
            SettingsEffects { frame_rate: Some(fps), ..save_only() },
        ),
    }
}

fn set_tab(settings: &mut AppSettings, tab: &str)
    ensures
        final(settings)@ == (SettingsView { settings_tab: tab@, ..old(settings)@ }),
{
    settings.settings_tab = tab.to_string();
}

/// Applies a settings-page action; the caller then does what the returned
/// effects say and re-renders the page.
pub fn apply_action(
    settings: &mut AppSettings,
    action: SettingsPageAction,
    theme_count: usize,
    reader_theme_count: usize,
) -> (r: SettingsEffects)
    ensures
        (final(settings)@, r) == settings_after(old(settings)@, action, theme_count, reader_theme_count),
{
    let ghost a = action;
    let save_sync = SettingsEffects {
        save: true,
        sync_blocklist: true,
        clean_urls: None,
        theme: None,
        frame_rate: None,
    };
    let save = SettingsEffects {
        save: true,
        sync_blocklist: false,
        clean_urls: None,
        theme: None,
        frame_rate: None,
    };
    let nothing = SettingsEffects {
        save: false,
        sync_blocklist: false,
        clean_urls: None,
        theme: None,
        frame_rate: None,
    };
    match action {
        SettingsPageAction::ToggleAdBlock => {
            settings.ad_block_enabled = !settings.ad_block_enabled;
            set_tab(settings, "blocking");
            save_sync
        },
        SettingsPageAction::ToggleCleanUrls => {
            settings.clean_urls_enabled = !settings.clean_urls_enabled;
            set_tab(settings, "general");
            SettingsEffects { clean_urls: Some(settings.clean_urls_enabled), ..save }
        },
        SettingsPageAction::ToggleFilterNetwork => {
            settings.filter_network_enabled = !settings.filter_network_enabled;
            set_tab(settings, "blocking");
            save_sync
        },
        SettingsPageAction::ToggleFilterCosmetic => {
            settings.filter_cosmetic_enabled = !settings.filter_cosmetic_enabled;
            set_tab(settings, "blocking");
            save
        },
        SettingsPageAction::ToggleFilterScriptlets => {
            settings.filter_scriptlets_enabled = !settings.filter_scriptlets_enabled;
            set_tab(settings, "blocking");
            save
        },
        SettingsPageAction::ToggleFilterList(id) => {
            let idc = chars_of(id.as_str());
            if chars_eq_str(idc.as_slice(), "peter_lowe") {
                settings.filter_lists.peter_lowe = !settings.filter_lists.peter_lowe;
            } else if chars_eq_str(idc.as_slice(), "easylist") {
                settings.filter_lists.easylist = !settings.filter_lists.easylist;
            } else if chars_eq_str(idc.as_slice(), "easyprivacy") {
                settings.filter_lists.easyprivacy = !settings.filter_lists.easyprivacy;
            }
            set_tab(settings, "blocking");
            save_sync
        },
        SettingsPageAction::SetTab(tab) => {
            let t = AppSettings::normalize_tab(tab.as_str());
            set_tab(settings, t);
            save
        },
        SettingsPageAction::SetSearchEngine(engine) => {
            settings.default_search_engine = engine;
            set_tab(settings, "general");
            save
        },
        SettingsPageAction::SetTheme(index) => {
            set_tab(settings, "appearance");
            let theme = if index < theme_count {
                Some(index)
            } else {
                None
            };
            SettingsEffects { theme, ..save }
        },
        SettingsPageAction::SetReaderTheme(index) => {
            if index < reader_theme_count {
                settings.reader_theme = index;
                set_tab(settings, "appearance");
                save
            } else {
                nothing
            }
        },
        SettingsPageAction::AddBlockedHost(host) => {
            let h = trim_chars(chars_of(host.as_str()).as_slice());
            let hs = string_of(h.as_slice());
            let present = contains_name(settings.custom_blocked_hosts.as_slice(), hs.as_str());
            proof {
                let hv = string_seq_views(settings.custom_blocked_hosts@);
                if hv.contains(h@) {
                    let k = choose|k: int| 0 <= k < hv.len() && hv[k] == h@;
                    assert(settings.custom_blocked_hosts@[k]@ == h@);
                }
                if present {
                    let k = choose|k: int|
                        0 <= k < settings.custom_blocked_hosts@.len()
                            && #[trigger] settings.custom_blocked_hosts@[k]@ == hs@;
                    assert(hv[k] == h@);
                }
            }
            if h.len() > 0 && !present {
                let ghost before = string_seq_views(settings.custom_blocked_hosts@);
                settings.custom_blocked_hosts.push(hs);
                assert(string_seq_views(settings.custom_blocked_hosts@) =~= before.push(h@));
                set_tab(settings, "blocking");
                save_sync
            } else {
                nothing
            }
        },
        SettingsPageAction::RemoveBlockedHost(index) => {
            if index < settings.custom_blocked_hosts.len() {
                let ghost before = string_seq_views(settings.custom_blocked_hosts@);
                settings.custom_blocked_hosts.remove(index);
                assert(string_seq_views(settings.custom_blocked_hosts@) =~= before.remove(
                    index as int,
                ));
                set_tab(settings, "blocking");
                save_sync
            } else {
                nothing
            }
        },
        SettingsPageAction::SetFrameRate(fps) => {
            settings.target_fps = fps;
            set_tab(settings, "general");
            SettingsEffects { frame_rate: Some(fps), ..save }
        },
    }
}

/// Whether request blocking runs at all: the master switch and the
/// network layer must both be on.
pub open spec fn network_filtering(s: SettingsView) -> bool {
    s.ad_block_enabled && s.filter_network_enabled
}

/// The switches the request filter is rebuilt with after a change.
#[derive(Clone, Copy, Debug, PartialEq, Eq, Structural)]
pub struct BlocklistSync {
    /// Cancel requests at all.
    pub enabled: bool,
    /// Use the compiled-in Peter Lowe hosts.
    pub peter_lowe: bool,
    /// Load EasyList into the filter engine.
    pub easylist: bool,
    /// Load EasyPrivacy into the filter engine.
    pub easyprivacy: bool,
}

/// What `sync_blocklist_settings` hands to the request filter.
pub fn blocklist_sync(settings: &AppSettings) -> (r: BlocklistSync)
    ensures
        r == (BlocklistSync {
            enabled: network_filtering(settings@),
            peter_lowe: settings.filter_lists.peter_lowe,
            easylist: network_filtering(settings@) && settings.filter_lists.easylist,
            easyprivacy: network_filtering(settings@) && settings.filter_lists.easyprivacy,
        }),
{
    let network_on = settings.ad_block_enabled && settings.filter_network_enabled;
    BlocklistSync {
        enabled: network_on,
        peter_lowe: settings.filter_lists.peter_lowe,
        easylist: network_on && settings.filter_lists.easylist,
        easyprivacy: network_on && settings.filter_lists.easyprivacy,
    }
}

/// Every action leaves the remembered tab one of the three real tabs,
/// when it was one before.
pub proof fn law_tab_stays_valid(
    s: SettingsView,
    action: SettingsPageAction,
    theme_count: usize,
    reader_theme_count: usize,
)
    requires
        s.settings_tab == "general"@ || s.settings_tab == "blocking"@ || s.settings_tab
            == "appearance"@,
    ensures
        ({
            let t = settings_after(s, action, theme_count, reader_theme_count).0.settings_tab;
            t == "general"@ || t == "blocking"@ || t == "appearance"@
        }),
{
}

/// Adding a host never stores an empty or duplicate entry: custom hosts
/// stay distinct and non-empty.
pub proof fn law_custom_hosts_distinct(
    s: SettingsView,
    action: SettingsPageAction,
    theme_count: usize,
    reader_theme_count: usize,
)
    requires
        forall|i: int, j: int|
            0 <= i < j < s.custom_blocked_hosts.len() ==> s.custom_blocked_hosts[i]
                != s.custom_blocked_hosts[j],
    ensures
        ({
            let h = settings_after(s, action, theme_count, reader_theme_count).0.custom_blocked_hosts;
            forall|i: int, j: int| 0 <= i < j < h.len() ==> h[i] != h[j]
        }),
{
    let h = settings_after(s, action, theme_count, reader_theme_count).0.custom_blocked_hosts;
    let old_h = s.custom_blocked_hosts;
    match action {
        SettingsPageAction::AddBlockedHost(host) => {
            let t = trim(host@);
            if t.len() > 0 && !old_h.contains(t) {
                assert forall|i: int, j: int| 0 <= i < j < h.len() implies h[i] != h[j] by {
                    if j == old_h.len() {
                        assert(old_h[i] == h[i]);
                    }
                }
            }
        },
        SettingsPageAction::RemoveBlockedHost(index) => {
            if index < old_h.len() {
                assert forall|i: int, j: int| 0 <= i < j < h.len() implies h[i] != h[j] by {
                    let i0 = if i < index { i } else { i + 1 };
                    let j0 = if j < index { j } else { j + 1 };
                    assert(h[i] == old_h[i0] && h[j] == old_h[j0]);
                }
            }
        },
        _ => {},
    }
}

} // verus!
