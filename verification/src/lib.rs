//! Verified core of a spatial web browser: URL cleaning and request
//! blocking, the password vault (records, sealing, CSV import, autofill
//! decisions), userscript and userstyle matching, the generated list and
//! settings pages, the custom-scheme actions those pages send back, the
//! bookkeeping behind bookmarks, history, downloads and workspaces, and
//! the canvas's page stack and input forwarding.

pub mod text;
pub mod paths;
pub mod json;
pub mod clean_urls;
pub mod pages;
pub mod bookmarks;
pub mod clipboard_bridge;
pub mod vault;
pub mod vault_crypto;
pub mod vault_csv;
pub mod url_match;
pub mod userscripts;
pub mod name_sort;
pub mod userstyles;
pub mod history;
pub mod downloads;
pub mod typed_history;
pub mod settings;
pub mod nav_actions;
pub mod bookmarks_chrome;
pub mod reader_mode;
pub mod workspaces;
pub mod parked;
pub mod input;
pub mod keys;
pub mod blocklist;
pub mod filter_engine;
pub mod file_pick;
pub mod autofill;
pub mod autofill_bridge;
pub mod list_actions;
pub mod frame;
pub mod canvas;
pub mod cursor;
