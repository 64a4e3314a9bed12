use spatial_browser::autofill::{
    check_new_password, fill_entry_js, fill_response_js, save_banner_js, save_image_js,
    save_offer, UnlockProblem,
};
use spatial_browser::file_pick::{thread_name, PendingPicks, PickKind, PickReceive};
use spatial_browser::filter_engine::{check_request, list_files, FilterEngine, FilterEngineConfig, ResourceKind, request_type};
use spatial_browser::input::{encode_utf16, KeyEventKind, KeyboardInput, MouseButtonKind, MouseInput};
use spatial_browser::keys::{handle, vkey_of, HotkeyCommand, Key};
use spatial_browser::reader_mode::{extract_script, reader_theme, theme_or_first};
use spatial_browser::vault::{VaultData, VaultEntry, VaultSession};
use spatial_browser::vault_crypto::key_from_bytes;
use spatial_browser::workspaces::{theme_index, WorkspaceSlot, WorkspaceStore};

fn entry(id: &str, origin: &str, username: &str, password: &str) -> VaultEntry {
    VaultEntry {
        id: id.to_string(),
        origin: origin.to_string(),
        username: username.to_string(),
        password: password.to_string(),
        email: None,
        given_name: None,
        family_name: None,
        address_line1: None,
        city: None,
        postal_code: None,
        country: None,
        notes: None,
        updated_at: 0,
    }
}

#[test]
fn hotkey_table() {
    assert!(handle(true, Key::F1, false, false, false) == Some(HotkeyCommand::OpenHelp));
    assert!(handle(false, Key::F1, false, false, false).is_none());
    assert!(handle(true, Key::ArrowLeft, false, false, true) == Some(HotkeyCommand::GoBack));
    assert!(handle(true, Key::ArrowLeft, false, true, true).is_none());
    assert!(handle(true, Key::KeyT, false, false, false).is_none());
    assert!(handle(true, Key::KeyT, true, true, false) == Some(HotkeyCommand::ReopenClosed));
    assert!(handle(true, Key::Digit3, false, true, false) == Some(HotkeyCommand::SwitchWorkspace(3)));
    assert!(handle(true, Key::Digit3, true, true, false).is_none());
    assert!(handle(true, Key::KeyC, false, true, false).is_none());
    assert!(handle(true, Key::Tab, true, true, false) == Some(HotkeyCommand::RotateFocus(true)));
    assert!(handle(true, Key::KeyU, false, true, false).is_none());
    assert!(handle(true, Key::KeyU, true, true, false) == Some(HotkeyCommand::ReloadUserscripts));
}

#[test]
fn virtual_keys() {
    assert_eq!(vkey_of(Key::KeyA), Some(0x41));
    assert_eq!(vkey_of(Key::Digit0), Some(0x30));
    assert_eq!(vkey_of(Key::NumpadEnter), Some(0x0D));
    assert_eq!(vkey_of(Key::F12), Some(0x7B));
    assert_eq!(vkey_of(Key::Quote), Some(0xDE));
    assert_eq!(vkey_of(Key::Other), None);
}

#[test]
fn key_events_and_modifiers() {
    let mut k = KeyboardInput::new();
    k.modifiers_changed(true, true, false, true);
    assert_eq!(k.modifiers, 2 | 4 | 128);
    let ev = k.key_event(0x41, true, Some("a😀"));
    assert_eq!(ev.len(), 4);
    assert!(ev[0].kind == KeyEventKind::RawKeyDown && ev[0].windows_key_code == 0x41);
    assert_eq!(ev[1].character, 'a' as u16);
    let mut buf = [0u16; 2];
    let units: Vec<u16> = '😀'.encode_utf16(&mut buf).to_vec();
    assert_eq!(vec![ev[2].character, ev[3].character], units);
    assert_eq!(encode_utf16('😀'), units);
    let up = k.key_event(0x41, false, Some("a"));
    assert_eq!(up.len(), 1);
    assert!(up[0].kind == KeyEventKind::KeyUp);
}

#[test]
fn mouse_buttons() {
    let mut m = MouseInput::new();
    m.cursor_moved(10, 20);
    let e = m.button(MouseButtonKind::Left, true);
    assert_eq!((e.x, e.y, e.modifiers), (10, 20, 16));
    m.button(MouseButtonKind::Right, true);
    assert_eq!(m.buttons_down, 16 | 64);
    let e = m.button(MouseButtonKind::Left, false);
    assert_eq!(e.modifiers, 64);
}

#[test]
fn workspace_slots() {
    let mut store: WorkspaceStore<u8> = WorkspaceStore::fresh("Tokyo Night", vec![0, 0, 0]);
    assert_eq!(store.slot_count(), 3);
    assert_eq!(store.active, 1);
    let id = store.add_fresh_slot("Tokyo Night", 9);
    assert_eq!(id, 4);
    assert_eq!(store.slot(4).unwrap().layout, 9);
    store.active = 4;
    assert_eq!(store.remove_slot(2), None);
    assert_eq!(store.active, 3);
    let ids: Vec<u32> = store.slots.iter().map(|s| s.id).collect();
    assert_eq!(ids, vec![1, 2, 3]);
    assert_eq!(store.remove_slot(3), Some(2));
    assert_eq!(store.active, 2);
    assert_eq!(store.remove_slot(9), None);
    store.remove_slot(1);
    assert_eq!(store.remove_slot(1), None);
    assert_eq!(store.slots.len(), 1);
    let loaded = WorkspaceStore { version: 1, active: 7, slots: vec![] }.ensure_invariants("T", vec![5]);
    assert_eq!(loaded.slots.len(), 1);
    assert_eq!(loaded.version, 2);
    let mut messy: WorkspaceStore<u8> = WorkspaceStore::fresh("T", vec![1, 2, 3]);
    messy.slots[0].id = 9;
    messy.active = 9;
    let fixed = messy.ensure_invariants("T", vec![0]);
    let layouts: Vec<u8> = fixed.slots.iter().map(|s| s.layout).collect();
    assert_eq!(layouts, vec![2, 3, 1]);
    assert_eq!(fixed.active, 1);
    let legacy = WorkspaceStore::from_legacy(vec![("Dark".to_string(), 7u8)], "T", vec![0, 0]);
    assert_eq!(legacy.slots.len(), 3);
    assert!(legacy.slots[0].visited && !legacy.slots[1].visited);
    assert_eq!(theme_index(&["Tokyo Night", "ANSI Terminal"], "ANSI Terminal"), 1);
    assert_eq!(theme_index(&["Tokyo Night", "ANSI Terminal"], "nope"), 0);
}

#[test]
fn reader_mode_script() {
    let t = reader_theme(1).unwrap();
    assert_eq!(t.name, "Sepia");
    assert!(reader_theme(3).is_none());
    assert_eq!(theme_or_first(9).name, "Light");
    let s = extract_script(&t);
    assert!(s.contains("background:#f4ecd8;color:#3b3629;overflow-x:hidden}"));
    assert!(s.contains(".spatial-reader a{color:#8a5a2b}"));
    assert!(s.starts_with("\n(function() {\n"));
}

#[test]
fn autofill_decisions() {
    let v = VaultSession::from_parts(
        key_from_bytes(vec![1u8; 32]),
        VaultData {
            version: 1,
            entries: vec![entry("e1", "https://x.com", "bob", "old"), entry("e2", "https://x.com", "amy", "pw")],
            never_save: vec!["https://never.com".to_string()],
        },
    );
    let o = save_offer(&v, "https://x.com", "bob", "new").unwrap();
    assert_eq!(o.id, "e1");
    assert!(save_offer(&v, "https://x.com", "bob", "old").is_none());
    assert!(save_offer(&v, "https://never.com", "z", "p").is_none());
    assert!(save_offer(&v, "", "z", "p").is_none());
    assert_eq!(save_offer(&v, "https://y.com", "z", "p").unwrap().id, "");
    assert_eq!(
        save_banner_js(&o),
        "window.__spatialAutofillShowSave && window.__spatialAutofillShowSave({origin:\"https://x.com\",username:\"bob\",password:\"new\",id:\"e1\"});"
    );
    let e = entry("e1", "https://x.com", "bob", "p\"w");
    assert_eq!(
        fill_entry_js(&e),
        "window.__spatialAutofillFill && window.__spatialAutofillFill({\"address_line1\":null,\"city\":null,\"country\":null,\"email\":null,\"password\":\"p\\\"w\",\"postal_code\":null,\"username\":\"bob\"});"
    );
    let found = v.entries_for_origin("https://x.com");
    let js = fill_response_js(&found).unwrap();
    assert_eq!(js, "window.__spatialAutofillShowPicker && window.__spatialAutofillShowPicker([{id:\"e1\",username:\"bob\"},{id:\"e2\",username:\"amy\"}]);");
    assert!(fill_response_js(&vec![]).is_none());
    assert!(save_image_js("https://i.com/a.png").ends_with("a.remove();})(\"https://i.com/a.png\");"));
    assert!(check_new_password("short", true, Some("short")) == Err(UnlockProblem::TooShort));
    assert!(check_new_password("longenough", true, Some("other")) == Err(UnlockProblem::Mismatch));
    assert!(check_new_password("longenough", true, None) == Err(UnlockProblem::Mismatch));
    assert!(check_new_password("longenough", true, Some("longenough")).is_ok());
    assert!(check_new_password("x", false, None).is_ok());
    assert_eq!(UnlockProblem::TooShort.message(), "Use at least 8 characters");
}

#[test]
fn file_pick_bookkeeping() {
    let mut p = PendingPicks::new();
    assert!(p.poll(PickKind::Bookmarks, PickReceive::Empty).is_none());
    p.start(PickKind::Bookmarks, 7);
    p.start(PickKind::PasswordsCsv, 8);
    p.start(PickKind::Bookmarks, 9);
    assert!(p.poll(PickKind::Bookmarks, PickReceive::Empty).is_none());
    assert_eq!(p.poll(PickKind::Bookmarks, PickReceive::Done(Some("/x".to_string()))), Some((9, Some("/x".to_string()))));
    assert!(p.poll(PickKind::Bookmarks, PickReceive::Done(None)).is_none());
    assert!(p.poll(PickKind::PasswordsCsv, PickReceive::Disconnected).is_none());
    assert!(p.entries.is_empty());
    assert_eq!(thread_name(PickKind::PasswordsCsv), "csv-file-dialog");
}

#[test]
fn filter_engine_lists_and_requests() {
    let cfg = FilterEngineConfig { easylist: true, easyprivacy: false, filters_dir: "/f".to_string() };
    assert_eq!(list_files(&cfg), vec!["/f/easylist.txt".to_string()]);
    assert_eq!(request_type(ResourceKind::Favicon), "image");
    assert!(FilterEngine::from_lists(vec![]).is_none());
    let engine = FilterEngine::from_lists(vec!["||ads.example.com^\n".to_string()]).unwrap();
    assert!(check_request(Some(&engine), "https://ads.example.com/banner.js", "https://site.com", ResourceKind::Script));
    assert!(!check_request(Some(&engine), "https://cdn.example.com/app.js", "", ResourceKind::Script));
    assert!(!check_request(None, "https://ads.example.com/banner.js", "", ResourceKind::Script));
}

#[test]
fn filter_engine_uses_every_list_in_order() {
    let engine = FilterEngine::from_lists(vec![
        "||one.example^\n".to_string(),
        "||two.example^\n@@||two.example/ok^\n".to_string(),
    ])
    .unwrap();
    assert!(check_request(Some(&engine), "https://one.example/a.js", "https://site.com", ResourceKind::Script));
    assert!(check_request(Some(&engine), "https://two.example/a.js", "https://site.com", ResourceKind::Script));
    assert!(!check_request(Some(&engine), "https://two.example/ok/a.js", "https://site.com", ResourceKind::Script));
    assert!(!check_request(Some(&engine), "not a url", "", ResourceKind::Script));
}

#[test]
fn workspace_load_cases() {
    let fresh: WorkspaceStore<u8> = WorkspaceStore::load_from(None, None, "T", vec![0, 0, 0]);
    assert_eq!((fresh.version, fresh.active, fresh.slots.len()), (2, 1, 3));
    assert!(fresh.slots.iter().enumerate().all(|(i, s)| s.id == i as u32 + 1 && !s.visited));
    let stored = WorkspaceStore {
        version: 2,
        active: 9,
        slots: vec![
            WorkspaceSlot { id: 5, visited: true, theme: "A".to_string(), layout: 1u8 },
            WorkspaceSlot { id: 2, visited: false, theme: "B".to_string(), layout: 2u8 },
        ],
    };
    let loaded = WorkspaceStore::load_from(Some(stored), None, "T", vec![0, 0, 0]);
    assert_eq!(loaded.active, 1);
    assert_eq!(loaded.slots.iter().map(|s| (s.id, s.layout)).collect::<Vec<_>>(), vec![(1, 2), (2, 1)]);
    assert_eq!(loaded.active_slot().id, 1);
    let old = WorkspaceStore { version: 1, active: 1, slots: vec![] };
    let legacy = WorkspaceStore::load_from(Some(old), Some(vec![("Dark".to_string(), 7u8)]), "T", vec![0, 0, 0]);
    assert_eq!(legacy.slots.len(), 3);
    assert!(legacy.slots[0].visited && legacy.slots[0].theme == "Dark" && legacy.slots[0].layout == 7);
    assert!(!legacy.slots[1].visited && legacy.slots[1].theme == "T");
    let empty = WorkspaceStore { version: 2, active: 1, slots: Vec::<WorkspaceSlot<u8>>::new() };
    let none = WorkspaceStore::load_from(Some(empty), None, "T", vec![0, 0, 0]);
    assert_eq!((none.version, none.active, none.slots.len()), (2, 1, 3));
}

#[test]
fn finished_pick_is_reported_once() {
    let mut p = PendingPicks::new();
    p.start(PickKind::Bookmarks, 7);
    assert!(p.poll(PickKind::Bookmarks, PickReceive::Empty).is_none());
    assert_eq!(p.poll(PickKind::Bookmarks, PickReceive::Done(None)), Some((7, None)));
    assert!(p.poll(PickKind::Bookmarks, PickReceive::Done(Some("/y".to_string()))).is_none());
    p.start(PickKind::PasswordsCsv, 8);
    assert!(p.poll(PickKind::PasswordsCsv, PickReceive::Disconnected).is_none());
    assert!(p.poll(PickKind::PasswordsCsv, PickReceive::Done(Some("/z".to_string()))).is_none());
}
