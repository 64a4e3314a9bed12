use spatial_browser::vault::{
    create, generate_password, normalize_origin, open_sealed, VaultData, VaultEntry, VaultError,
    VaultSession,
};
use spatial_browser::vault_crypto::{frame_sealed, key_from_bytes, parse_sealed, salt_of};

fn entry(id: &str, origin: &str, username: &str, password: &str) -> VaultEntry {
    VaultEntry {
        id: id.to_string(),
        origin: origin.to_string(),
        username: username.to_string(),
        password: password.to_string(),
        email: None,
        given_name: None,
        family_name: None,
        address_line1: None,
        city: None,
        postal_code: None,
        country: None,
        notes: None,
        updated_at: 0,
    }
}

fn session_with(entries: Vec<VaultEntry>, never: Vec<String>) -> VaultSession {
    VaultSession::from_parts(key_from_bytes(vec![7u8; 32]), VaultData { version: 1, entries, never_save: never })
}

#[test]
fn origin_normalize() {
    assert_eq!(normalize_origin("https://Example.com/login?x=1"), "https://example.com");
}

#[test]
fn round_trip_in_memory_style() {
    let (session, salt) = match create("test-pass") {
        Ok(v) => v,
        Err(_) => panic!("create failed"),
    };
    let file = match session.seal_with_salt(&salt, b"payload") {
        Ok(f) => f,
        Err(_) => panic!("seal failed"),
    };
    let (_key, pt) = match open_sealed("test-pass", &file) {
        Ok(v) => v,
        Err(_) => panic!("open failed"),
    };
    assert_eq!(pt, b"payload");
}

#[test]
fn open_with_wrong_password_is_refused() {
    let (session, salt) = match create("right-pass") {
        Ok(v) => v,
        Err(_) => panic!("create failed"),
    };
    let file = match session.seal_with_salt(&salt, b"secret data") {
        Ok(f) => f,
        Err(_) => panic!("seal failed"),
    };
    assert!(matches!(open_sealed("wrong-pass", &file), Err(VaultError::BadPassword)));
    // The sealed bytes are not the plaintext: the cipher did its work.
    assert!(!file.windows(11).any(|w| w == b"secret data"));
    assert_eq!(file.len(), 4 + 1 + 16 + 12 + 11 + 16);
}

#[test]
fn corrupt_files_are_refused() {
    assert!(matches!(parse_sealed(&[0u8; 10]), Err(VaultError::Corrupt("too short"))));
    let mut bad = vec![0u8; 60];
    assert!(matches!(parse_sealed(&bad), Err(VaultError::Corrupt("bad magic"))));
    bad[0] = b'S';
    bad[1] = b'B';
    bad[2] = b'V';
    bad[3] = b'T';
    bad[4] = 2;
    assert!(matches!(parse_sealed(&bad), Err(VaultError::Corrupt("unsupported version"))));
    assert!(matches!(open_sealed("x", &[1, 2, 3]), Err(VaultError::Corrupt("too short"))));
    assert!(matches!(salt_of(&[0u8; 20]), Err(VaultError::Corrupt("missing salt"))));
}

#[test]
fn frame_then_parse_gives_the_parts_back() {
    let salt = [1u8; 16];
    let nonce = [2u8; 12];
    let ct = [3u8; 20];
    let f = frame_sealed(&salt, &nonce, &ct);
    assert_eq!(&f[0..5], b"SBVT\x01");
    match parse_sealed(&f) {
        Ok((s, n, c)) => {
            assert_eq!(s, salt.to_vec());
            assert_eq!(n, nonce.to_vec());
            assert_eq!(c, ct.to_vec());
        }
        Err(_) => panic!("parse failed"),
    }
    match salt_of(&f) {
        Ok(s) => assert_eq!(s, salt.to_vec()),
        Err(_) => panic!("salt missing"),
    }
}

#[test]
fn origin_without_scheme_is_https() {
    assert_eq!(normalize_origin("  GitHub.com/login "), "https://github.com");
    assert_eq!(normalize_origin("http://Host:8080#frag"), "http://host:8080");
}

#[test]
fn get_after_upsert_and_remove() {
    let mut s = session_with(vec![entry("a", "https://x.com", "u", "p")], vec![]);
    s.upsert_at(entry("a", "https://x.com", "u", "p2"), 42, "fresh".to_string());
    let got = s.get("a").expect("entry a");
    assert_eq!(got.password, "p2");
    assert_eq!(got.updated_at, 42);
    assert_eq!(s.data().entries.len(), 1);
    s.upsert_at(entry("", "https://y.com", "v", "q"), 43, "fresh".to_string());
    assert_eq!(s.data().entries.len(), 2);
    assert_eq!(s.get("fresh").expect("fresh").username, "v");
    assert!(s.remove("a"));
    assert!(s.get("a").is_none());
    assert!(!s.remove("a"));
}

#[test]
fn upsert_without_id_gets_random_hex_id() {
    let mut s = session_with(vec![], vec![]);
    s.upsert(entry("", "https://z.com", "w", "r"));
    let id = s.data().entries[0].id.clone();
    assert_eq!(id.len(), 32);
    assert!(id.chars().all(|c| c.is_ascii_hexdigit() && !c.is_ascii_uppercase()));
}

#[test]
fn entries_for_origin_matches_normalized_origin() {
    let s = session_with(
        vec![
            entry("1", "https://Example.com", "a", "x"),
            entry("2", "https://other.com", "b", "y"),
            entry("3", "https://example.com/path", "c", "z"),
        ],
        vec![],
    );
    let found = s.entries_for_origin("https://EXAMPLE.com/login");
    let ids: Vec<&str> = found.iter().map(|e| e.id.as_str()).collect();
    assert_eq!(ids, vec!["1", "3"]);
}

#[test]
fn never_save_add_and_remove() {
    let mut s = session_with(vec![], vec![]);
    assert!(!s.is_never_save("https://bank.com/login"));
    assert!(s.add_never_save("https://Bank.com/x"));
    assert!(s.is_never_save("https://bank.com/login"));
    assert!(!s.add_never_save("https://bank.com"));
    s.remove_never_save("https://bank.com/other");
    assert!(!s.is_never_save("https://bank.com"));
}

#[test]
fn import_entries_merges_by_site_and_username() {
    let mut s = session_with(vec![entry("a", "https://x.com", "u", "p")], vec![]);
    let incoming = vec![
        entry("", "https://x.com/login", "u", "new"),
        entry("", "https://x.com", "u", "new"),
        entry("", "https://y.com", "v", "q"),
        entry("", "", "w", "q"),
        entry("", "https://z.com", "w", ""),
    ];
    let ids = vec!["i1".to_string(), "i2".to_string(), "i3".to_string(), "i4".to_string(), "i5".to_string()];
    let stats = s.import_entries_at(incoming, 99, ids);
    // An empty origin normalises to "https://", so that entry is added.
    assert_eq!(stats.added, 2);
    assert_eq!(stats.updated, 1);
    assert_eq!(stats.skipped, 2);
    assert_eq!(stats.to_text(), "2 added, 1 updated, 2 skipped");
    assert_eq!(s.get("i4").expect("i4").origin, "https://");
    assert_eq!(s.get("a").expect("a").password, "new");
    assert_eq!(s.get("a").expect("a").updated_at, 99);
    assert_eq!(s.get("i3").expect("i3").origin, "https://y.com");
}

#[test]
fn import_entries_gives_fresh_ids() {
    let mut s = session_with(vec![], vec![]);
    let stats = s.import_entries(vec![entry("", "https://y.com", "v", "q")]);
    assert_eq!(stats.added, 1);
    assert_eq!(s.data().entries[0].id.len(), 32);
}

#[test]
fn generated_passwords_use_the_alphabet() {
    let p = generate_password(20, true);
    assert_eq!(p.chars().count(), 20);
    let q = generate_password(3, false);
    assert_eq!(q.chars().count(), 8);
    assert!(q.chars().all(|c| c.is_ascii_alphanumeric()));
    let long = generate_password(500, false);
    assert_eq!(long.chars().count(), 128);
}

#[test]
fn origin_drops_default_ports_only() {
    assert_eq!(normalize_origin("https://a.com:443/x"), "https://a.com");
    assert_eq!(normalize_origin("http://a.com:80"), "http://a.com");
    assert_eq!(normalize_origin("https://a.com:8443/"), "https://a.com:8443");
    assert_eq!(normalize_origin("http://a.com:443"), "http://a.com:443");
    assert_eq!(normalize_origin("A.com:443"), "https://a.com");
    assert_eq!(normalize_origin("ftp://h.org:21/f"), "ftp://h.org:21");
}

#[test]
fn never_save_second_add_changes_nothing() {
    let mut s = session_with(vec![], vec![]);
    assert!(s.add_never_save("https://Shop.com:443/cart"));
    assert_eq!(s.data().never_save, vec!["https://shop.com".to_string()]);
    assert!(s.is_never_save("https://Shop.com:443/cart"));
    assert!(!s.add_never_save("https://Shop.com:443/cart"));
    assert_eq!(s.data().never_save.len(), 1);
}

#[test]
fn clock_is_not_negative() {
    assert!(spatial_browser::vault::now_unix() > 0);
}

#[test]
fn create_and_seal_succeed_on_ordinary_input() {
    let (session, salt) = match create("") {
        Ok(v) => v,
        Err(_) => panic!("an empty password still derives a key"),
    };
    assert_eq!(salt.len(), 16);
    let file = match session.seal_with_salt(&salt, b"") {
        Ok(f) => f,
        Err(_) => panic!("sealing an empty plaintext succeeds"),
    };
    assert_eq!(file.len(), 4 + 1 + 16 + 12 + 16);
    let stats = spatial_browser::vault_csv::ImportStats { added: 0, updated: 0, skipped: 3 };
    assert!(!stats.changed());
    let stats = spatial_browser::vault_csv::ImportStats { added: 0, updated: 1, skipped: 0 };
    assert!(stats.changed());
}
