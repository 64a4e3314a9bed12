//! The password vault: its records, origin normalisation, the in-memory
//! operations on an unlocked vault, and the sealed file's framing
//! (`SBVT`, format version, salt, nonce, AES-256-GCM ciphertext).
//! Reading and writing the file, and JSON, happen outside the library.

use vstd::prelude::*;
use vstd::string::StringSliceAdditionalSpecFns;
use crate::vault_crypto::{
    law_parse_frame,
    aes_decrypt, aes_encrypt, aes_gcm_open, aes_gcm_seal, argon2_derive, argon2id_key,
    frame_sealed, is_corrupt, parse_sealed, parsed_file, random_bytes, sealed_file,
    key_from_bytes, key_material_bytes, key_slice, KeyMaterial,
};
use crate::text::{
    before_any, before_any_chars, chars_eq, chars_eq_str, chars_of, ends_with, ends_with_chars,
    push_all, push_str, slice_copy, split_once_seq, split_once_str_chars, string_of, to_lower,
    to_lower_chars, trim, trim_chars, trim_start, trim_end, is_ws, lower, occurs_at, find_from,
    find_any, lemma_find_from_props, lemma_find_any_props,
};

verus! {

/// One saved login (plus optional autofill fields).
pub struct VaultEntry {
    pub id: String,
    pub origin: String,
    pub username: String,
    pub password: String,
    pub email: Option<String>,
    pub given_name: Option<String>,
    pub family_name: Option<String>,
    pub address_line1: Option<String>,
    pub city: Option<String>,
    pub postal_code: Option<String>,
    pub country: Option<String>,
    pub notes: Option<String>,
    pub updated_at: i64,
}

/// A vault entry's contents as character sequences.
pub struct EntryView {
    pub id: Seq<char>,
    pub origin: Seq<char>,
    pub username: Seq<char>,
    pub password: Seq<char>,
    pub email: Option<Seq<char>>,
    pub given_name: Option<Seq<char>>,
    pub family_name: Option<Seq<char>>,
    pub address_line1: Option<Seq<char>>,
    pub city: Option<Seq<char>>,
    pub postal_code: Option<Seq<char>>,
    pub country: Option<Seq<char>>,
    pub notes: Option<Seq<char>>,
    pub updated_at: i64,
}

pub open spec fn opt_view(o: Option<String>) -> Option<Seq<char>> {
    match o {
        Some(s) => Some(s@),
        None => None,
    }
}

impl View for VaultEntry {
    type V = EntryView;

    open spec fn view(&self) -> EntryView {
        EntryView {
            id: self.id@,
            origin: self.origin@,
            username: self.username@,
            password: self.password@,
            email: opt_view(self.email),
            given_name: opt_view(self.given_name),
            family_name: opt_view(self.family_name),
            address_line1: opt_view(self.address_line1),
            city: opt_view(self.city),
            postal_code: opt_view(self.postal_code),
            country: opt_view(self.country),
            notes: opt_view(self.notes),
            updated_at: self.updated_at,
        }
    }
}

/// The views of a list of entries.
pub open spec fn entry_views(v: Seq<VaultEntry>) -> Seq<EntryView> {
    v.map_values(|e: VaultEntry| e@)
}

pub fn clone_opt(o: &Option<String>) -> (r: Option<String>)
    ensures
        opt_view(r) == opt_view(*o),
{
    match o {
        Some(s) => Some(s.clone()),
        None => None,
    }
}

/// A copy of an entry.
pub fn clone_entry(e: &VaultEntry) -> (r: VaultEntry)
    ensures
        r@ == e@,
{
    VaultEntry {
        id: e.id.clone(),
        origin: e.origin.clone(),
        username: e.username.clone(),
        password: e.password.clone(),
        email: clone_opt(&e.email),
        given_name: clone_opt(&e.given_name),
        family_name: clone_opt(&e.family_name),
        address_line1: clone_opt(&e.address_line1),
        city: clone_opt(&e.city),
        postal_code: clone_opt(&e.postal_code),
        country: clone_opt(&e.country),
        notes: clone_opt(&e.notes),
        updated_at: e.updated_at,
    }
}

/// The decrypted vault contents.
pub struct VaultData {
    pub version: u32,
    pub entries: Vec<VaultEntry>,
    /// Origins the user asked never to offer saving for.
    pub never_save: Vec<String>,
}

/// What can go wrong opening, sealing or editing the vault.
pub enum VaultError {
    Io(String),
    Corrupt(&'static str),
    BadPassword,
    Serialize(String),
}

/// What an error says to the user.
pub open spec fn error_text(e: VaultError) -> Seq<char> {
    match e {
        VaultError::Io(s) => s@,
        VaultError::Corrupt(s) => "corrupt vault: "@ + s@,
        VaultError::BadPassword => "wrong master password"@,
        VaultError::Serialize(s) => s@,
    }
}

impl VaultError {
    /// The error as a message for the unlock page.
    pub fn message(&self) -> (r: String)
        ensures
            r@ == error_text(*self),
    {
        match self {
            VaultError::Io(s) => s.clone(),
            VaultError::Corrupt(s) => {
                let mut out: Vec<char> = Vec::new();
                crate::text::push_str(&mut out, "corrupt vault: ");
                crate::text::push_str(&mut out, s);
                crate::text::string_of(out.as_slice())
            },
            VaultError::BadPassword => String::from_str("wrong master password"),
            VaultError::Serialize(s) => s.clone(),
        }
    }
}

/// Characters that end the host part of a URL.
pub open spec fn url_stops() -> Seq<char> {
    seq!['/', '?', '#']
}

/// The port a scheme uses when none is written: `:443` for `https`, `:80`
/// for `http`.
pub open spec fn default_port(scheme: Seq<char>) -> Option<Seq<char>> {
    if scheme == "https"@ {
        Some(":443"@)
    } else if scheme == "http"@ {
        Some(":80"@)
    } else {
        None
    }
}

/// `host` without a trailing default port of `scheme`.
pub open spec fn drop_default_port(scheme: Seq<char>, host: Seq<char>) -> Seq<char> {
    match default_port(scheme) {
        Some(p) => if ends_with(host, p) {
            host.take(host.len() - p.len())
        } else {
            host
        },
        None => host,
    }
}

/// The scheme and the lower-cased host (with any non-default port) of a URL
/// or origin; input without a scheme is taken as `https`.
pub open spec fn origin_parts(u: Seq<char>) -> (Seq<char>, Seq<char>) {
    let s = trim(u);
    match split_once_seq(s, "://"@) {
        Some((scheme, rest)) => (
            scheme,
            drop_default_port(scheme, to_lower(before_any(rest, url_stops()))),
        ),
        None => ("https"@, drop_default_port("https"@, to_lower(before_any(s, url_stops())))),
    }
}

/// Scheme + lower-cased host of a URL or origin, with its port unless it
/// is the scheme's default. Path, query and fragment are dropped.
pub open spec fn origin_of(u: Seq<char>) -> Seq<char> {
    origin_parts(u).0 + "://"@ + origin_parts(u).1
}

fn stops_vec() -> (r: Vec<char>)
    ensures
        r@ == url_stops(),
{
    let mut v: Vec<char> = Vec::new();
    v.push('/');
    v.push('?');
    v.push('#');
    v
}

fn drop_default_port_chars(scheme: &[char], host: Vec<char>) -> (r: Vec<char>)
    ensures
        r@ == drop_default_port(scheme@, host@),
{
    let port = if chars_eq_str(scheme, "https") {
        chars_of(":443")
    } else if chars_eq_str(scheme, "http") {
        chars_of(":80")
    } else {
        return host;
    };
    if ends_with_chars(host.as_slice(), port.as_slice()) {
        slice_copy(host.as_slice(), 0, host.len() - port.len())
    } else {
        host
    }
}

fn origin_chars(u: &[char]) -> (r: Vec<char>)
    ensures
        r@ == origin_of(u@),
{
    let s = trim_chars(u);
    let stops = stops_vec();
    let mut out: Vec<char> = Vec::new();
    match split_once_str_chars(s.as_slice(), "://") {
        Some((scheme, rest)) => {
            let host = before_any_chars(rest.as_slice(), stops.as_slice());
            let lower = to_lower_chars(host.as_slice());
            let kept = drop_default_port_chars(scheme.as_slice(), lower);
            push_all(&mut out, scheme.as_slice());
            push_str(&mut out, "://");
            push_all(&mut out, kept.as_slice());
        },
        None => {
            let host = before_any_chars(s.as_slice(), stops.as_slice());
            let lower = to_lower_chars(host.as_slice());
            let https = chars_of("https");
            let kept = drop_default_port_chars(https.as_slice(), lower);
            push_all(&mut out, https.as_slice());
            push_str(&mut out, "://");
            push_all(&mut out, kept.as_slice());
        },
    }
    out
}

/// Strip path/query; keep scheme + host (+ non-default port), host
/// lower-cased.
pub fn normalize_origin(url_or_origin: &str) -> (r: String)
    ensures
        r@ == origin_of(url_or_origin@),
{
    let u = chars_of(url_or_origin);
    let o = origin_chars(u.as_slice());
    string_of(o.as_slice())
}

/// Index of the first entry whose id is `id`.
pub open spec fn index_of_id(entries: Seq<VaultEntry>, id: Seq<char>) -> Option<int>
    decreases entries.len(),
{
    if entries.len() == 0 {
        None
    } else {
        match index_of_id(entries.drop_last(), id) {
            Some(i) => Some(i),
            None => if entries.last().id@ == id {
                Some(entries.len() - 1)
            } else {
                None
            },
        }
    }
}

/// Entries whose origin normalises to the same origin as `origin`, in order.
pub open spec fn matching_entries(entries: Seq<VaultEntry>, origin: Seq<char>) -> Seq<VaultEntry>
    decreases entries.len(),
{
    if entries.len() == 0 {
        Seq::empty()
    } else {
        let prev = matching_entries(entries.drop_last(), origin);
        if origin_of(entries.last().origin@) == origin_of(origin) {
            prev.push(entries.last())
        } else {
            prev
        }
    }
}

/// `entries` with `e` replacing the first entry with its id, or appended.
pub open spec fn upserted(entries: Seq<VaultEntry>, e: VaultEntry) -> Seq<VaultEntry> {
    match index_of_id(entries, e.id@) {
        Some(i) => entries.update(i, e),
        None => entries.push(e),
    }
}

/// `entries` without those whose id is `id`.
pub open spec fn without_id(entries: Seq<VaultEntry>, id: Seq<char>) -> Seq<VaultEntry>
    decreases entries.len(),
{
    if entries.len() == 0 {
        Seq::empty()
    } else {
        let prev = without_id(entries.drop_last(), id);
        if entries.last().id@ == id {
            prev
        } else {
            prev.push(entries.last())
        }
    }
}

/// Some origin in `origins` normalises like `origin`.
pub open spec fn covers(origins: Seq<Seq<char>>, origin: Seq<char>) -> bool {
    exists|i: int| 0 <= i < origins.len() && origin_of(#[trigger] origins[i]) == origin_of(origin)
}

/// Some stored never-save origin normalises like `origin`.
pub open spec fn never_save_has(never: Seq<String>, origin: Seq<char>) -> bool {
    covers(string_views(never), origin)
}

/// The never-save list after adding `origin`: its normal form is appended
/// unless some stored origin already normalises like that normal form.
pub open spec fn never_save_added(never: Seq<Seq<char>>, origin: Seq<char>) -> Seq<Seq<char>> {
    if covers(never, origin_of(origin)) {
        never
    } else {
        never.push(origin_of(origin))
    }
}

/// The never-save list without the origins that normalise like `origin`.
pub open spec fn never_save_without(never: Seq<String>, origin: Seq<char>) -> Seq<Seq<char>>
    decreases never.len(),
{
    if never.len() == 0 {
        Seq::empty()
    } else {
        let prev = never_save_without(never.drop_last(), origin);
        if origin_of(never.last()@) == origin_of(origin) {
            prev
        } else {
            prev.push(never.last()@)
        }
    }
}

/// The views of a list of strings.
pub open spec fn string_views(v: Seq<String>) -> Seq<Seq<char>> {
    v.map_values(|s: String| s@)
}

proof fn lemma_index_of_id_props(entries: Seq<VaultEntry>, id: Seq<char>)
    ensures
        match index_of_id(entries, id) {
            Some(i) => 0 <= i < entries.len() && entries[i].id@ == id && forall|k: int|
                0 <= k < i ==> (#[trigger] entries[k]).id@ != id,
            None => forall|k: int| 0 <= k < entries.len() ==> (#[trigger] entries[k]).id@ != id,
        },
    decreases entries.len(),
{
    if entries.len() > 0 {
        lemma_index_of_id_props(entries.drop_last(), id);
        assert(forall|k: int| 0 <= k < entries.len() - 1 ==> entries.drop_last()[k] == entries[k]);
    }
}

proof fn lemma_index_of_id_prefix(entries: Seq<VaultEntry>, n: int, id: Seq<char>)
    requires
        0 <= n <= entries.len(),
        index_of_id(entries.take(n), id) is Some,
    ensures
        index_of_id(entries, id) == index_of_id(entries.take(n), id),
    decreases entries.len() - n,
{
    if n < entries.len() {
        assert(entries.take(n + 1).drop_last() == entries.take(n));
        lemma_index_of_id_prefix(entries, n + 1, id);
    } else {
        assert(entries.take(n) == entries);
    }
}

fn find_id(entries: &Vec<VaultEntry>, id: &str) -> (r: Option<usize>)
    ensures
        match r {
            Some(i) => index_of_id(entries@, id@) == Some(i as int) && i < entries@.len(),
            None => index_of_id(entries@, id@) is None,
        },
{
    let want = chars_of(id);
    let mut i: usize = 0;
    while i < entries.len()
        invariant
            i <= entries@.len(),
            want@ == id@,
            index_of_id(entries@.take(i as int), id@) is None,
        decreases entries@.len() - i,
    {
        assert(entries@.take(i + 1).drop_last() == entries@.take(i as int));
        let have = chars_of(entries[i].id.as_str());
        if chars_eq(have.as_slice(), want.as_slice()) {
            proof {
                lemma_index_of_id_prefix(entries@, i as int + 1, id@);
                lemma_index_of_id_props(entries@, id@);
            }
            return Some(i);
        }
        i = i + 1;
    }
    assert(entries@.take(entries@.len() as int) == entries@);
    None
}

/// The entries behind a list of references.
pub open spec fn deref_all(v: Seq<&VaultEntry>) -> Seq<VaultEntry> {
    v.map_values(|e: &VaultEntry| *e)
}

/// Unlocked vault: the key is kept for re-sealing on save, and zeroed
/// when the session is dropped.
pub struct VaultSession {
    key: KeyMaterial,
    pub(crate) data: VaultData,
}

impl VaultSession {
    /// The decrypted contents.
    pub closed spec fn state(&self) -> VaultData {
        self.data
    }

    /// Read access to the decrypted contents.
    pub fn data(&self) -> (r: &VaultData)
        ensures
            *r == self.state(),
    {
        &self.data
    }

    /// The 32-byte AES key this session seals with.
    pub closed spec fn key_bytes(&self) -> Seq<u8> {
        key_material_bytes(self.key)
    }

    /// Well-formed: the key is 32 bytes.
    pub closed spec fn wf(&self) -> bool {
        key_material_bytes(self.key).len() == 32
    }

    /// Whether the session holds a full-length key, so that it can seal.
    pub fn can_seal(&self) -> (r: bool)
        ensures
            r == self.wf(),
    {
        key_slice(&self.key).len() == 32
    }

    /// A session over decrypted `data` with the key it was opened with.
    pub fn from_parts(key: KeyMaterial, data: VaultData) -> (r: Self)
        requires
            key_material_bytes(key).len() == 32,
        ensures
            r.key_bytes() == key_material_bytes(key),
            r.state() == data,
            r.wf(),
    {
        VaultSession { key, data }
    }

    /// Entries saved for the origin of `origin`, in stored order.
    pub fn entries_for_origin(&self, origin: &str) -> (r: Vec<&VaultEntry>)
        ensures
            deref_all(r@) == matching_entries(self.state().entries@, origin@),
    {
        let o = origin_chars(chars_of(origin).as_slice());
        let mut r: Vec<&VaultEntry> = Vec::new();
        let mut i: usize = 0;
        while i < self.data.entries.len()
            invariant
                i <= self.data.entries@.len(),
                o@ == origin_of(origin@),
                deref_all(r@) == matching_entries(self.data.entries@.take(i as int), origin@),
            decreases self.data.entries@.len() - i,
        {
            let ghost es = self.data.entries@;
            assert(es.take(i + 1).drop_last() == es.take(i as int));
            let e = &self.data.entries[i];
            let eo = origin_chars(chars_of(e.origin.as_str()).as_slice());
            if chars_eq(eo.as_slice(), o.as_slice()) {
                let ghost before = r@;
                r.push(e);
                assert(deref_all(r@) =~= deref_all(before).push(*e));
            }
            i = i + 1;
        }
        assert(self.data.entries@.take(self.data.entries@.len() as int) == self.data.entries@);
        r
    }

    /// The first entry with this id.
    pub fn get(&self, id: &str) -> (r: Option<&VaultEntry>)
        ensures
            match index_of_id(self.state().entries@, id@) {
                Some(i) => r == Some(&self.state().entries@[i]),
                None => r is None,
            },
    {
        match find_id(&self.data.entries, id) {
            Some(i) => Some(&self.data.entries[i]),
            None => None,
        }
    }

    /// Stores `entry` stamped with `now`, taking `fresh_id` when it has no
    /// id: replaces the first entry with the same id, else appends.
    pub fn upsert_at(&mut self, entry: VaultEntry, now: i64, fresh_id: String)
        ensures
            ({
                let e = VaultEntry {
                    updated_at: now,
                    id: if entry.id@.len() == 0 {
                        fresh_id
                    } else {
                        entry.id
                    },
                    ..entry
                };
                final(self).state().entries@ == upserted(old(self).state().entries@, e)
            }),
            final(self).state().never_save == old(self).state().never_save,
            final(self).state().version == old(self).state().version,
            final(self).key_bytes() == old(self).key_bytes(),
    {
        let mut entry = entry;
        entry.updated_at = now;
        if entry.id.as_str().is_empty() {
            entry.id = fresh_id;
        }
        match find_id(&self.data.entries, entry.id.as_str()) {
            Some(i) => {
                self.data.entries.set(i, entry);
            },
            None => {
                self.data.entries.push(entry);
            },
        }
    }

    /// Stores `entry`, stamped with the current time and given a fresh
    /// random id when it has none (the caller then saves the vault).
    pub fn upsert(&mut self, entry: VaultEntry)
        ensures
            exists|e: VaultEntry|
                #![trigger upserted(old(self).state().entries@, e)]
                {
                    &&& final(self).state().entries@ == upserted(old(self).state().entries@, e)
                    &&& e.id@ == if entry.id@.len() == 0 {
                        e.id@
                    } else {
                        entry.id@
                    }
                    &&& entry.id@.len() == 0 ==> e.id@.len() == 32 && exists|bytes: Seq<u8>|
                        bytes.len() == 16 && e.id@ == #[trigger] hex_lower(bytes)
                    &&& e.updated_at >= 0
                    &&& e == VaultEntry { updated_at: e.updated_at, id: e.id, ..entry }
                },
            final(self).state().never_save == old(self).state().never_save,
            final(self).key_bytes() == old(self).key_bytes(),
    {
        let now = now_unix();
        let fresh = new_id();
        let ghost e = VaultEntry {
            updated_at: now,
            id: if entry.id@.len() == 0 {
                fresh
            } else {
                entry.id
            },
            ..entry
        };
        self.upsert_at(entry, now, fresh);
        assert(self.state().entries@ == upserted(old(self).state().entries@, e));
    }

    /// Forgets every entry with this id; `true` when one was removed (the
    /// caller then saves the vault).
    pub fn remove(&mut self, id: &str) -> (r: bool)
        ensures
            final(self).state().entries@ == without_id(old(self).state().entries@, id@),
            r == (without_id(old(self).state().entries@, id@).len() != old(self).state().entries@.len()),
            final(self).state().never_save == old(self).state().never_save,
            final(self).key_bytes() == old(self).key_bytes(),
    {
        let want = chars_of(id);
        let ghost orig = self.data.entries@;
        let before = self.data.entries.len();
        let mut i: usize = 0;
        let mut seen: usize = 0;
        while i < self.data.entries.len()
            invariant
                want@ == id@,
                orig.len() <= usize::MAX,
                seen <= orig.len(),
                i <= self.data.entries@.len(),
                self.data.entries@ == without_id(orig.take(seen as int), id@) + orig.skip(
                    seen as int,
                ),
                i == without_id(orig.take(seen as int), id@).len(),
                self.data.never_save == old(self).state().never_save,
                self.key == old(self).key,
            decreases self.data.entries@.len() - i,
        {
            let ghost w = without_id(orig.take(seen as int), id@);
            assert(self.data.entries@.len() == i + orig.len() - seen);
            assert(seen < orig.len());
            assert(orig.take(seen + 1).drop_last() == orig.take(seen as int));
            assert(self.data.entries@[i as int] == orig[seen as int]);
            let have = chars_of(self.data.entries[i].id.as_str());
            if chars_eq(have.as_slice(), want.as_slice()) {
                self.data.entries.remove(i);
                assert(self.data.entries@ =~= w + orig.skip(seen + 1));
            } else {
                i = i + 1;
                assert(self.data.entries@ =~= w.push(orig[seen as int]) + orig.skip(seen + 1));
            }
            seen = seen + 1;
        }
        proof {
            assert(seen == orig.len()) by {
                if seen < orig.len() {
                    assert(self.data.entries@.len() > i);
                }
            }
            assert(orig.take(orig.len() as int) == orig);
            assert(self.data.entries@ =~= without_id(orig, id@));
        }
        self.data.entries.len() != before
    }

    /// Whether saving is switched off for the origin of `origin`.
    pub fn is_never_save(&self, origin: &str) -> (r: bool)
        ensures
            r == never_save_has(self.state().never_save@, origin@),
    {
        let o = origin_chars(chars_of(origin).as_slice());
        let mut i: usize = 0;
        while i < self.data.never_save.len()
            invariant
                i <= self.data.never_save@.len(),
                o@ == origin_of(origin@),
                forall|k: int|
                    0 <= k < i ==> origin_of((#[trigger] self.data.never_save@[k])@) != origin_of(
                        origin@,
                    ),
            decreases self.data.never_save@.len() - i,
        {
            let n = origin_chars(chars_of(self.data.never_save[i].as_str()).as_slice());
            if chars_eq(n.as_slice(), o.as_slice()) {
                assert(string_views(self.data.never_save@)[i as int] == self.data.never_save@[i as int]@);
                assert(origin_of(string_views(self.data.never_save@)[i as int]) == origin_of(origin@));
                return true;
            }
            i = i + 1;
        }
        assert(forall|k: int|
            0 <= k < self.data.never_save@.len() ==> #[trigger] string_views(self.data.never_save@)[k]
                == self.data.never_save@[k]@);
        false
    }

    /// Adds the normalised origin unless its normal form is already
    /// covered; `true` when the list changed (the caller then saves the
    /// vault).
    pub fn add_never_save(&mut self, origin: &str) -> (r: bool)
        ensures
            r == !never_save_has(old(self).state().never_save@, origin_of(origin@)),
            string_views(final(self).state().never_save@) == never_save_added(
                string_views(old(self).state().never_save@),
                origin@,
            ),
            !r ==> final(self).state().never_save == old(self).state().never_save,
            final(self).state().entries == old(self).state().entries,
            final(self).key_bytes() == old(self).key_bytes(),
    {
        let normalized = normalize_origin(origin);
        if !self.is_never_save(normalized.as_str()) {
            let ghost before = self.data.never_save@;
            self.data.never_save.push(normalized);
            assert(string_views(self.data.never_save@) =~= string_views(before).push(
                origin_of(origin@),
            ));
            true
        } else {
            false
        }
    }

    /// Drops every stored origin that normalises like `origin` (the caller
    /// then saves the vault).
    pub fn remove_never_save(&mut self, origin: &str)
        ensures
            string_views(final(self).state().never_save@) == never_save_without(
                old(self).state().never_save@,
                origin@,
            ),
            final(self).state().entries == old(self).state().entries,
            final(self).key_bytes() == old(self).key_bytes(),
    {
        let o = origin_chars(chars_of(origin).as_slice());
        let ghost orig = self.data.never_save@;
        let n0 = self.data.never_save.len();
        assert(orig.len() == n0);
        let mut i: usize = 0;
        let mut seen: usize = 0;
        while i < self.data.never_save.len()
            invariant
                o@ == origin_of(origin@),
                orig.len() <= usize::MAX,
                seen <= orig.len(),
                i <= self.data.never_save@.len(),
                string_views(self.data.never_save@) == never_save_without(
                    orig.take(seen as int),
                    origin@,
                ) + string_views(orig.skip(seen as int)),
                i == never_save_without(orig.take(seen as int), origin@).len(),
                self.data.entries == old(self).state().entries,
                self.key == old(self).key,
            decreases self.data.never_save@.len() - i,
        {
            let ghost w = never_save_without(orig.take(seen as int), origin@);
            let ghost old_ns = self.data.never_save@;
            assert(string_views(old_ns).len() == old_ns.len());
            assert(old_ns.len() == i + orig.len() - seen);
            assert(seen < orig.len());
            assert(orig.take(seen + 1).drop_last() == orig.take(seen as int));
            assert(string_views(orig.skip(seen as int))[0] == orig[seen as int]@);
            assert(string_views(self.data.never_save@)[i as int] == orig[seen as int]@);
            let n = origin_chars(chars_of(self.data.never_save[i].as_str()).as_slice());
            if chars_eq(n.as_slice(), o.as_slice()) {
                self.data.never_save.remove(i);
                assert(self.data.never_save@ == old_ns.remove(i as int));
                assert(string_views(old_ns.remove(i as int)) =~= string_views(old_ns).remove(
                    i as int,
                ));
                assert(string_views(orig.skip(seen as int)).drop_first() =~= string_views(
                    orig.skip(seen + 1),
                ));
                assert((w + string_views(orig.skip(seen as int))).remove(i as int) =~= w
                    + string_views(orig.skip(seen as int)).drop_first());
                assert(string_views(self.data.never_save@) =~= w + string_views(
                    orig.skip(seen + 1),
                ));
            } else {
                i = i + 1;
                assert(string_views(self.data.never_save@) =~= w.push(orig[seen as int]@)
                    + string_views(orig.skip(seen + 1)));
            }
            seen = seen + 1;
        }
        proof {
            assert(seen == orig.len()) by {
                if seen < orig.len() {
                    assert(string_views(self.data.never_save@).len() > i);
                }
            }
            assert(orig.take(orig.len() as int) == orig);
            assert(string_views(orig.skip(orig.len() as int)) =~= Seq::<Seq<char>>::empty());
            assert(string_views(self.data.never_save@) =~= never_save_without(orig, origin@));
        }
    }
}

/// Creates a new empty vault keyed from `password` with a fresh random
/// salt; the caller seals and writes it. Returns the session and the salt.
pub fn create(password: &str) -> (r: Result<(VaultSession, Vec<u8>), VaultError>)
    ensures
        match r {
            Ok((s, salt)) => {
                &&& salt@.len() == 16
                &&& argon2id_key(password.spec_bytes(), salt@) == Some(s.key_bytes())
                &&& s.wf()
                &&& s.state().version == 1
                &&& s.state().entries@.len() == 0
                &&& s.state().never_save@.len() == 0
            },
            Err(e) => is_corrupt(e, "argon2 failed"@),
        },
        r is Ok <==> password.spec_bytes().len() <= 0xFFFF_FFFF,
{
    let salt = random_bytes(16);
    let pw = crate::text::bytes_of(password);
    match argon2_derive(pw.as_slice(), salt.as_slice()) {
        Some(key) => {
            let data = VaultData { version: 1, entries: Vec::new(), never_save: Vec::new() };
            Ok((VaultSession::from_parts(key_from_bytes(key), data), salt))
        },
        None => Err(VaultError::Corrupt("argon2 failed")),
    }
}

/// What opening `file` with `password` gives: the file's framing error;
/// else an argon2 failure; else, under the derived key, the decrypted
/// plaintext or a wrong-password error, and for a file sealed from some
/// plaintext under that key, exactly that plaintext.
pub open spec fn opened_as(
    password: Seq<u8>,
    file: Seq<u8>,
    r: Result<(KeyMaterial, Vec<u8>), VaultError>,
) -> bool {
    match parsed_file(file) {
        Err(msg) => r matches Err(e) && is_corrupt(e, msg),
        Ok((salt, nonce, ct)) => match argon2id_key(password, salt) {
            None => r matches Err(e) && is_corrupt(e, "argon2 failed"@),
            Some(k) => {
                &&& match aes_gcm_open(k, nonce, ct) {
                    None => r matches Err(VaultError::BadPassword),
                    Some(p) => r matches Ok((rk, rp)) && key_material_bytes(rk) == k && rp@ == p,
                }
                &&& forall|p: Seq<u8>|
                    aes_gcm_seal(k, nonce, p) == Some(ct) ==> (r matches Ok((rk, rp)) && key_material_bytes(
                        rk,
                    ) == k && rp@ == p)
            },
        },
    }
}

/// What sealing `plain` under `key` and `salt` gives: the vault file of the
/// salt, a 12-byte nonce and the ciphertext of `plain` under that nonce,
/// or an encryption error.
pub open spec fn sealed_as(key: Seq<u8>, salt: Seq<u8>, plain: Seq<u8>, r: Result<Vec<u8>, VaultError>) -> bool {
    match r {
        Ok(f) => exists|nonce: Seq<u8>, ct: Seq<u8>|
            #![trigger aes_gcm_seal(key, nonce, plain), sealed_file(salt, nonce, ct)]
            nonce.len() == 12 && aes_gcm_seal(key, nonce, plain) == Some(ct) && ct.len() == plain.len()
                + 16 && f@ == sealed_file(salt, nonce, ct),
        Err(e) => is_corrupt(e, "encrypt failed"@),
    }
}

/// A vault sealed under the key a password derives opens, with that
/// password, to the key and exactly the plaintext that was sealed.
pub proof fn law_seal_then_open(
    password: Seq<u8>,
    salt: Seq<u8>,
    key: Seq<u8>,
    plain: Seq<u8>,
    file: Vec<u8>,
    opened: Result<(KeyMaterial, Vec<u8>), VaultError>,
)
    requires
        salt.len() == 16,
        argon2id_key(password, salt) == Some(key),
        sealed_as(key, salt, plain, Ok(file)),
        opened_as(password, file@, opened),
    ensures
        opened matches Ok((k, p)) && key_material_bytes(k) == key && p@ == plain,
{
    let (nonce, ct) = choose|nonce: Seq<u8>, ct: Seq<u8>|
        #![trigger aes_gcm_seal(key, nonce, plain), sealed_file(salt, nonce, ct)]
        nonce.len() == 12 && aes_gcm_seal(key, nonce, plain) == Some(ct) && ct.len() == plain.len()
            + 16 && file@ == sealed_file(salt, nonce, ct);
    law_parse_frame(salt, nonce, ct);
}

/// Opens a sealed vault file with `password`: the key (zeroed when
/// dropped) and the decrypted
/// plaintext (the vault's JSON), or why it cannot be opened. A file sealed
/// from a plaintext under the key this password and salt derive opens to
/// that plaintext.
pub fn open_sealed(password: &str, file: &[u8]) -> (r: Result<
    (KeyMaterial, Vec<u8>),
    VaultError,
>)
    ensures
        opened_as(password.spec_bytes(), file@, r),
        password.spec_bytes().len() <= 0xFFFF_FFFF ==> !(r matches Err(e) && is_corrupt(
            e,
            "argon2 failed"@,
        )),
{
    proof {
        reveal_strlit("argon2 failed");
        reveal_strlit("too short");
        reveal_strlit("bad magic");
        reveal_strlit("unsupported version");
        assert("too short"@.len() != "argon2 failed"@.len());
        assert("bad magic"@.len() != "argon2 failed"@.len());
        assert("unsupported version"@.len() != "argon2 failed"@.len());
    }
    let (salt, nonce, ct) = match parse_sealed(file) {
        Ok(parts) => parts,
        Err(e) => return Err(e),
    };
    let pw = crate::text::bytes_of(password);
    let key = match argon2_derive(pw.as_slice(), salt.as_slice()) {
        Some(k) => key_from_bytes(k),
        None => return Err(VaultError::Corrupt("argon2 failed")),
    };
    match aes_decrypt(key_slice(&key), nonce.as_slice(), ct.as_slice()) {
        Some(plain) => Ok((key, plain)),
        None => Err(VaultError::BadPassword),
    }
}

impl VaultSession {
    /// Seals `plain` (the vault's JSON) under this session's key, `salt`
    /// and a fresh random nonce, laid out as a vault file.
    pub fn seal_with_salt(&self, salt: &[u8], plain: &[u8]) -> (r: Result<Vec<u8>, VaultError>)
        requires
            self.wf(),
            salt@.len() == 16,
        ensures
            sealed_as(self.key_bytes(), salt@, plain@, r),
            r is Ok <==> plain@.len() <= 0x10_0000_0000,
    {
        let nonce = random_bytes(12);
        match aes_encrypt(key_slice(&self.key), nonce.as_slice(), plain) {
            Some(ct) => {
                let f = frame_sealed(salt, nonce.as_slice(), ct.as_slice());
                assert(aes_gcm_seal(self.key_bytes(), nonce@, plain@) == Some(ct@));
                Ok(f)
            },
            None => Err(VaultError::Corrupt("encrypt failed")),
        }
    }
}

/// Password generator: `length` clamped to 8..=128, each character drawn
/// from the unambiguous alphanumerics (plus `!@#$%^&*-_=+?` with `symbols`).
pub open spec fn password_alphabet(symbols: bool) -> Seq<char> {
    if symbols {
        "abcdefghijkmnopqrstuvwxyzABCDEFGHJKLMNPQRSTUVWXYZ23456789"@ + "!@#$%^&*-_=+?"@
    } else {
        "abcdefghijkmnopqrstuvwxyzABCDEFGHJKLMNPQRSTUVWXYZ23456789"@
    }
}

pub open spec fn clamp_len(length: usize) -> int {
    if length < 8 {
        8
    } else if length > 128 {
        128
    } else {
        length as int
    }
}

/// A random password of `clamp(length, 8, 128)` characters of the alphabet.
pub fn generate_password(length: usize, symbols: bool) -> (r: String)
    ensures
        r@.len() == clamp_len(length),
        forall|k: int| 0 <= k < r@.len() ==> password_alphabet(symbols).contains(#[trigger] r@[k]),
{
    let mut alphabet = chars_of("abcdefghijkmnopqrstuvwxyzABCDEFGHJKLMNPQRSTUVWXYZ23456789");
    if symbols {
        push_str(&mut alphabet, "!@#$%^&*-_=+?");
    }
    proof {
        reveal_strlit("abcdefghijkmnopqrstuvwxyzABCDEFGHJKLMNPQRSTUVWXYZ23456789");
    }
    assert(alphabet@ == password_alphabet(symbols));
    assert(alphabet@.len() >= 57);
    let len: usize = if length < 8 {
        8
    } else if length > 128 {
        128
    } else {
        length
    };
    let bytes = random_bytes(len);
    let mut out: Vec<char> = Vec::new();
    let mut i: usize = 0;
    while i < len
        invariant
            i <= len,
            bytes@.len() == len,
            alphabet@ == password_alphabet(symbols),
            alphabet@.len() >= 57,
            out@.len() == i,
            forall|k: int| 0 <= k < i ==> password_alphabet(symbols).contains(#[trigger] out@[k]),
        decreases len - i,
    {
        let idx = (bytes[i] as usize) % alphabet.len();
        let c = alphabet[idx];
        assert(password_alphabet(symbols)[idx as int] == c);
        out.push(c);
        i = i + 1;
    }
    string_of(out.as_slice())
}

proof fn lemma_index_of_id_update(entries: Seq<VaultEntry>, e: VaultEntry)
    ensures
        ({
            let u = upserted(entries, e);
            match index_of_id(u, e.id@) {
                Some(i) => u[i] == e,
                None => false,
            }
        }),
{
    lemma_index_of_id_props(entries, e.id@);
    let u = upserted(entries, e);
    lemma_index_of_id_props(u, e.id@);
    match index_of_id(entries, e.id@) {
        Some(i) => {
            assert(u[i] == e);
            assert(forall|k: int| 0 <= k < i ==> (#[trigger] u[k]) == entries[k]);
            assert(index_of_id(u, e.id@) == Some(i)) by {
                if index_of_id(u, e.id@) != Some(i) {
                    match index_of_id(u, e.id@) {
                        Some(j) => {
                            if j < i {
                                assert(u[j] == entries[j]);
                            }
                        },
                        None => {},
                    }
                }
            }
        },
        None => {
            let n = entries.len() as int;
            assert(u[n] == e);
            assert(forall|k: int| 0 <= k < n ==> (#[trigger] u[k]) == entries[k]);
            assert(index_of_id(u, e.id@) == Some(n)) by {
                match index_of_id(u, e.id@) {
                    Some(j) => {
                        if j < n {
                            assert(u[j] == entries[j]);
                        }
                    },
                    None => {},
                }
            }
        },
    }
}

/// A read gives back the last write: after storing `e`, looking up its id
/// finds exactly `e`.
pub proof fn law_get_after_upsert(entries: Seq<VaultEntry>, e: VaultEntry)
    ensures
        index_of_id(upserted(entries, e), e.id@) matches Some(i) && upserted(entries, e)[i] == e,
{
    lemma_index_of_id_update(entries, e);
}

proof fn lemma_without_id_lacks(entries: Seq<VaultEntry>, id: Seq<char>)
    ensures
        forall|k: int|
            0 <= k < without_id(entries, id).len() ==> (#[trigger] without_id(entries, id)[k]).id@
                != id,
    decreases entries.len(),
{
    if entries.len() > 0 {
        lemma_without_id_lacks(entries.drop_last(), id);
        let prev = without_id(entries.drop_last(), id);
        if entries.last().id@ != id {
            assert(forall|k: int| 0 <= k < prev.len() ==> prev.push(entries.last())[k] == prev[k]);
        }
    }
}

/// After removing an id, looking it up finds nothing.
pub proof fn law_get_after_remove(entries: Seq<VaultEntry>, id: Seq<char>)
    ensures
        index_of_id(without_id(entries, id), id) is None,
{
    lemma_without_id_lacks(entries, id);
    lemma_index_of_id_props(without_id(entries, id), id);
}

proof fn lemma_never_save_without_lacks(never: Seq<String>, origin: Seq<char>)
    ensures
        !covers(never_save_without(never, origin), origin),
    decreases never.len(),
{
    if never.len() > 0 {
        lemma_never_save_without_lacks(never.drop_last(), origin);
        let prev = never_save_without(never.drop_last(), origin);
        if origin_of(never.last()@) != origin_of(origin) {
            let next = prev.push(never.last()@);
            assert forall|i: int| 0 <= i < next.len() implies origin_of(#[trigger] next[i])
                != origin_of(origin) by {
                if i < prev.len() {
                    assert(next[i] == prev[i]);
                }
            }
        }
    }
}

/// After a never-save origin is removed, it no longer counts as never-save.
pub proof fn law_never_save_after_remove(never: Seq<String>, origin: Seq<char>)
    ensures
        !covers(never_save_without(never, origin), origin),
{
    lemma_never_save_without_lacks(never, origin);
}

/// Normalising is stable on `u` when the host it keeps neither ends in
/// whitespace nor still ends in the scheme's default port.
pub open spec fn origin_stable(u: Seq<char>) -> bool {
    let (scheme, host) = origin_parts(u);
    &&& (host.len() == 0 || !is_ws(host.last()))
    &&& drop_default_port(scheme, host) == host
}

pub proof fn lemma_trim_start_props(x: Seq<char>)
    ensures
        trim_start(x).len() > 0 ==> !is_ws(trim_start(x)[0]),
        x.len() > 0 && !is_ws(x[0]) ==> trim_start(x) == x,
    decreases x.len(),
{
    if x.len() > 0 && is_ws(x[0]) {
        lemma_trim_start_props(x.drop_first());
    }
}

pub proof fn lemma_trim_end_props(y: Seq<char>)
    ensures
        trim_end(y).len() <= y.len(),
        trim_end(y) == y.take(trim_end(y).len() as int),
        trim_end(y).len() > 0 ==> !is_ws(trim_end(y).last()),
        y.len() > 0 && !is_ws(y.last()) ==> trim_end(y) == y,
    decreases y.len(),
{
    if y.len() > 0 && is_ws(y.last()) {
        lemma_trim_end_props(y.drop_last());
        let t = trim_end(y.drop_last());
        assert(y.drop_last().take(t.len() as int) == y.take(t.len() as int));
    } else {
        assert(y.take(y.len() as int) == y);
    }
}

proof fn lemma_trim_ends(u: Seq<char>)
    ensures
        trim(u).len() > 0 ==> !is_ws(trim(u)[0]) && !is_ws(trim(u).last()),
{
    lemma_trim_start_props(u);
    lemma_trim_end_props(trim_start(u));
    let a = trim_start(u);
    if trim(u).len() > 0 {
        assert(trim(u)[0] == a.take(trim(u).len() as int)[0]);
    }
}

pub proof fn lemma_trim_stable(x: Seq<char>)
    requires
        x.len() > 0,
        !is_ws(x[0]),
        !is_ws(x.last()),
    ensures
        trim(x) == x,
{
    lemma_trim_start_props(x);
    lemma_trim_end_props(x);
}

proof fn lemma_find_from_first(s: Seq<char>, p: Seq<char>, i: int, j: int)
    requires
        0 <= i <= j,
        occurs_at(s, p, j),
        forall|k: int| i <= k < j ==> !occurs_at(s, p, k),
    ensures
        find_from(s, p, i) == Some(j),
    decreases j - i,
{
    if i < j {
        assert(!occurs_at(s, p, i));
        lemma_find_from_first(s, p, i + 1, j);
    }
}

proof fn lemma_lower_twice(c: char)
    ensures
        lower(lower(c)) == lower(c),
        url_stops().contains(lower(c)) == url_stops().contains(c),
{
    if 'A' <= c && c <= 'Z' {
        assert(lower(c) as u32 == c as u32 + 32);
    }
    assert(url_stops() == seq!['/', '?', '#']);
}

/// What origin parsing keeps of a host after lower-casing: no stop
/// character, already lower case.
proof fn lemma_host_clean(scheme: Seq<char>, rest: Seq<char>)
    ensures
        ({
            let h = drop_default_port(scheme, to_lower(before_any(rest, url_stops())));
            &&& before_any(h, url_stops()) == h
            &&& to_lower(h) == h
        }),
{
    let b = before_any(rest, url_stops());
    lemma_find_any_props(rest, url_stops());
    assert(forall|k: int| 0 <= k < b.len() ==> !url_stops().contains(#[trigger] b[k])) by {
        match find_any(rest, url_stops()) {
            Some(i) => {
                assert forall|k: int| 0 <= k < b.len() implies !url_stops().contains(
                    #[trigger] b[k],
                ) by {
                    assert(b[k] == rest[k]);
                }
            },
            None => {},
        }
    }
    let l = to_lower(b);
    assert forall|k: int| 0 <= k < l.len() implies !url_stops().contains(#[trigger] l[k])
        && lower(l[k]) == l[k] by {
        lemma_lower_twice(b[k]);
    }
    let h = drop_default_port(scheme, l);
    assert(forall|k: int| 0 <= k < h.len() ==> #[trigger] h[k] == l[k]);
    lemma_find_any_props(h, url_stops());
    assert(find_any(h, url_stops()) is None);
    assert(to_lower(h) =~= h);
}

/// Normalising an origin a second time changes nothing, unless the host it
/// keeps ends in whitespace (`"https://a.com /"`) or still ends in the
/// default port (`"https://a.com:443:443"`).
pub proof fn law_origin_idempotent(u: Seq<char>)
    requires
        origin_stable(u),
    ensures
        origin_of(origin_of(u)) == origin_of(u),
{
    reveal_strlit("://");
    reveal_strlit("https");
    let s = trim(u);
    let (scheme, host) = origin_parts(u);
    let o = origin_of(u);
    let sep = "://"@;
    lemma_trim_ends(u);
    lemma_find_from_props(s, sep, 0);
    match split_once_seq(s, sep) {
        Some((sc, rest)) => {
            let i = find_from(s, sep, 0)->0;
            lemma_host_clean(sc, rest);
            assert(o.take(i + 3) =~= s.take(i + 3));
            assert forall|k: int| 0 <= k < i implies !occurs_at(o, sep, k) by {
                assert(o.subrange(k, k + 3) =~= o.take(i + 3).subrange(k, k + 3));
                assert(s.subrange(k, k + 3) =~= s.take(i + 3).subrange(k, k + 3));
                assert(!occurs_at(s, sep, k));
            }
            assert(o.subrange(i, i + 3) =~= sep);
            lemma_find_from_first(o, sep, 0, i);
            assert(o.take(i) =~= sc);
            assert(o.skip(i + 3) =~= host);
            if i > 0 {
                assert(o[0] == s[0]);
            }
        },
        None => {
            lemma_host_clean("https"@, s);
            assert forall|k: int| 0 <= k < 5 implies !occurs_at(o, sep, k) by {
                assert(o[k] == "https"@[k]);
                assert(o.subrange(k, k + 3)[0] == o[k]);
            }
            assert(o.subrange(5, 8) =~= sep);
            lemma_find_from_first(o, sep, 0, 5);
            assert(o.take(5) =~= "https"@);
            assert(o.skip(8) =~= host);
        },
    }
    if host.len() > 0 {
        assert(o.last() == host.last());
    }
    lemma_trim_stable(o);
}

/// Adding a never-save origin twice is adding it once; afterwards its
/// normal form counts as never-save, and so does the origin itself
/// whenever normalising is stable on it.
pub proof fn law_never_save_add_twice(never: Seq<Seq<char>>, origin: Seq<char>)
    ensures
        never_save_added(never_save_added(never, origin), origin) == never_save_added(never, origin),
        covers(never_save_added(never, origin), origin_of(origin)),
        origin_stable(origin) ==> covers(never_save_added(never, origin), origin),
{
    let next = never_save_added(never, origin);
    let n = origin_of(origin);
    if covers(never, n) {
        let i = choose|i: int| 0 <= i < never.len() && origin_of(#[trigger] never[i]) == origin_of(n);
        if origin_stable(origin) {
            law_origin_idempotent(origin);
            assert(origin_of(never[i]) == origin_of(origin));
        }
    } else {
        assert(next[never.len() as int] == n);
        if origin_stable(origin) {
            law_origin_idempotent(origin);
        }
    }
}

/// Seconds since the Unix epoch (0 when the clock is before it), from
/// `SystemTime::now` and `duration_since(UNIX_EPOCH)`. Never negative: a
/// `SystemTime` holds its seconds in an `i64`, so the whole seconds since
/// the epoch fit in one. Which time it is, is not stated.
#[verifier::external_body]
pub fn now_unix() -> (r: i64)
    ensures
        r >= 0,
{
    match std::time::SystemTime::now().duration_since(std::time::UNIX_EPOCH) {
        Ok(d) => d.as_secs() as i64,
        Err(_) => 0,
    }
}

/// Two lower-case hex digits per byte.
pub open spec fn hex_lower(bytes: Seq<u8>) -> Seq<char>
    decreases bytes.len(),
{
    if bytes.len() == 0 {
        Seq::empty()
    } else {
        hex_lower(bytes.drop_last()) + seq![
            crate::text::hex_digit_lower_spec(bytes.last() / 16),
            crate::text::hex_digit_lower_spec(bytes.last() % 16),
        ]
    }
}

proof fn lemma_hex_lower_len(bytes: Seq<u8>)
    ensures
        hex_lower(bytes).len() == 2 * bytes.len(),
    decreases bytes.len(),
{
    if bytes.len() > 0 {
        lemma_hex_lower_len(bytes.drop_last());
    }
}

/// A fresh random id: 16 random bytes as 32 lower-case hex digits.
pub fn new_id() -> (r: String)
    ensures
        exists|bytes: Seq<u8>| bytes.len() == 16 && r@ == #[trigger] hex_lower(bytes),
        r@.len() == 32,
{
    let bytes = crate::vault_crypto::random_bytes(16);
    let mut out: Vec<char> = Vec::new();
    let mut i: usize = 0;
    while i < bytes.len()
        invariant
            i <= bytes@.len(),
            bytes@.len() == 16,
            out@ == hex_lower(bytes@.take(i as int)),
        decreases bytes@.len() - i,
    {
        assert(bytes@.take(i + 1).drop_last() == bytes@.take(i as int));
        let b = bytes[i];
        out.push(crate::text::hex_digit_lower(b / 16));
        out.push(crate::text::hex_digit_lower(b % 16));
        i = i + 1;
    }
    assert(bytes@.take(16) == bytes@);
    proof {
        lemma_hex_lower_len(bytes@);
    }
    string_of(out.as_slice())
}

impl VaultSession {
    /// Merges `entries` keyed by (site, username), stamping changes with
    /// `now`; `ids[k]` names the k-th entry when it is added without an id.
    pub fn import_entries_at(&mut self, entries: Vec<VaultEntry>, now: i64, ids: Vec<String>) -> (r:
        crate::vault_csv::ImportStats)
        requires
            ids@.len() == entries@.len(),
        ensures
            crate::vault_csv::imported_as(
                entry_views(old(self).state().entries@),
                entry_views(entries@),
                now,
                crate::vault::string_views(ids@),
                entry_views(final(self).state().entries@),
                r,
            ),
            final(self).state().never_save == old(self).state().never_save,
            final(self).state().version == old(self).state().version,
            final(self).key_bytes() == old(self).key_bytes(),
    {
        crate::vault_csv::merge_entries(&mut self.data, &entries, now, &ids)
    }

    /// Merges `entries` keyed by (site, username) at the current time,
    /// giving each added entry without an id a fresh random 32-hex-digit
    /// id. The caller saves the vault when something was added or updated.
    pub fn import_entries(&mut self, entries: Vec<VaultEntry>) -> (r: crate::vault_csv::ImportStats)
        ensures
            exists|now: i64, ids: Seq<Seq<char>>|
                {
                    &&& ids.len() == entries@.len()
                    &&& forall|k: int| 0 <= k < ids.len() ==> (#[trigger] ids[k]).len() == 32
                    &&& #[trigger] crate::vault_csv::imported_as(
                        entry_views(old(self).state().entries@),
                        entry_views(entries@),
                        now,
                        ids,
                        entry_views(final(self).state().entries@),
                        r,
                    )
                },
            final(self).state().never_save == old(self).state().never_save,
            final(self).state().version == old(self).state().version,
            final(self).key_bytes() == old(self).key_bytes(),
    {
        let now = crate::vault::now_unix();
        let mut ids: Vec<String> = Vec::new();
        let mut k: usize = 0;
        while k < entries.len()
            invariant
                k <= entries@.len(),
                ids@.len() == k,
                forall|j: int| 0 <= j < k ==> (#[trigger] ids@[j])@.len() == 32,
            decreases entries@.len() - k,
        {
            ids.push(crate::vault::new_id());
            k = k + 1;
        }
        let ghost idv = crate::vault::string_views(ids@);
        let r = self.import_entries_at(entries, now, ids);
        assert(forall|k: int| 0 <= k < idv.len() ==> (#[trigger] idv[k]).len() == 32);
        r
    }
}

} // verus!
