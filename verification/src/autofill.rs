//! Password autofill decisions: whether a submitted login is offered for
//! saving, and the script calls that fill a form, show the account picker
//! or show the save banner. Running the scripts in a page is left to the
//! caller.

use vstd::prelude::*;
use vstd::string::StringSliceAdditionalSpecFns;
use crate::text::{chars_of, chars_eq_str, push_str, string_of, join};
use crate::json::{json_quoted, json_string};
use crate::vault::{VaultEntry, VaultSession, matching_entries, never_save_has, opt_view};

verus! {

/// A login offered for saving, kept until the page after the submit loads.
pub struct PendingSaveOffer {
    pub origin: String,
    pub username: String,
    pub password: String,
    /// Id of the saved entry this would update, or empty for a new one.
    pub id: String,
}

/// `serde_json::to_string(..).unwrap_or_default()` on a string.
pub open spec fn json_or_nothing(s: Seq<char>) -> Seq<char> {
    json_quoted(s)
}

fn json_text(s: &str) -> (r: String)
    ensures
        r@ == json_or_nothing(s@),
{
    match json_string(s) {
        Some(v) => v,
        None => String::new(),
    }
}

/// The first of `es` with this username.
pub open spec fn first_with_username(es: Seq<VaultEntry>, username: Seq<char>) -> Option<VaultEntry>
    decreases es.len(),
{
    if es.len() == 0 {
        None
    } else {
        match first_with_username(es.drop_last(), username) {
            Some(e) => Some(e),
            None => if es.last().username@ == username {
                Some(es.last())
            } else {
                None
            },
        }
    }
}

/// Whether a submitted login is offered for saving: not without an origin
/// or a password, not for a never-save origin, and not when the entry for
/// that site and username already has this password. The offer updates
/// that entry (by id) when there is one.
pub open spec fn offer_for(
    entries: Seq<VaultEntry>,
    never: Seq<String>,
    origin: Seq<char>,
    username: Seq<char>,
    password: Seq<char>,
) -> Option<(Seq<char>, Seq<char>, Seq<char>, Seq<char>)> {
    if origin.len() == 0 || password.len() == 0 || never_save_has(never, origin) {
        None
    } else {
        match first_with_username(matching_entries(entries, origin), username) {
            Some(e) => if e.password@ == password {
                None
            } else {
                Some((origin, username, password, e.id@))
            },
            None => Some((origin, username, password, Seq::empty())),
        }
    }
}

/// Decides whether to offer saving a submitted login.
pub fn save_offer(vault: &VaultSession, origin: &str, username: &str, password: &str) -> (r: Option<
    PendingSaveOffer,
>)
    ensures
        match offer_for(
            vault.state().entries@,
            vault.state().never_save@,
            origin@,
            username@,
            password@,
        ) {
            Some((o, u, p, id)) => r matches Some(x) && x.origin@ == o && x.username@ == u
                && x.password@ == p && x.id@ == id,
            None => r is None,
        },
{
    if origin.is_empty() || password.is_empty() || vault.is_never_save(origin) {
        return None;
    }
    let existing = vault.entries_for_origin(origin);
    let ghost es = crate::vault::deref_all(existing@);
    let mut found: Option<&VaultEntry> = None;
    let mut i: usize = 0;
    assert(es.take(0) =~= Seq::<VaultEntry>::empty());
    while i < existing.len()
        invariant
            es == crate::vault::deref_all(existing@),
            i <= existing@.len(),
            match found {
                Some(e) => first_with_username(es.take(i as int), username@) == Some(*e),
                None => first_with_username(es.take(i as int), username@) is None,
            },
        decreases existing@.len() - i,
    {
        assert(es.take(i + 1).drop_last() == es.take(i as int));
        assert(es.take(i + 1).last() == *existing@[i as int]);
        if found.is_none() {
            let u = chars_of(existing[i].username.as_str());
            if chars_eq_str(u.as_slice(), username) {
                found = Some(existing[i]);
            }
        }
        i = i + 1;
    }
    assert(es.take(es.len() as int) == es);
    match found {
        Some(e) => {
            let p = chars_of(e.password.as_str());
            if chars_eq_str(p.as_slice(), password) {
                return None;
            }
            Some(
                PendingSaveOffer {
                    origin: origin.to_string(),
                    username: username.to_string(),
                    password: password.to_string(),
                    id: e.id.clone(),
                },
            )
        },
        None => Some(
            PendingSaveOffer {
                origin: origin.to_string(),
                username: username.to_string(),
                password: password.to_string(),
                id: String::new(),
            },
        ),
    }
}

/// The call that shows the save banner for an offer.
pub open spec fn save_banner_call(o: Seq<char>, u: Seq<char>, p: Seq<char>, id: Seq<char>) -> Seq<char> {
    "window.__spatialAutofillShowSave && window.__spatialAutofillShowSave({origin:"@
        + json_or_nothing(o) + ",username:"@ + json_or_nothing(u) + ",password:"@ + json_or_nothing(p)
        + ",id:"@ + json_or_nothing(id) + "});"@
}

pub fn save_banner_js(offer: &PendingSaveOffer) -> (r: String)
    ensures
        r@ == save_banner_call(offer.origin@, offer.username@, offer.password@, offer.id@),
{
    let mut out: Vec<char> = Vec::new();
    push_str(&mut out, "window.__spatialAutofillShowSave && window.__spatialAutofillShowSave({origin:");
    push_str(&mut out, json_text(offer.origin.as_str()).as_str());
    push_str(&mut out, ",username:");
    push_str(&mut out, json_text(offer.username.as_str()).as_str());
    push_str(&mut out, ",password:");
    push_str(&mut out, json_text(offer.password.as_str()).as_str());
    push_str(&mut out, ",id:");
    push_str(&mut out, json_text(offer.id.as_str()).as_str());
    push_str(&mut out, "});");
    string_of(out.as_slice())
}

/// A JSON value for an optional string: `null` or its literal.
pub open spec fn json_opt(o: Option<Seq<char>>) -> Seq<char> {
    match o {
        Some(s) => json_quoted(s),
        None => "null"@,
    }
}

fn json_opt_text(o: &Option<String>) -> (r: String)
    ensures
        r@ == json_opt(opt_view(*o)),
{
    match o {
        Some(s) => json_text(s.as_str()),
        None => String::from_str("null"),
    }
}

/// The object a fill call gets: the entry's login and address fields,
/// keys in sorted order as `serde_json`'s map writes them.
pub open spec fn fill_object(e: VaultEntry) -> Seq<char> {
    "{\"address_line1\":"@ + json_opt(opt_view(e.address_line1)) + ",\"city\":"@ + json_opt(
        opt_view(e.city),
    ) + ",\"country\":"@ + json_opt(opt_view(e.country)) + ",\"email\":"@ + json_opt(
        opt_view(e.email),
    ) + ",\"password\":"@ + json_quoted(e.password@) + ",\"postal_code\":"@ + json_opt(
        opt_view(e.postal_code),
    ) + ",\"username\":"@ + json_quoted(e.username@) + "}"@
}

/// The call that fills a login form with an entry.
pub open spec fn fill_call(e: VaultEntry) -> Seq<char> {
    "window.__spatialAutofillFill && window.__spatialAutofillFill("@ + fill_object(e) + ");"@
}

pub fn fill_entry_js(entry: &VaultEntry) -> (r: String)
    ensures
        r@ == fill_call(*entry),
{
    let mut out: Vec<char> = Vec::new();
    push_str(&mut out, "window.__spatialAutofillFill && window.__spatialAutofillFill(");
    push_str(&mut out, "{\"address_line1\":");
    push_str(&mut out, json_opt_text(&entry.address_line1).as_str());
    push_str(&mut out, ",\"city\":");
    push_str(&mut out, json_opt_text(&entry.city).as_str());
    push_str(&mut out, ",\"country\":");
    push_str(&mut out, json_opt_text(&entry.country).as_str());
    push_str(&mut out, ",\"email\":");
    push_str(&mut out, json_opt_text(&entry.email).as_str());
    push_str(&mut out, ",\"password\":");
    push_str(&mut out, json_text(entry.password.as_str()).as_str());
    push_str(&mut out, ",\"postal_code\":");
    push_str(&mut out, json_opt_text(&entry.postal_code).as_str());
    push_str(&mut out, ",\"username\":");
    push_str(&mut out, json_text(entry.username.as_str()).as_str());
    push_str(&mut out, "}");
    push_str(&mut out, ");");
    string_of(out.as_slice())
}

/// One picker item: `{id:..,username:..}`.
pub open spec fn picker_item(e: VaultEntry) -> Seq<char> {
    "{id:"@ + json_or_nothing(e.id@) + ",username:"@ + json_or_nothing(e.username@) + "}"@
}

/// The call that shows the account picker for several entries.
pub open spec fn picker_call(es: Seq<VaultEntry>) -> Seq<char> {
    "window.__spatialAutofillShowPicker && window.__spatialAutofillShowPicker(["@ + join(
        es.map_values(|e: VaultEntry| picker_item(e)),
        ","@,
    ) + "]);"@
}

fn picker_item_text(e: &VaultEntry) -> (r: Vec<char>)
    ensures
        r@ == picker_item(*e),
{
    let mut out: Vec<char> = Vec::new();
    push_str(&mut out, "{id:");
    push_str(&mut out, json_text(e.id.as_str()).as_str());
    push_str(&mut out, ",username:");
    push_str(&mut out, json_text(e.username.as_str()).as_str());
    push_str(&mut out, "}");
    out
}

/// What answers a fill request for the entries saved for a page: nothing
/// for none, a fill for one, the picker for several.
pub open spec fn fill_response(es: Seq<VaultEntry>) -> Option<Seq<char>> {
    if es.len() == 0 {
        None
    } else if es.len() == 1 {
        Some(fill_call(es[0]))
    } else {
        Some(picker_call(es))
    }
}

pub fn fill_response_js(matches: &Vec<&VaultEntry>) -> (r: Option<String>)
    ensures
        match fill_response(crate::vault::deref_all(matches@)) {
            Some(js) => r matches Some(s) && s@ == js,
            None => r is None,
        },
{
    let ghost es = crate::vault::deref_all(matches@);
    if matches.len() == 0 {
        return None;
    }
    if matches.len() == 1 {
        return Some(fill_entry_js(matches[0]));
    }
    let mut out: Vec<char> = Vec::new();
    push_str(&mut out, "window.__spatialAutofillShowPicker && window.__spatialAutofillShowPicker([");
    let ghost head = out@;
    let mut items: Vec<Vec<char>> = Vec::new();
    let mut i: usize = 0;
    while i < matches.len()
        invariant
            es == crate::vault::deref_all(matches@),
            i <= matches@.len(),
            crate::text::views(items@) == es.take(i as int).map_values(|e: VaultEntry| picker_item(e)),
        decreases matches@.len() - i,
    {
        let it = picker_item_text(matches[i]);
        let ghost before = crate::text::views(items@);
        items.push(it);
        assert(crate::text::views(items@) =~= before.push(picker_item(es[i as int])));
        assert(es.take(i + 1).map_values(|e: VaultEntry| picker_item(e)) =~= es.take(
            i as int,
        ).map_values(|e: VaultEntry| picker_item(e)).push(picker_item(es[i as int])));
        i = i + 1;
    }
    assert(es.take(es.len() as int) == es);
    let comma = vec![','];
    proof {
        reveal_strlit(",");
    }
    assert(comma@ == ","@);
    let joined = crate::text::join_chars(&items, comma.as_slice());
    crate::text::push_all(&mut out, joined.as_slice());
    push_str(&mut out, "]);");
    Some(string_of(out.as_slice()))
}

/// Why a vault could not be unlocked or created before trying.
#[derive(Clone, Copy, Debug, PartialEq, Eq, Structural)]
pub enum UnlockProblem {
    /// The confirmation differs from the password.
    Mismatch,
    /// The new password is shorter than 8 bytes.
    TooShort,
}

impl UnlockProblem {
    /// The message shown on the unlock page.
    pub fn message(&self) -> (r: &'static str)
        ensures
            r == (match self {
                UnlockProblem::Mismatch => "Passwords do not match",
                UnlockProblem::TooShort => "Use at least 8 characters",
            }),
    {
        match self {
            UnlockProblem::Mismatch => "Passwords do not match",
            UnlockProblem::TooShort => "Use at least 8 characters",
        }
    }
}

/// Checks a new vault password before creating the vault: the
/// confirmation must match, and it must be at least 8 bytes of UTF-8.
/// Unlocking an existing vault has nothing to check here.
pub fn check_new_password(password: &str, create: bool, confirm: Option<&str>) -> (r: Result<
    (),
    UnlockProblem,
>)
    ensures
        !create ==> r is Ok,
        create && !(confirm matches Some(c) && c@ == password@) ==> r == Err::<(), UnlockProblem>(
            UnlockProblem::Mismatch,
        ),
        create && (confirm matches Some(c) && c@ == password@) && password.spec_bytes().len() < 8
            ==> r == Err::<(), UnlockProblem>(UnlockProblem::TooShort),
        create && (confirm matches Some(c) && c@ == password@) && password.spec_bytes().len() >= 8
            ==> r is Ok,
{
    if !create {
        return Ok(());
    }
    let same = match confirm {
        Some(c) => chars_eq_str(chars_of(c).as_slice(), password),
        None => false,
    };
    if !same {
        return Err(UnlockProblem::Mismatch);
    }
    if password.as_bytes().len() < 8 {
        return Err(UnlockProblem::TooShort);
    }
    Ok(())
}

/// The script that downloads an image by a temporary `<a download>`.
pub open spec fn save_image_call(url: Seq<char>) -> Seq<char> {
    "(function(u){var a=document.createElement('a');a.href=u;a.download='';a.rel='noopener';document.documentElement.appendChild(a);a.click();a.remove();})("@
        + json_or_nothing(url) + ");"@
}

pub fn save_image_js(url: &str) -> (r: String)
    ensures
        r@ == save_image_call(url@),
{
    let mut out: Vec<char> = Vec::new();
    push_str(
        &mut out,
        "(function(u){var a=document.createElement('a');a.href=u;a.download='';a.rel='noopener';document.documentElement.appendChild(a);a.click();a.remove();})(",
    );
    push_str(&mut out, json_text(url).as_str());
    push_str(&mut out, ");");
    string_of(out.as_slice())
}

} // verus!
