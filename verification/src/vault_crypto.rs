//! Sealing the vault: Argon2id key derivation, AES-256-GCM, random salts
//! and nonces, and the file layout `SBVT | version | salt | nonce | ct`.

use vstd::prelude::*;
use aes_gcm::aead::{Aead, KeyInit};
use rand::Rng;
use crate::vault::VaultError;

verus! {

pub const SALT_LEN: usize = 16;

pub const NONCE_LEN: usize = 12;

pub const KEY_LEN: usize = 32;

/// The key Argon2id (default parameters) derives from a password and salt
/// into a 32-byte buffer, or `None` when argon2 reports an error.
pub uninterp spec fn argon2id_key(password: Seq<u8>, salt: Seq<u8>) -> Option<Seq<u8>>;

/// AES-256-GCM encryption of `plain` under `key` and `nonce` (ciphertext
/// followed by the tag), or `None` when the cipher reports an error.
pub uninterp spec fn aes_gcm_seal(key: Seq<u8>, nonce: Seq<u8>, plain: Seq<u8>) -> Option<Seq<u8>>;

/// AES-256-GCM decryption, `None` when authentication fails.
pub uninterp spec fn aes_gcm_open(key: Seq<u8>, nonce: Seq<u8>, ct: Seq<u8>) -> Option<Seq<u8>>;

/// `Argon2::default().hash_password_into` into a 32-byte buffer: the
/// result is the named derivation of its two arguments, 32 bytes long. With
/// a 32-byte output it fails exactly when `verify_inputs` refuses the
/// inputs: a password over `MAX_PWD_LEN` (2^32 - 1) bytes, or a salt under
/// `MIN_SALT_LEN` (8) or over `MAX_SALT_LEN` (2^32 - 1) bytes.
#[verifier::external_body]
pub(crate) fn argon2_derive(password: &[u8], salt: &[u8]) -> (r: Option<Vec<u8>>)
    ensures
        r is Some <==> (password@.len() <= 0xFFFF_FFFF && 8 <= salt@.len() <= 0xFFFF_FFFF),
        match r {
            Some(k) => argon2id_key(password@, salt@) == Some(k@) && k@.len() == 32,
            None => argon2id_key(password@, salt@) is None,
        },
{
    let mut key = vec![0u8; 32];
    match argon2::Argon2::default().hash_password_into(password, salt, &mut key) {
        Ok(()) => Some(key),
        Err(_) => None,
    }
}

/// `Aes256Gcm::encrypt` with a 32-byte key and 12-byte nonce: the named
/// ciphertext, which is the plaintext's length plus the 16-byte tag. It
/// fails exactly when the plaintext is longer than `P_MAX` (2^36 bytes).
#[verifier::external_body]
pub(crate) fn aes_encrypt(key: &[u8], nonce: &[u8], plain: &[u8]) -> (r: Option<Vec<u8>>)
    requires
        key@.len() == 32,
        nonce@.len() == 12,
    ensures
        r is Some <==> plain@.len() <= 0x10_0000_0000,
        match r {
            Some(c) => aes_gcm_seal(key@, nonce@, plain@) == Some(c@) && c@.len() == plain@.len()
                + 16,
            None => aes_gcm_seal(key@, nonce@, plain@) is None,
        },
{
    let cipher = aes_gcm::Aes256Gcm::new_from_slice(key).ok()?;
    cipher.encrypt(aes_gcm::Nonce::from_slice(nonce), plain).ok()
}

/// `Aes256Gcm::decrypt` with a 32-byte key and 12-byte nonce: the named
/// result; what `aes_encrypt` sealed under the same key and nonce opens to
/// the plaintext it sealed.
#[verifier::external_body]
pub(crate) fn aes_decrypt(key: &[u8], nonce: &[u8], ct: &[u8]) -> (r: Option<Vec<u8>>)
    requires
        key@.len() == 32,
        nonce@.len() == 12,
    ensures
        match r {
            Some(q) => aes_gcm_open(key@, nonce@, ct@) == Some(q@) && forall|p: Seq<u8>|
                aes_gcm_seal(key@, nonce@, p) == Some(ct@) ==> q@ == p,
            None => aes_gcm_open(key@, nonce@, ct@) is None && forall|p: Seq<u8>|
                aes_gcm_seal(key@, nonce@, p) != Some(ct@),
        },
{
    let cipher = aes_gcm::Aes256Gcm::new_from_slice(key).ok()?;
    cipher.decrypt(aes_gcm::Nonce::from_slice(nonce), ct).ok()
}

/// A vault key held in a `zeroize::Zeroizing` buffer, so that its bytes
/// are overwritten with zeros when it is dropped. Verus cannot declare
/// `Zeroizing` itself (its parameter is bound by the outside `Zeroize`
/// trait), so the buffer sits in this opaque struct.
#[verifier::external_body]
pub struct KeyMaterial {
    bytes: zeroize::Zeroizing<Vec<u8>>,
}

/// The bytes a key buffer holds.
pub uninterp spec fn key_material_bytes(k: KeyMaterial) -> Seq<u8>;

/// `Zeroizing::new`: moves the buffer in unchanged.
#[verifier::external_body]
fn zeroizing_new(v: Vec<u8>) -> (r: KeyMaterial)
    ensures
        key_material_bytes(r) == v@,
{
    KeyMaterial { bytes: zeroize::Zeroizing::new(v) }
}

/// `Deref` of `Zeroizing`: the buffer it holds.
#[verifier::external_body]
pub(crate) fn key_slice(k: &KeyMaterial) -> (r: &[u8])
    ensures
        r@ == key_material_bytes(*k),
{
    k.bytes.as_slice()
}

impl KeyMaterial {
    /// The key's length in bytes.
    pub fn len(&self) -> (r: usize)
        ensures
            r == key_material_bytes(*self).len(),
    {
        key_slice(self).len()
    }
}

/// Takes `bytes` as a key that is zeroed when dropped.
pub fn key_from_bytes(bytes: Vec<u8>) -> (r: KeyMaterial)
    ensures
        key_material_bytes(r) == bytes@,
{
    zeroizing_new(bytes)
}

/// `n` bytes from the thread-local random generator.
#[verifier::external_body]
pub(crate) fn random_bytes(n: usize) -> (r: Vec<u8>)
    ensures
        r@.len() == n,
{
    let mut v = vec![0u8; n];
    rand::rng().fill_bytes(&mut v);
    v
}

/// `SBVT`.
pub open spec fn magic() -> Seq<u8> {
    seq![83u8, 66u8, 86u8, 84u8]
}

/// The on-disk vault: magic, format version 1, salt, nonce, ciphertext.
pub open spec fn sealed_file(salt: Seq<u8>, nonce: Seq<u8>, ct: Seq<u8>) -> Seq<u8> {
    magic() + seq![1u8] + salt + nonce + ct
}

/// Why a vault file is refused, or its salt, nonce and ciphertext.
pub open spec fn parsed_file(b: Seq<u8>) -> Result<(Seq<u8>, Seq<u8>, Seq<u8>), Seq<char>> {
    if b.len() < 49 {
        Err("too short"@)
    } else if b.take(4) != magic() {
        Err("bad magic"@)
    } else if b[4] != 1 {
        Err("unsupported version"@)
    } else {
        Ok((b.subrange(5, 21), b.subrange(21, 33), b.skip(33)))
    }
}

/// A `Corrupt` error with this message.
pub open spec fn is_corrupt(e: VaultError, msg: Seq<char>) -> bool {
    e matches VaultError::Corrupt(m) && m@ == msg
}

fn copy_range(b: &[u8], from: usize, to: usize) -> (r: Vec<u8>)
    requires
        from <= to <= b@.len(),
    ensures
        r@ == b@.subrange(from as int, to as int),
{
    let mut r: Vec<u8> = Vec::new();
    let mut i = from;
    while i < to
        invariant
            from <= i <= to,
            to <= b@.len(),
            r@ == b@.subrange(from as int, i as int),
        decreases to - i,
    {
        r.push(b[i]);
        i = i + 1;
        assert(b@.subrange(from as int, i as int) == b@.subrange(from as int, i - 1).push(
            b@[i - 1],
        ));
    }
    r
}

fn append_bytes(dst: &mut Vec<u8>, src: &[u8])
    ensures
        final(dst)@ == old(dst)@ + src@,
{
    let mut i: usize = 0;
    while i < src.len()
        invariant
            i <= src@.len(),
            dst@ == old(dst)@ + src@.take(i as int),
        decreases src@.len() - i,
    {
        dst.push(src[i]);
        i = i + 1;
        assert(src@.take(i as int) == src@.take(i - 1).push(src@[i - 1]));
    }
    assert(src@.take(src@.len() as int) == src@);
}

/// Checks the header and splits a vault file into salt, nonce, ciphertext.
pub fn parse_sealed(b: &[u8]) -> (r: Result<(Vec<u8>, Vec<u8>, Vec<u8>), VaultError>)
    ensures
        match parsed_file(b@) {
            Ok((s, n, c)) => r matches Ok((rs, rn, rc)) && rs@ == s && rn@ == n && rc@ == c,
            Err(msg) => r matches Err(e) && is_corrupt(e, msg),
        },
{
    if b.len() < 49 {
        return Err(VaultError::Corrupt("too short"));
    }
    if b[0] != 83 || b[1] != 66 || b[2] != 86 || b[3] != 84 {
        assert(b@.take(4) != magic()) by {
            assert(b@.take(4)[0] == b@[0] && b@.take(4)[1] == b@[1] && b@.take(4)[2] == b@[2]
                && b@.take(4)[3] == b@[3]);
        }
        return Err(VaultError::Corrupt("bad magic"));
    }
    assert(b@.take(4) =~= magic());
    if b[4] != 1 {
        return Err(VaultError::Corrupt("unsupported version"));
    }
    let salt = copy_range(b, 5, 21);
    let nonce = copy_range(b, 21, 33);
    let ct = copy_range(b, 33, b.len());
    assert(ct@ == b@.skip(33));
    Ok((salt, nonce, ct))
}

/// Lays out a vault file.
pub fn frame_sealed(salt: &[u8], nonce: &[u8], ct: &[u8]) -> (r: Vec<u8>)
    ensures
        r@ == sealed_file(salt@, nonce@, ct@),
{
    let mut out: Vec<u8> = Vec::new();
    out.push(83);
    out.push(66);
    out.push(86);
    out.push(84);
    out.push(1);
    assert(out@ =~= magic() + seq![1u8]);
    append_bytes(&mut out, salt);
    append_bytes(&mut out, nonce);
    append_bytes(&mut out, ct);
    out
}

/// What a framed file parses back to: the same salt, nonce and ciphertext.
pub proof fn law_parse_frame(salt: Seq<u8>, nonce: Seq<u8>, ct: Seq<u8>)
    requires
        salt.len() == 16,
        nonce.len() == 12,
        ct.len() >= 16,
    ensures
        parsed_file(sealed_file(salt, nonce, ct)) == Ok::<_, Seq<char>>((salt, nonce, ct)),
{
    let f = sealed_file(salt, nonce, ct);
    assert(f.take(4) =~= magic());
    assert(f[4] == 1u8);
    assert(f.subrange(5, 21) =~= salt);
    assert(f.subrange(21, 33) =~= nonce);
    assert(f.skip(33) =~= ct);
}

/// The salt stored in a vault file (what a save re-seals with).
pub fn salt_of(b: &[u8]) -> (r: Result<Vec<u8>, VaultError>)
    ensures
        b@.len() < 21 ==> (r matches Err(e) && is_corrupt(e, "missing salt"@)),
        b@.len() >= 21 ==> (r matches Ok(s) && s@ == b@.subrange(5, 21)),
{
    if b.len() < 21 {
        return Err(VaultError::Corrupt("missing salt"));
    }
    Ok(copy_range(b, 5, 21))
}

} // verus!
