//! The vault: encryption at rest of biometric data under a passphrase.
//!
//! The key is derived from the passphrase and a random salt with Argon2id,
//! the data is sealed with ChaCha20-Poly1305 under a random nonce, and the
//! three travel together in one blob:
//!
//! ```text
//! [salt length: 1 byte] [salt text] [nonce: 12 bytes] [ciphertext and tag]
//! ```
//!
//! The framing of the blob and the order of the checks are proved here. The
//! two algorithms are called, not modelled: their results have names.

use vstd::prelude::*;
use vstd::string::StringExecFns;
use vstd::string::StrSliceExecFns;
use vstd::utf8::{decode_utf8, encode_utf8, valid_utf8};
use argon2::password_hash::{PasswordHasher, SaltString};
use chacha20poly1305::aead::{Aead, AeadCore, KeyInit, OsRng};
use zeroize::Zeroize;
use crate::types::ZenOneError;

verus! {

/// Length of a nonce in bytes.
pub const NONCE_LEN: usize = 12;

/// Length of a key in bytes.
pub const KEY_LEN: usize = 32;

/// Least length of a blob: the length byte, one byte of salt and the nonce.
pub const MIN_BLOB_LEN: usize = 14;

/// A salt as `password-hash` holds it: a short text in a fixed buffer.
#[verifier::external_type_specification]
#[verifier::external_body]
pub struct ExSaltString(SaltString);

/// The text that a salt holds.
pub uninterp spec fn salt_text(salt: SaltString) -> Seq<char>;

/// What Argon2id, with its default parameters and no secret, makes of a
/// passphrase and the text of a salt: the hash, no hash, or the message of
/// the failure.
pub uninterp spec fn argon2id_hash(passphrase: Seq<u8>, salt: Seq<char>) -> Result<
    Option<Seq<u8>>,
    Seq<char>,
>;

/// What ChaCha20-Poly1305 seals a plaintext to under a key and a nonce, with
/// no associated data: the ciphertext with its tag, or nothing on failure.
pub uninterp spec fn chacha20poly1305_seal(key: Seq<u8>, nonce: Seq<u8>, plaintext: Seq<u8>) -> Option<
    Seq<u8>,
>;

/// What ChaCha20-Poly1305 opens a ciphertext to under a key and a nonce,
/// with no associated data: the plaintext, or nothing where the tag does not
/// match.
pub uninterp spec fn chacha20poly1305_open(key: Seq<u8>, nonce: Seq<u8>, ciphertext: Seq<u8>) -> Option<
    Seq<u8>,
>;

/// Whether the character may stand in a salt text: a letter, a digit, or
/// one of `/ + . -`.
pub open spec fn is_salt_char(c: char) -> bool {
    let u = c as u32;
    (0x41 <= u <= 0x5a) || (0x61 <= u <= 0x7a) || (0x30 <= u <= 0x39) || u == 0x2f || u == 0x2b
        || u == 0x2e || u == 0x2d
}

/// Whether the text is accepted as a salt: from 4 to 64 bytes, all of them
/// salt characters.
pub open spec fn valid_salt_text(text: Seq<char>) -> bool {
    4 <= encode_utf8(text).len() <= 64 && forall|i: int|
        0 <= i < text.len() ==> is_salt_char(#[trigger] text[i])
}

/// The value of a hashing outcome.
pub open spec fn hash_view(r: Result<Option<Vec<u8>>, String>) -> Result<Option<Seq<u8>>, Seq<char>> {
    match r {
        Ok(Some(h)) => Ok(Some(h@)),
        Ok(None) => Ok(None),
        Err(m) => Err(m@),
    }
}

/// The value of optional bytes.
pub open spec fn opt_bytes(o: Option<Vec<u8>>) -> Option<Seq<u8>> {
    match o {
        Some(v) => Some(v@),
        None => None,
    }
}

/// `std::str::from_utf8`: the text that the bytes encode, or nothing where
/// they are no UTF-8.
#[verifier::external_body]
fn utf8_text(bytes: &[u8]) -> (r: Option<&str>)
    ensures
        r is Some <==> valid_utf8(bytes@),
        r matches Some(text) ==> encode_utf8(text@) == bytes@,
{
    std::str::from_utf8(bytes).ok()
}

/// `SaltString::from_b64` of `password-hash`: the salt that holds `text`,
/// or nothing where the text is not accepted. It is accepted where it has
/// from 4 to 64 bytes and only salt characters.
#[verifier::external_body]
fn salt_from_b64(text: &str) -> (r: Option<SaltString>)
    ensures
        r is Some <==> valid_salt_text(text@),
        r matches Some(salt) ==> salt_text(salt) == text@,
{
    SaltString::from_b64(text).ok()
}

/// `SaltString::as_str` of `password-hash`: the text that the salt holds.
#[verifier::external_body]
fn salt_as_str(salt: &SaltString) -> (r: &str)
    ensures
        r@ == salt_text(*salt),
{
    salt.as_str()
}

/// `SaltString::generate` of `password-hash`, with the random generator of
/// the operating system: 16 random bytes in unpadded B64, which is an
/// accepted salt text of 22 characters.
#[verifier::external_body]
fn generate_salt() -> (salt: SaltString)
    ensures
        valid_salt_text(salt_text(salt)),
        salt_text(salt).len() == 22,
{
    SaltString::generate(&mut OsRng)
}

/// `AeadCore::generate_nonce` of `chacha20poly1305`, with the random
/// generator of the operating system: 12 random bytes.
#[verifier::external_body]
fn generate_nonce() -> (nonce: Vec<u8>)
    ensures
        nonce@.len() == NONCE_LEN,
{
    chacha20poly1305::ChaCha20Poly1305::generate_nonce(&mut OsRng).to_vec()
}

/// `PasswordHasher::hash_password` of `argon2`, on `Argon2::default()` and
/// a salt that was accepted: what comes back is the hash of the result, or
/// the message of the error. The result is a function of the passphrase and
/// the salt's text and has the name `argon2id_hash`; nothing more is claimed
/// of it.
#[verifier::external_body]
fn argon2_hash_password(passphrase: &[u8], salt: &SaltString) -> (r: Result<Option<Vec<u8>>, String>)
    ensures
        hash_view(r) == argon2id_hash(passphrase@, salt_text(*salt)),
{
    match argon2::Argon2::default().hash_password(passphrase, salt) {
        Ok(h) => Ok(h.hash.map(|o| o.as_bytes().to_vec())),
        Err(e) => Err(e.to_string()),
    }
}

/// `KeyInit::new` and `Aead::encrypt` of `chacha20poly1305`: the cipher is
/// made from `key` and seals `plaintext` under `nonce`. Both lengths are
/// demanded because the crate panics on others. The result has the name
/// `chacha20poly1305_seal`; nothing more is claimed of it.
#[verifier::external_body]
fn seal(key: &[u8], nonce: &[u8], plaintext: &[u8]) -> (r: Option<Vec<u8>>)
    requires
        key@.len() == KEY_LEN,
        nonce@.len() == NONCE_LEN,
    ensures
        opt_bytes(r) == chacha20poly1305_seal(key@, nonce@, plaintext@),
{
    let cipher = chacha20poly1305::ChaCha20Poly1305::new(chacha20poly1305::Key::from_slice(key));
    cipher.encrypt(chacha20poly1305::Nonce::from_slice(nonce), plaintext).ok()
}

/// `KeyInit::new` and `Aead::decrypt` of `chacha20poly1305`: the cipher is
/// made from `key` and opens `ciphertext` under `nonce`. Both lengths are
/// demanded because the crate panics on others. The result has the name
/// `chacha20poly1305_open`; nothing more is claimed of it.
#[verifier::external_body]
fn unseal(key: &[u8], nonce: &[u8], ciphertext: &[u8]) -> (r: Option<Vec<u8>>)
    requires
        key@.len() == KEY_LEN,
        nonce@.len() == NONCE_LEN,
    ensures
        opt_bytes(r) == chacha20poly1305_open(key@, nonce@, ciphertext@),
{
    let cipher = chacha20poly1305::ChaCha20Poly1305::new(chacha20poly1305::Key::from_slice(key));
    cipher.decrypt(chacha20poly1305::Nonce::from_slice(nonce), ciphertext).ok()
}

/// `Zeroize::zeroize` of `zeroize` on a vector: its bytes are overwritten
/// with zeros and the vector is emptied.
#[verifier::external_body]
fn wipe(key: &mut Vec<u8>)
    ensures
        final(key)@.len() == 0,
{
    key.zeroize();
}

/// The parts of a blob.
#[derive(Debug)]
pub struct BlobParts {
    pub salt: Vec<u8>,
    pub nonce: Vec<u8>,
    pub ciphertext: Vec<u8>,
}

/// Mathematical value of a [`BlobParts`].
pub struct BlobView {
    pub salt: Seq<u8>,
    pub nonce: Seq<u8>,
    pub ciphertext: Seq<u8>,
}

impl View for BlobParts {
    type V = BlobView;

    open spec fn view(&self) -> BlobView {
        BlobView { salt: self.salt@, nonce: self.nonce@, ciphertext: self.ciphertext@ }
    }
}

/// The blob of the three parts: the low byte of the salt's length, the
/// salt, the nonce, the ciphertext.
pub open spec fn frame(parts: BlobView) -> Seq<u8> {
    seq![(parts.salt.len() % 256) as u8] + parts.salt + parts.nonce + parts.ciphertext
}

/// The parts of a blob, or why it has none.
pub open spec fn parse(blob: Seq<u8>) -> Result<BlobView, Seq<char>> {
    if blob.len() < MIN_BLOB_LEN {
        Err("Invalid blob format"@)
    } else {
        let n = blob[0] as int;
        if blob.len() < 1 + n + NONCE_LEN {
            Err("Blob too short"@)
        } else {
            Ok(
                BlobView {
                    salt: blob.subrange(1, 1 + n),
                    nonce: blob.subrange(1 + n, 1 + n + NONCE_LEN),
                    ciphertext: blob.subrange(1 + n + NONCE_LEN, blob.len() as int),
                },
            )
        }
    }
}

/// The key for a passphrase and the text of a salt: the first 32 bytes of
/// the Argon2id hash, or why there is none.
pub open spec fn derived_key(passphrase: Seq<u8>, salt: Seq<char>) -> Result<Seq<u8>, Seq<char>> {
    match argon2id_hash(passphrase, salt) {
        Err(m) => Err("Key derivation failed: "@ + m),
        Ok(None) => Err("No hash output"@),
        Ok(Some(h)) => if h.len() < KEY_LEN {
            Err("Derived key too short"@)
        } else {
            Ok(h.take(KEY_LEN as int))
        },
    }
}

/// The blob that holds `data` under `passphrase`, for the text of a salt
/// and a nonce, or why there is none.
pub open spec fn sealed(passphrase: Seq<u8>, data: Seq<u8>, salt: Seq<char>, nonce: Seq<u8>) -> Result<
    Seq<u8>,
    Seq<char>,
> {
    match derived_key(passphrase, salt) {
        Err(m) => Err(m),
        Ok(key) => match chacha20poly1305_seal(key, nonce, data) {
            None => Err("Encryption failed"@),
            Some(ciphertext) => Ok(frame(BlobView { salt: encode_utf8(salt), nonce, ciphertext })),
        },
    }
}

/// The text that the salt bytes of a blob are read as: the text that they
/// encode, or the empty text where they are no UTF-8.
pub open spec fn salt_text_of(bytes: Seq<u8>) -> Seq<char> {
    if valid_utf8(bytes) {
        decode_utf8(bytes)
    } else {
        ""@
    }
}

/// The data that `blob` holds under `passphrase`, or why it gives none.
pub open spec fn opened(passphrase: Seq<u8>, blob: Seq<u8>) -> Result<Seq<u8>, Seq<char>> {
    match parse(blob) {
        Err(m) => Err(m),
        Ok(parts) => if !valid_salt_text(salt_text_of(parts.salt)) {
            Err("Invalid salt"@)
        } else {
            match derived_key(passphrase, salt_text_of(parts.salt)) {
                Err(m) => Err(m),
                Ok(key) => match chacha20poly1305_open(key, parts.nonce, parts.ciphertext) {
                    None => Err("Decryption failed - Wrong passphrase?"@),
                    Some(plaintext) => Ok(plaintext),
                },
            }
        },
    }
}

/// The value of a result of the vault: the bytes, or the message of the
/// configuration error.
pub open spec fn outcome(r: Result<Vec<u8>, ZenOneError>) -> Result<Seq<u8>, Seq<char>> {
    match r {
        Ok(v) => Ok(v@),
        Err(ZenOneError::ConfigError(m)) => Err(m@),
        Err(_) => Err(Seq::<char>::empty()),
    }
}

/// Whether a failure of the vault is a configuration error, as all of them
/// are.
pub open spec fn fails_as_config_error<T>(r: Result<T, ZenOneError>) -> bool {
    match r {
        Ok(_) => true,
        Err(e) => e is ConfigError,
    }
}

fn config_error(message: &str) -> (e: ZenOneError)
    ensures
        e matches ZenOneError::ConfigError(m) && m@ == message@,
{
    ZenOneError::ConfigError(String::from_str(message))
}

/// The bytes of `v` from `from` up to `to`.
pub fn copy_range(v: &Vec<u8>, from: usize, to: usize) -> (r: Vec<u8>)
    requires
        from <= to <= v@.len(),
    ensures
        r@ == v@.subrange(from as int, to as int),
{
    let mut r: Vec<u8> = Vec::new();
    let mut i: usize = from;
    while i < to
        invariant
            from <= i <= to <= v@.len(),
            r@ == v@.subrange(from as int, i as int),
        decreases to - i,
    {
        r.push(v[i]);
        i += 1;
        assert(r@ =~= v@.subrange(from as int, i as int));
    }
    r
}

fn append_bytes(out: &mut Vec<u8>, src: &Vec<u8>)
    ensures
        final(out)@ == old(out)@ + src@,
{
    let n = src.len();
    let mut i: usize = 0;
    assert(out@ =~= old(out)@ + src@.subrange(0, 0));
    while i < n
        invariant
            i <= n,
            n == src@.len(),
            out@ == old(out)@ + src@.subrange(0, i as int),
        decreases n - i,
    {
        out.push(src[i]);
        i += 1;
        assert(out@ =~= old(out)@ + src@.subrange(0, i as int));
    }
    assert(src@.subrange(0, n as int) =~= src@);
}

/// Puts the three parts into one blob.
pub fn frame_blob(parts: &BlobParts) -> (blob: Vec<u8>)
    ensures
        blob@ == frame(parts@),
{
    let mut blob: Vec<u8> = Vec::new();
    let salt_len: u8 = (parts.salt.len() % 256) as u8;
    blob.push(salt_len);
    append_bytes(&mut blob, &parts.salt);
    append_bytes(&mut blob, &parts.nonce);
    append_bytes(&mut blob, &parts.ciphertext);
    assert(blob@ =~= frame(parts@));
    blob
}

/// Takes a blob apart. A blob of fewer than 14 bytes has an invalid format;
/// one that is shorter than its salt length says is too short.
pub fn parse_blob(blob: &Vec<u8>) -> (r: Result<BlobParts, ZenOneError>)
    ensures
        match r {
            Ok(parts) => parse(blob@) == Ok::<BlobView, Seq<char>>(parts@),
            Err(ZenOneError::ConfigError(m)) => parse(blob@) == Err::<BlobView, Seq<char>>(m@),
            Err(_) => false,
        },
{
    if blob.len() < MIN_BLOB_LEN {
        return Err(config_error("Invalid blob format"));
    }
    let salt_len: usize = blob[0] as usize;
    if blob.len() < 1 + salt_len + NONCE_LEN {
        return Err(config_error("Blob too short"));
    }
    let salt = copy_range(blob, 1, 1 + salt_len);
    let nonce = copy_range(blob, 1 + salt_len, 1 + salt_len + NONCE_LEN);
    let ciphertext = copy_range(blob, 1 + salt_len + NONCE_LEN, blob.len());
    Ok(BlobParts { salt, nonce, ciphertext })
}

/// A blob made of parts comes apart into the same parts, where the salt has
/// from 1 to 255 bytes and the nonce has 12.
pub proof fn lemma_parse_frame(parts: BlobView)
    requires
        1 <= parts.salt.len() <= 255,
        parts.nonce.len() == NONCE_LEN,
    ensures
        parse(frame(parts)) == Ok::<BlobView, Seq<char>>(parts),
{
    let blob = frame(parts);
    let n = parts.salt.len() as int;
    assert(blob[0] == n as u8);
    assert(blob.subrange(1, 1 + n) =~= parts.salt);
    assert(blob.subrange(1 + n, 1 + n + NONCE_LEN) =~= parts.nonce);
    assert(blob.subrange(1 + n + NONCE_LEN, blob.len() as int) =~= parts.ciphertext);
}

/// Overwrites the bytes of a key with zeros and empties it.
pub fn wipe_key(key: &mut Vec<u8>)
    ensures
        final(key)@ == Seq::<u8>::empty(),
{
    wipe(key);
    assert(key@ =~= Seq::<u8>::empty());
}

/// Derives the key for a passphrase and a salt: the first 32 bytes of the
/// Argon2id hash.
pub fn derive_key(passphrase: &Vec<u8>, salt: &SaltString) -> (r: Result<Vec<u8>, ZenOneError>)
    ensures
        outcome(r) == derived_key(passphrase@, salt_text(*salt)),
        fails_as_config_error(r),
        r matches Ok(key) ==> key@.len() == KEY_LEN,
{
    match argon2_hash_password(passphrase.as_slice(), salt) {
        Err(m) => {
            let mut message = String::from_str("Key derivation failed: ");
            message.append(m.as_str());
            Err(ZenOneError::ConfigError(message))
        },
        Ok(None) => Err(config_error("No hash output")),
        Ok(Some(h)) => {
            if h.len() < KEY_LEN {
                Err(config_error("Derived key too short"))
            } else {
                let key = copy_range(&h, 0, KEY_LEN);
                assert(key@ =~= h@.take(KEY_LEN as int));
                Ok(key)
            }
        },
    }
}

/// Seals `data` under `passphrase` with the given salt and nonce, and
/// frames the result. The key is wiped before the function returns.
pub fn encrypt_with(passphrase: &Vec<u8>, data: &Vec<u8>, salt: &SaltString, nonce: Vec<u8>) -> (r:
    Result<Vec<u8>, ZenOneError>)
    requires
        nonce@.len() == NONCE_LEN,
    ensures
        outcome(r) == sealed(passphrase@, data@, salt_text(*salt), nonce@),
        fails_as_config_error(r),
{
    let mut key = match derive_key(passphrase, salt) {
        Ok(key) => key,
        Err(e) => {
            return Err(e);
        },
    };
    let sealed_data = seal(key.as_slice(), nonce.as_slice(), data.as_slice());
    wipe_key(&mut key);
    match sealed_data {
        None => Err(config_error("Encryption failed")),
        Some(ciphertext) => {
            let parts = BlobParts { salt: salt_as_str(salt).as_bytes_vec(), nonce, ciphertext };
            Ok(frame_blob(&parts))
        },
    }
}

/// The vault.
#[derive(Debug, Clone, Copy)]
pub struct SecureVault;

impl SecureVault {
    pub fn new() -> (r: Self) {
        SecureVault
    }

    /// Encrypts `data` under `passphrase`, with a fresh random salt and
    /// nonce. Whatever the two are, the result is the blob sealed with them.
    pub fn encrypt_blob(&self, passphrase: String, data: Vec<u8>) -> (r: Result<
        Vec<u8>,
        ZenOneError,
    >)
        ensures
            exists|salt: Seq<char>, nonce: Seq<u8>|
                valid_salt_text(salt) && salt.len() == 22 && nonce.len() == NONCE_LEN && outcome(r)
                    == #[trigger] sealed(
                    encode_utf8(passphrase@),
                    data@,
                    salt,
                    nonce,
                ),
            fails_as_config_error(r),
    {
        let salt = generate_salt();
        let nonce = generate_nonce();
        let bytes = passphrase.as_str().as_bytes_vec();
        let ghost s = salt_text(salt);
        let ghost n = nonce@;
        let r = encrypt_with(&bytes, &data, &salt, nonce);
        assert(outcome(r) == sealed(encode_utf8(passphrase@), data@, s, n));
        r
    }

    /// Decrypts `blob` under `passphrase`: the blob is taken apart, its salt
    /// is checked, the key is derived, and the ciphertext is opened. Each
    /// step that fails gives its own configuration error.
    pub fn decrypt_blob(&self, passphrase: String, blob: Vec<u8>) -> (r: Result<
        Vec<u8>,
        ZenOneError,
    >)
        ensures
            outcome(r) == opened(encode_utf8(passphrase@), blob@),
            fails_as_config_error(r),
    {
        let parts = match parse_blob(&blob) {
            Ok(parts) => parts,
            Err(e) => {
                return Err(e);
            },
        };
        let text: &str = match utf8_text(parts.salt.as_slice()) {
            Some(text) => {
                proof {
                    vstd::utf8::encode_utf8_decode_utf8(text@);
                }
                text
            },
            None => "",
        };
        assert(text@ == salt_text_of(parts.salt@));
        let salt = match salt_from_b64(text) {
            Some(salt) => salt,
            None => {
                return Err(config_error("Invalid salt"));
            },
        };
        let bytes = passphrase.as_str().as_bytes_vec();
        let mut key = match derive_key(&bytes, &salt) {
            Ok(key) => key,
            Err(e) => {
                return Err(e);
            },
        };
        let plaintext = unseal(key.as_slice(), parts.nonce.as_slice(), parts.ciphertext.as_slice());
        wipe_key(&mut key);
        match plaintext {
            None => Err(config_error("Decryption failed - Wrong passphrase?")),
            Some(p) => Ok(p),
        }
    }
}

} // verus!
