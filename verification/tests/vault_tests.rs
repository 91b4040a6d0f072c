use argon2::password_hash::SaltString;
use zenone_core::vault::{copy_range, derive_key, encrypt_with, frame_blob, parse_blob, wipe_key, BlobParts};
use zenone_core::{SecureVault, ZenOneError};

fn message(r: Result<Vec<u8>, ZenOneError>) -> String {
    match r {
        Err(ZenOneError::ConfigError(m)) => m,
        other => panic!("expected a config error, got {:?}", other),
    }
}

const SALT: &[u8] = b"c29tZXNhbHRzb21lc2FsdA";

fn salt() -> SaltString {
    SaltString::from_b64("c29tZXNhbHRzb21lc2FsdA").unwrap()
}

fn is_salt_byte(b: u8) -> bool {
    b.is_ascii_alphanumeric() || b == b'/' || b == b'+' || b == b'.' || b == b'-'
}

/// What decrypting a blob with the given salt bytes says.
fn verdict_on_salt(salt: &[u8]) -> String {
    let mut blob = vec![salt.len() as u8];
    blob.extend_from_slice(salt);
    blob.extend_from_slice(&[0u8; 12]);
    blob.extend_from_slice(&[0u8; 16]);
    while blob.len() < 14 {
        blob.push(0);
    }
    message(SecureVault::new().decrypt_blob("pw".to_string(), blob))
}

#[test]
fn encrypt_then_decrypt_gives_the_data_back() {
    let vault = SecureVault::new();
    let data = b"heart rate 62, resonance 0.8".to_vec();
    let blob = vault.encrypt_blob("correct horse".to_string(), data.clone()).unwrap();
    // length byte, salt of 22 characters, nonce, data, tag
    assert_eq!(blob.len(), 1 + 22 + 12 + data.len() + 16);
    assert_eq!(blob[0], 22);
    assert!(blob[1..23].iter().all(|b| is_salt_byte(*b)));
    assert_ne!(&blob[35..35 + data.len()], &data[..]);
    let back = vault.decrypt_blob("correct horse".to_string(), blob).unwrap();
    assert_eq!(back, data);
}

#[test]
fn a_wrong_passphrase_does_not_decrypt() {
    let vault = SecureVault::new();
    let blob = encrypt_with(&b"right".to_vec(), &b"secret".to_vec(), &salt(), vec![7u8; 12]).unwrap();
    assert_eq!(
        message(vault.decrypt_blob("wrong".to_string(), blob)),
        "Decryption failed - Wrong passphrase?"
    );
}

#[test]
fn a_tampered_blob_does_not_decrypt() {
    let vault = SecureVault::new();
    let mut blob = encrypt_with(&b"pw".to_vec(), &b"secret".to_vec(), &salt(), vec![1u8; 12]).unwrap();
    let last = blob.len() - 1;
    blob[last] ^= 1;
    assert_eq!(message(vault.decrypt_blob("pw".to_string(), blob)), "Decryption failed - Wrong passphrase?");
}

#[test]
fn encryption_depends_on_salt_and_nonce_alone() {
    let pw = b"passphrase".to_vec();
    let data = b"same data".to_vec();
    let a = encrypt_with(&pw, &data, &salt(), vec![3u8; 12]).unwrap();
    let b = encrypt_with(&pw, &data, &salt(), vec![3u8; 12]).unwrap();
    assert_eq!(a, b);
    let c = encrypt_with(&pw, &data, &salt(), vec![4u8; 12]).unwrap();
    assert_ne!(a[35..], c[35..]);
    assert_eq!(a[0], 22);
    assert_eq!(&a[1..23], SALT);
    assert_eq!(&a[23..35], &[3u8; 12]);
    assert_eq!(a.len(), 35 + data.len() + 16);
    let vault = SecureVault::new();
    assert_eq!(vault.decrypt_blob("passphrase".to_string(), a).unwrap(), data);
}

#[test]
fn fresh_salt_and_nonce_each_time() {
    let vault = SecureVault::new();
    let a = vault.encrypt_blob("pw".to_string(), vec![1, 2, 3]).unwrap();
    let b = vault.encrypt_blob("pw".to_string(), vec![1, 2, 3]).unwrap();
    assert_ne!(a, b);
    assert_ne!(a[1..35], b[1..35]);
}

#[test]
fn empty_data_round_trips() {
    let vault = SecureVault::new();
    let blob = vault.encrypt_blob(String::new(), Vec::new()).unwrap();
    assert_eq!(blob.len(), 1 + 22 + 12 + 16);
    assert_eq!(vault.decrypt_blob(String::new(), blob).unwrap(), Vec::<u8>::new());
}

#[test]
fn derived_key_has_32_bytes_and_depends_on_both_inputs() {
    let a = derive_key(&b"passphrase".to_vec(), &salt()).unwrap();
    assert_eq!(a.len(), 32);
    assert_ne!(&a[..10], b"passphrase");
    assert_ne!(&a[..22], SALT);
    let b = derive_key(&b"passphrass".to_vec(), &salt()).unwrap();
    assert_ne!(a, b);
    let other = SaltString::from_b64("YW5vdGhlcnNhbHR2YWx1ZQ").unwrap();
    let c = derive_key(&b"passphrase".to_vec(), &other).unwrap();
    assert_ne!(a, c);
    assert_eq!(a, derive_key(&b"passphrase".to_vec(), &salt()).unwrap());
}

#[test]
fn key_derivation_fails_on_a_salt_that_does_not_decode() {
    // accepted as a text, but no encoding of bytes
    let odd = SaltString::from_b64("c29tZXNhbHRzb21lc2FsdB").unwrap();
    let m = message(derive_key(&b"pw".to_vec(), &odd));
    assert!(m.starts_with("Key derivation failed: "), "{}", m);
    assert!(m.len() > "Key derivation failed: ".len());
    // accepted as a text, but too few bytes for the hash
    let short = SaltString::from_b64("abcd").unwrap();
    let m = message(derive_key(&b"pw".to_vec(), &short));
    assert!(m.starts_with("Key derivation failed: "), "{}", m);
    let m = message(encrypt_with(&b"pw".to_vec(), &b"x".to_vec(), &short, vec![0u8; 12]));
    assert!(m.starts_with("Key derivation failed: "), "{}", m);
}

#[test]
fn short_blobs_have_an_invalid_format() {
    let vault = SecureVault::new();
    assert_eq!(message(vault.decrypt_blob("pw".to_string(), Vec::new())), "Invalid blob format");
    assert_eq!(message(vault.decrypt_blob("pw".to_string(), vec![0u8; 13])), "Invalid blob format");
}

#[test]
fn a_blob_shorter_than_its_salt_says_is_too_short() {
    let vault = SecureVault::new();
    let mut blob = vec![0u8; 14];
    blob[0] = 2;
    assert_eq!(message(vault.decrypt_blob("pw".to_string(), blob)), "Blob too short");
    let mut blob = vec![b'a'; 40];
    blob[0] = 255;
    assert_eq!(message(vault.decrypt_blob("pw".to_string(), blob)), "Blob too short");
}

#[test]
fn a_blob_with_a_bad_salt_is_refused() {
    let vault = SecureVault::new();
    // salt of one character: too short for a salt
    let mut blob = vec![b'a'; 14];
    blob[0] = 1;
    assert_eq!(message(vault.decrypt_blob("pw".to_string(), blob)), "Invalid salt");
    // no salt at all
    let blob = vec![0u8; 14];
    assert_eq!(message(vault.decrypt_blob("pw".to_string(), blob)), "Invalid salt");
    // a character that no salt holds
    let mut blob = vec![b'a'; 40];
    blob[0] = 8;
    blob[3] = b'_';
    assert_eq!(message(vault.decrypt_blob("pw".to_string(), blob)), "Invalid salt");
    // bytes that are no text
    let mut blob = vec![b'a'; 40];
    blob[0] = 8;
    blob[3] = 0xff;
    assert_eq!(message(vault.decrypt_blob("pw".to_string(), blob)), "Invalid salt");
}

#[test]
fn salts_that_are_accepted() {
    // each is a salt text, so the blob fails later: at the key or at the tag
    for salt in [&b"abcd"[..], b"AZaz09/+.-", b"a.b-c/d+"] {
        let m = verdict_on_salt(salt);
        assert_ne!(m, "Invalid salt", "{:?}", salt);
        assert!(m.starts_with("Key derivation failed: "), "{}", m);
    }
    assert_eq!(verdict_on_salt(SALT), "Decryption failed - Wrong passphrase?");
    assert_eq!(verdict_on_salt(&[b'x'; 64]), "Decryption failed - Wrong passphrase?");
}

#[test]
fn salts_that_are_refused() {
    for salt in [
        &b""[..],
        b"abc",
        b"abc=",
        b"ab cd",
        b"abc@",
        b"abc[",
        b"abc`",
        b"abc{",
        b"abc:",
        b"abc,",
        b"abc_",
        &[b'x'; 65],
        &[0xc3, 0xa9, 0xc3, 0xa9],
        &[0xff, 0xfe, 0xfd, 0xfc],
        &[b'a', b'b', b'c', 0x80],
    ] {
        assert_eq!(verdict_on_salt(salt), "Invalid salt", "{:?}", salt);
    }
}

#[test]
fn frame_and_parse_are_inverse() {
    let parts = BlobParts { salt: b"saltsalt".to_vec(), nonce: (1..=12).collect(), ciphertext: vec![9, 8, 7] };
    let blob = frame_blob(&parts);
    let mut expected = vec![8u8];
    expected.extend_from_slice(b"saltsalt");
    expected.extend(1..=12u8);
    expected.extend_from_slice(&[9, 8, 7]);
    assert_eq!(blob, expected);
    let back = parse_blob(&blob).unwrap();
    assert_eq!(back.salt, parts.salt);
    assert_eq!(back.nonce, parts.nonce);
    assert_eq!(back.ciphertext, parts.ciphertext);
}

#[test]
fn parse_takes_the_rest_as_ciphertext() {
    let mut blob = vec![1u8, b's'];
    blob.extend_from_slice(&[0u8; 12]);
    let parts = parse_blob(&blob).unwrap();
    assert_eq!(parts.salt, b"s".to_vec());
    assert_eq!(parts.nonce, vec![0u8; 12]);
    assert!(parts.ciphertext.is_empty());
    let mut blob = vec![0u8];
    blob.extend_from_slice(&[5u8; 12]);
    blob.push(42);
    let parts = parse_blob(&blob).unwrap();
    assert!(parts.salt.is_empty());
    assert_eq!(parts.nonce, vec![5u8; 12]);
    assert_eq!(parts.ciphertext, vec![42]);
}

#[test]
fn frame_keeps_the_low_byte_of_a_long_salt() {
    let parts = BlobParts { salt: vec![b'a'; 300], nonce: vec![0u8; 12], ciphertext: Vec::new() };
    let blob = frame_blob(&parts);
    assert_eq!(blob[0], 44);
    assert_eq!(blob.len(), 1 + 300 + 12);
}

#[test]
fn copy_range_copies_the_range() {
    let v = vec![10u8, 11, 12, 13, 14];
    assert_eq!(copy_range(&v, 1, 4), vec![11, 12, 13]);
    assert_eq!(copy_range(&v, 0, 5), v);
    assert_eq!(copy_range(&v, 2, 2), Vec::<u8>::new());
}

#[test]
fn a_wiped_key_is_empty() {
    let mut key = derive_key(&b"passphrase".to_vec(), &salt()).unwrap();
    assert_eq!(key.len(), 32);
    wipe_key(&mut key);
    assert!(key.is_empty());
    let mut nothing: Vec<u8> = Vec::new();
    wipe_key(&mut nothing);
    assert!(nothing.is_empty());
}
