use hsm::{
    CreateMasterEncryptionKey, Crypto, DecryptData, DestroyMasterEncryptionKey, EncryptData,
    ErrorKind,
};

fn live_crypto() -> Crypto {
    let mut c = Crypto::new();
    c.create_master_encryption_key().unwrap();
    c
}

#[test]
fn encrypt_decrypt_round_trip() {
    let c = live_crypto();
    let buf = c.encrypt(b"client-a", b"some plaintext", None, b"iv-0").unwrap();
    let p = c.decrypt(b"client-a", buf.bytes(), None, b"iv-0").unwrap();
    assert_eq!(p.bytes().as_slice(), b"some plaintext");
}

#[test]
fn encrypt_decrypt_round_trip_with_passphrase() {
    let c = live_crypto();
    let buf = c.encrypt(b"client-a", b"secret", Some(b"passphrase"), b"iv-0").unwrap();
    let p = c.decrypt(b"client-a", buf.bytes(), Some(b"passphrase"), b"iv-0").unwrap();
    assert_eq!(p.bytes().as_slice(), b"secret");
}

#[test]
fn encrypt_decrypt_round_trip_empty_plaintext() {
    let c = live_crypto();
    let buf = c.encrypt(b"client-a", b"", None, b"iv-0").unwrap();
    let p = c.decrypt(b"client-a", buf.bytes(), None, b"iv-0").unwrap();
    assert_eq!(p.len(), 0);
}

#[test]
fn ciphertext_differs_from_plaintext_body() {
    // The buffer is framed, and its body is masked: the plaintext bytes must
    // not appear as the tail of the ciphertext.
    let c = live_crypto();
    let pt = b"some plaintext";
    let buf = c.encrypt(b"client-a", pt, None, b"iv-0").unwrap();
    let bytes = buf.bytes();
    assert_eq!(bytes.len(), 40 + 8 + 4 + pt.len());
    assert_ne!(&bytes[bytes.len() - pt.len()..], pt.as_slice());
}

#[test]
fn frame_records_generation_and_lengths() {
    // First master key has generation zero; the fixed header fields are
    // little-endian: generation, client-id length, passphrase flag,
    // passphrase length, iv length.
    let c = live_crypto();
    let buf = c.encrypt(b"client-a", b"data", Some(b"pw"), b"iv-0").unwrap();
    let bytes = buf.bytes();
    assert_eq!(&bytes[0..8], &0u64.to_le_bytes());
    assert_eq!(&bytes[8..16], &8u64.to_le_bytes());
    assert_eq!(&bytes[16..24], &1u64.to_le_bytes());
    assert_eq!(&bytes[24..32], &2u64.to_le_bytes());
    assert_eq!(&bytes[32..40], &4u64.to_le_bytes());
}

#[test]
fn decrypt_with_wrong_client_id_fails() {
    let c = live_crypto();
    let buf = c.encrypt(b"client-a", b"secret", None, b"iv-0").unwrap();
    let r = c.decrypt(b"client-b", buf.bytes(), None, b"iv-0");
    assert_eq!(r.err().unwrap().kind(), ErrorKind::CryptoFailure);
}

#[test]
fn decrypt_with_wrong_iv_fails() {
    let c = live_crypto();
    let buf = c.encrypt(b"client-a", b"secret", None, b"iv-0").unwrap();
    let r = c.decrypt(b"client-a", buf.bytes(), None, b"iv-1");
    assert_eq!(r.err().unwrap().kind(), ErrorKind::CryptoFailure);
}

#[test]
fn decrypt_with_wrong_passphrase_fails() {
    let c = live_crypto();
    let buf = c.encrypt(b"client-a", b"secret", Some(b"right"), b"iv-0").unwrap();
    let r = c.decrypt(b"client-a", buf.bytes(), Some(b"wrong"), b"iv-0");
    assert_eq!(r.err().unwrap().kind(), ErrorKind::CryptoFailure);
}

#[test]
fn decrypt_with_missing_passphrase_fails() {
    let c = live_crypto();
    let buf = c.encrypt(b"client-a", b"secret", Some(b"right"), b"iv-0").unwrap();
    let r = c.decrypt(b"client-a", buf.bytes(), None, b"iv-0");
    assert_eq!(r.err().unwrap().kind(), ErrorKind::CryptoFailure);
}

#[test]
fn decrypt_with_added_passphrase_fails() {
    let c = live_crypto();
    let buf = c.encrypt(b"client-a", b"secret", None, b"iv-0").unwrap();
    let r = c.decrypt(b"client-a", buf.bytes(), Some(b"extra"), b"iv-0");
    assert_eq!(r.err().unwrap().kind(), ErrorKind::CryptoFailure);
}

#[test]
fn decrypt_truncated_buffer_is_invalid_input() {
    let c = live_crypto();
    let r = c.decrypt(b"client-a", &[1, 2, 3], None, b"iv-0");
    assert_eq!(r.err().unwrap().kind(), ErrorKind::InvalidInput);
}

#[test]
fn encrypt_without_master_key_fails_key_not_found() {
    let c = Crypto::new();
    let r = c.encrypt(b"client-a", b"secret", None, b"iv-0");
    assert_eq!(r.err().unwrap().kind(), ErrorKind::KeyNotFound);
}

#[test]
fn decrypt_without_master_key_fails_key_not_found() {
    let live = live_crypto();
    let buf = live.encrypt(b"client-a", b"secret", None, b"iv-0").unwrap();
    let c = Crypto::new();
    let r = c.decrypt(b"client-a", buf.bytes(), None, b"iv-0");
    assert_eq!(r.err().unwrap().kind(), ErrorKind::KeyNotFound);
}

#[test]
fn destroyed_master_key_disables_encrypt_and_decrypt() {
    let mut c = live_crypto();
    let buf = c.encrypt(b"client-a", b"secret", None, b"iv-0").unwrap();
    c.destroy_master_encryption_key().unwrap();
    let e = c.encrypt(b"client-a", b"secret", None, b"iv-0");
    assert_eq!(e.err().unwrap().kind(), ErrorKind::KeyNotFound);
    let d = c.decrypt(b"client-a", buf.bytes(), None, b"iv-0");
    assert_eq!(d.err().unwrap().kind(), ErrorKind::KeyNotFound);
}

#[test]
fn recreated_master_key_rejects_old_ciphertext() {
    let mut c = live_crypto();
    let buf = c.encrypt(b"client-a", b"secret", None, b"iv-0").unwrap();
    c.destroy_master_encryption_key().unwrap();
    c.create_master_encryption_key().unwrap();
    let d = c.decrypt(b"client-a", buf.bytes(), None, b"iv-0");
    assert_eq!(d.err().unwrap().kind(), ErrorKind::KeyNotFound);
}

#[test]
fn create_master_key_over_existing_one_is_refused() {
    let mut c = live_crypto();
    let r = c.create_master_encryption_key();
    assert_eq!(r.err().unwrap().kind(), ErrorKind::ModuleFailure);
}

#[test]
fn destroy_master_key_is_idempotent() {
    let mut c = Crypto::new();
    assert!(c.destroy_master_encryption_key().is_ok());
    assert!(c.destroy_master_encryption_key().is_ok());
}
