use hsm::{ErrorKind, MakeRandom, ManageTpmKeys, SignWithTpm, Tpm};

#[test]
fn sign_before_activation_fails_not_activated() {
    let tpm = Tpm::new(1);
    let r = tpm.sign_with_identity(b"hello");
    assert!(r.is_err());
    assert_eq!(r.err().unwrap().kind(), ErrorKind::KeyNotFound);
}

#[test]
fn activate_empty_blob_rejected() {
    let mut tpm = Tpm::new(1);
    let r = tpm.activate_identity_key(&[]);
    assert!(r.is_err());
    assert_eq!(r.err().unwrap().kind(), ErrorKind::InvalidInput);
    // the module is untouched: signing still refused
    let s = tpm.sign_with_identity(b"hello");
    assert!(s.is_err());
}

#[test]
fn sign_after_activation_succeeds_with_nonempty_digest() {
    let mut tpm = Tpm::new(1);
    tpm.activate_identity_key(b"identity-blob").unwrap();
    let d = tpm.sign_with_identity(b"hello").unwrap();
    assert!(d.len() > 0);
    assert_eq!(d.len(), 32);
}

#[test]
fn sign_twice_same_data_same_digest() {
    let mut tpm = Tpm::new(1);
    tpm.activate_identity_key(b"identity-blob").unwrap();
    let d1 = tpm.sign_with_identity(b"hello").unwrap();
    let d2 = tpm.sign_with_identity(b"hello").unwrap();
    assert_eq!(d1.bytes(), d2.bytes());
}

#[test]
fn sign_different_data_different_digest() {
    let mut tpm = Tpm::new(1);
    tpm.activate_identity_key(b"identity-blob").unwrap();
    let d1 = tpm.sign_with_identity(b"hello").unwrap();
    let d2 = tpm.sign_with_identity(b"world").unwrap();
    assert_ne!(d1.bytes(), d2.bytes());
}

#[test]
fn derive_and_sign_depends_on_identity_label() {
    let mut tpm = Tpm::new(1);
    tpm.activate_identity_key(b"identity-blob").unwrap();
    let d1 = tpm.derive_and_sign_with_identity(b"hello", b"client-a").unwrap();
    let d2 = tpm.derive_and_sign_with_identity(b"hello", b"client-b").unwrap();
    assert_eq!(d1.len(), 32);
    assert_ne!(d1.bytes(), d2.bytes());
}

#[test]
fn derive_and_sign_before_activation_fails() {
    let tpm = Tpm::new(1);
    let r = tpm.derive_and_sign_with_identity(b"hello", b"client-a");
    assert!(r.is_err());
    assert_eq!(r.err().unwrap().kind(), ErrorKind::KeyNotFound);
}

#[test]
fn ek_and_srk_are_stable_nonempty_and_distinct() {
    let tpm = Tpm::new(1);
    let ek1 = tpm.get_ek().unwrap();
    let ek2 = tpm.get_ek().unwrap();
    let srk = tpm.get_srk().unwrap();
    assert_eq!(ek1.len(), 32);
    assert_eq!(srk.len(), 32);
    assert_eq!(ek1.bytes(), ek2.bytes());
    assert_ne!(ek1.bytes(), srk.bytes());
}

#[test]
fn ek_first_byte_is_low_byte_of_its_seed() {
    // The exported endorsement key starts at the seed state, whose low byte
    // is the last byte of hsm::tpm::EK_SEED.
    let tpm = Tpm::new(1);
    let ek = tpm.get_ek().unwrap();
    assert_eq!(ek.bytes()[0], (hsm::tpm::EK_SEED & 0xff) as u8);
}

#[test]
fn random_bytes_fill_exactly_the_buffer_length() {
    let mut tpm = Tpm::new(42);
    for n in [0usize, 1, 16, 257] {
        let mut buf = vec![0u8; n];
        tpm.get_random_bytes(&mut buf).unwrap();
        assert_eq!(buf.len(), n);
    }
}

#[test]
fn random_bytes_advance_the_entropy_state() {
    let mut tpm = Tpm::new(42);
    let mut a = vec![0u8; 16];
    let mut b = vec![0u8; 16];
    tpm.get_random_bytes(&mut a).unwrap();
    tpm.get_random_bytes(&mut b).unwrap();
    assert_ne!(a, b);
}

#[test]
fn random_bytes_depend_on_the_seed() {
    let mut t1 = Tpm::new(1);
    let mut t2 = Tpm::new(2);
    let mut a = vec![0u8; 16];
    let mut b = vec![0u8; 16];
    t1.get_random_bytes(&mut a).unwrap();
    t2.get_random_bytes(&mut b).unwrap();
    assert_ne!(a, b);
}
