use hsm::{
    CertificateProperties, CertificateType, CreateCertificate, Crypto, ErrorKind, GetCerts, X509,
};

#[test]
fn create_certificate_with_consistent_properties_succeeds() {
    let c = Crypto::new();
    let props = CertificateProperties::new(
        String::from("device-01"),
        3600,
        CertificateType::Client,
        None,
    );
    let cert = c.create_certificate(&props).unwrap();
    assert_eq!(cert.certificate_type(), CertificateType::Client);
    assert_eq!(cert.validity_in_secs(), 3600);
    assert_eq!(cert.common_name(), "device-01");
    assert!(cert.data().len() > 0);
    assert!(cert.private_key().bytes().len() > 0);
}

#[test]
fn ca_path_length_on_ca_certificate_is_accepted() {
    let c = Crypto::new();
    let props = CertificateProperties::new(
        String::from("issuing-ca"),
        3600,
        CertificateType::Ca,
        Some(2),
    );
    assert!(c.create_certificate(&props).is_ok());
}

#[test]
fn ca_only_extension_on_client_certificate_is_refused() {
    let c = Crypto::new();
    let props = CertificateProperties::new(
        String::from("device-01"),
        3600,
        CertificateType::Client,
        Some(1),
    );
    let r = c.create_certificate(&props);
    assert_eq!(r.err().unwrap().kind(), ErrorKind::InvalidInput);
}

#[test]
fn ca_only_extension_on_server_certificate_is_refused() {
    let c = Crypto::new();
    let props = CertificateProperties::new(
        String::from("gateway"),
        3600,
        CertificateType::Server,
        Some(1),
    );
    let r = c.create_certificate(&props);
    assert_eq!(r.err().unwrap().kind(), ErrorKind::InvalidInput);
}

#[test]
fn empty_common_name_is_refused() {
    let c = Crypto::new();
    let props =
        CertificateProperties::new(String::new(), 3600, CertificateType::Client, None);
    let r = c.create_certificate(&props);
    assert_eq!(r.err().unwrap().kind(), ErrorKind::InvalidInput);
}

#[test]
fn zero_validity_is_refused() {
    let c = Crypto::new();
    let props = CertificateProperties::new(
        String::from("device-01"),
        0,
        CertificateType::Client,
        None,
    );
    let r = c.create_certificate(&props);
    assert_eq!(r.err().unwrap().kind(), ErrorKind::InvalidInput);
}

#[test]
fn issued_bytes_depend_on_the_requested_type() {
    let c = Crypto::new();
    let client = CertificateProperties::new(
        String::from("device-01"),
        3600,
        CertificateType::Client,
        None,
    );
    let server = CertificateProperties::new(
        String::from("device-01"),
        3600,
        CertificateType::Server,
        None,
    );
    let a = c.create_certificate(&client).unwrap();
    let b = c.create_certificate(&server).unwrap();
    assert_ne!(a.data(), b.data());
    assert_ne!(a.private_key().bytes(), b.private_key().bytes());
}

#[test]
fn unprovisioned_x509_reports_missing_material() {
    let x = X509::new();
    assert_eq!(x.get_cert().err().unwrap().kind(), ErrorKind::KeyNotFound);
    assert_eq!(x.get_key().err().unwrap().kind(), ErrorKind::KeyNotFound);
    assert_eq!(x.get_common_name().err().unwrap().kind(), ErrorKind::KeyNotFound);
}

#[test]
fn provisioned_x509_returns_its_material() {
    let x = X509::provision(
        b"cert-bytes".to_vec(),
        b"key-bytes".to_vec(),
        true,
        String::from("device-01"),
    );
    assert_eq!(x.get_cert().unwrap().bytes().as_slice(), b"cert-bytes");
    assert_eq!(x.get_key().unwrap().bytes().as_slice(), b"key-bytes");
    assert_eq!(x.get_common_name().unwrap(), "device-01");
}

#[test]
fn export_policy_denies_key_release() {
    let x = X509::provision(
        b"cert-bytes".to_vec(),
        b"key-bytes".to_vec(),
        false,
        String::from("device-01"),
    );
    assert!(x.get_cert().is_ok());
    assert_eq!(x.get_key().err().unwrap().kind(), ErrorKind::ExportDenied);
}
