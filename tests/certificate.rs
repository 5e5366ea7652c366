use openssl::asn1::{Asn1Integer, Asn1Time};
use openssl::bn::BigNum;
use openssl::hash::MessageDigest;
use openssl::pkey::PKey;
use openssl::rsa::Rsa;
use openssl::x509::{X509Builder, X509NameBuilder};
use secure_ws::certificate::{display_cert, display_subject, peer_identity, CertificateError};

fn certificate_with_subject(entries: &[(&str, &str)]) -> Vec<u8> {
    let key = PKey::from_rsa(Rsa::generate(2048).unwrap()).unwrap();
    let mut name = X509NameBuilder::new().unwrap();
    for (field, value) in entries {
        name.append_entry_by_text(field, value).unwrap();
    }
    let name = name.build();
    let mut builder = X509Builder::new().unwrap();
    builder.set_version(2).unwrap();
    let serial = Asn1Integer::from_bn(&BigNum::from_u32(7).unwrap()).unwrap();
    builder.set_serial_number(&serial).unwrap();
    builder.set_not_before(&Asn1Time::days_from_now(0).unwrap()).unwrap();
    builder.set_not_after(&Asn1Time::days_from_now(30).unwrap()).unwrap();
    builder.set_subject_name(&name).unwrap();
    builder.set_issuer_name(&name).unwrap();
    builder.set_pubkey(&key).unwrap();
    builder.sign(&key, MessageDigest::sha256()).unwrap();
    builder.build().to_der().unwrap()
}

#[test]
fn missing_certificate_is_shown_as_none() {
    assert_eq!(display_cert(None), Ok("Certificate(None)".to_string()));
}

#[test]
fn subject_entries_are_joined_by_commas() {
    let der = certificate_with_subject(&[("C", "US"), ("O", "Pokemon"), ("CN", "pikachu.org")]);
    assert_eq!(display_cert(Some(der)), Ok("US,Pokemon,pikachu.org".to_string()));
}

#[test]
fn single_entry_has_no_comma() {
    let der = certificate_with_subject(&[("CN", "client")]);
    assert_eq!(display_cert(Some(der)), Ok("client".to_string()));
}

#[test]
fn undecodable_certificate_is_an_error() {
    assert_eq!(display_cert(Some(vec![1, 2, 3, 4])), Err(CertificateError::Unreadable));
    assert_eq!(display_cert(Some(vec![])), Err(CertificateError::Unreadable));
}

#[test]
fn display_subject_joins_in_order() {
    let parts = vec!["a".to_string(), "".to_string(), "c d".to_string()];
    assert_eq!(display_subject(&parts), "a,,c d");
    assert_eq!(display_subject(&vec![]), "");
}

#[test]
fn peer_identity_lists_subject_entries() {
    let der = certificate_with_subject(&[("O", "Pokemon"), ("CN", "client")]);
    let identity = peer_identity(&der).unwrap();
    assert_eq!(identity.subject, vec!["Pokemon".to_string(), "client".to_string()]);
    assert!(peer_identity(&vec![0x30, 0x00]).is_none());
}
