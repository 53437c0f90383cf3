//! Credential-resolution scenarios: the truth table over the three
//! client-certificate inputs.

use keyls::error::ErrorKind;
use keyls::kmip::{resolve_client_cert, ClientCertOpt};

#[test]
fn nothing_given_is_no_identity() {
    let r = resolve_client_cert(None, None, None).unwrap();
    assert!(r.is_none());
}

#[test]
fn pkcs12_alone_is_the_combined_form() {
    let r = resolve_client_cert(None, None, Some(vec![1, 2, 3])).unwrap();
    match r {
        Some(ClientCertOpt::CombinedPkcs12 { cert_bytes }) => {
            assert_eq!(cert_bytes, vec![1, 2, 3]);
        }
        _ => panic!("expected combined PKCS#12 identity"),
    }
}

#[test]
fn cert_alone_is_separate_pem_without_key() {
    let r = resolve_client_cert(Some(vec![9]), None, None).unwrap();
    match r {
        Some(ClientCertOpt::SeparatePem {
            cert_bytes,
            key_bytes,
        }) => {
            assert_eq!(cert_bytes, vec![9]);
            assert!(key_bytes.is_none());
        }
        _ => panic!("expected separate PEM identity"),
    }
}

#[test]
fn cert_with_key_is_separate_pem_with_key() {
    let r = resolve_client_cert(Some(vec![9]), Some(vec![8]), None).unwrap();
    match r {
        Some(ClientCertOpt::SeparatePem {
            cert_bytes,
            key_bytes,
        }) => {
            assert_eq!(cert_bytes, vec![9]);
            assert_eq!(key_bytes, Some(vec![8]));
        }
        _ => panic!("expected separate PEM identity"),
    }
}

#[test]
fn key_without_cert_always_fails() {
    let e = resolve_client_cert(None, Some(vec![8]), None).unwrap_err();
    assert_eq!(e.kind, ErrorKind::Parse);
}

#[test]
fn cert_and_pkcs12_always_fail_whatever_the_bytes() {
    let e = resolve_client_cert(Some(vec![1]), None, Some(vec![2])).unwrap_err();
    assert_eq!(e.kind, ErrorKind::Parse);
    let e = resolve_client_cert(Some(vec![]), Some(vec![]), Some(vec![])).unwrap_err();
    assert_eq!(e.kind, ErrorKind::Parse);
    let e = resolve_client_cert(None, Some(vec![7]), Some(vec![2])).unwrap_err();
    assert_eq!(e.kind, ErrorKind::Parse);
}

#[test]
fn missing_file_is_an_io_error() {
    let e = keyls::util::load_binary_file("/surely/not/present/cert.pem").unwrap_err();
    assert_eq!(e.kind, ErrorKind::Io);
}
