//! KMIP-side scenarios: response normalization, display-name resolution
//! and connection-settings assembly.

use keyls::config::{parse_server, Opt};
use keyls::error::ErrorKind;
use keyls::key::KeyType;
use keyls::kmip::{
    kmip_connection_settings, kmip_display_name, kmip_key_record, KmipNameValue, KmipObject,
    KMIP_TIMEOUT_SECS,
};

fn opt_for(descriptor: &str) -> Opt {
    Opt {
        insecure: false,
        client_cert_path: None,
        client_key_path: None,
        client_pkcs12_path: None,
        server_cert_path: None,
        ca_cert_path: None,
        server: parse_server(descriptor).unwrap(),
    }
}

#[test]
fn public_key_record_with_all_fields() {
    let obj = KmipObject::PublicKey {
        alg: Some("RSA".to_string()),
        len: Some(2048),
    };
    let key = kmip_key_record("uid-1", &obj, "backup").unwrap();
    assert_eq!(key.id, "uid-1");
    assert_eq!(key.typ, KeyType::Public);
    assert_eq!(key.name, "backup");
    assert_eq!(key.alg, "RSA");
    assert_eq!(key.len, "2048");
}

#[test]
fn private_key_record_with_fallbacks() {
    let obj = KmipObject::PrivateKey {
        alg: None,
        len: None,
    };
    let key = kmip_key_record("uid-2", &obj, "None").unwrap();
    assert_eq!(key.typ, KeyType::Private);
    assert_eq!(key.alg, "unknown");
    assert_eq!(key.len, "unknown");
}

#[test]
fn other_object_kind_is_a_fetch_error() {
    let e = kmip_key_record("uid-3", &KmipObject::Other, "x").unwrap_err();
    assert_eq!(e.kind, ErrorKind::Fetch);
    assert_eq!(e.message(), "Unsupported type");
}

#[test]
fn display_name_resolution() {
    assert_eq!(kmip_display_name(&None), "None");
    assert_eq!(kmip_display_name(&Some(vec![])), "None");
    assert_eq!(
        kmip_display_name(&Some(vec![KmipNameValue::Name("alpha".to_string())])),
        "alpha"
    );
    assert_eq!(
        kmip_display_name(&Some(vec![KmipNameValue::Text("beta".to_string())])),
        "beta"
    );
    assert_eq!(kmip_display_name(&Some(vec![KmipNameValue::Other])), "None");
    assert_eq!(
        kmip_display_name(&Some(vec![
            KmipNameValue::Other,
            KmipNameValue::Name("ignored".to_string()),
        ])),
        "None"
    );
}

#[test]
fn connection_settings_copy_the_descriptor_and_fix_the_timeouts() {
    let cfg = kmip_connection_settings(&opt_for("kmip:alice:pw@srv:5697")).unwrap();
    assert_eq!(cfg.host, "srv");
    assert_eq!(cfg.port, 5697);
    assert_eq!(cfg.username.as_deref(), Some("alice"));
    assert_eq!(cfg.password.as_deref(), Some("pw"));
    assert!(!cfg.insecure);
    assert!(cfg.client_cert.is_none());
    assert!(cfg.server_cert.is_none());
    assert!(cfg.ca_cert.is_none());
    assert_eq!(cfg.connect_timeout_secs, KMIP_TIMEOUT_SECS);
    assert_eq!(cfg.read_timeout_secs, 5);
    assert_eq!(cfg.write_timeout_secs, 5);
    assert!(cfg.max_response_bytes.is_none());
}

#[test]
fn settings_for_the_other_backend_are_refused() {
    let e = kmip_connection_settings(&opt_for("pkcs11:0@lib.so")).unwrap_err();
    assert_eq!(e.kind, ErrorKind::Parse);
    assert_eq!(e.message(), "Expected KMIP settings");
}

#[test]
fn invalid_credential_combination_beats_unreadable_files() {
    let mut opt = opt_for("kmip:h");
    opt.client_key_path = Some("/missing/key.pem".to_string());
    let e = kmip_connection_settings(&opt).unwrap_err();
    assert_eq!(e.kind, ErrorKind::Parse);

    let mut opt = opt_for("kmip:h");
    opt.client_cert_path = Some("/missing/cert.pem".to_string());
    opt.client_pkcs12_path = Some("/missing/bundle.p12".to_string());
    let e = kmip_connection_settings(&opt).unwrap_err();
    assert_eq!(e.kind, ErrorKind::Parse);
}

#[test]
fn unreadable_certificate_file_is_an_io_error() {
    let mut opt = opt_for("kmip:h");
    opt.server_cert_path = Some("/missing/server.pem".to_string());
    let e = kmip_connection_settings(&opt).unwrap_err();
    assert_eq!(e.kind, ErrorKind::Io);
}
