//! Descriptor-grammar scenarios.

use keyls::config::{parse_server, ServerOpt, SlotSelector};
use keyls::error::ErrorKind;

#[test]
fn kmip_host_only_defaults() {
    match parse_server("kmip:host").unwrap() {
        ServerOpt::Kmip(k) => {
            assert_eq!(k.addr, "host");
            assert_eq!(k.port, 5696);
            assert!(k.user.is_none());
            assert!(k.pass.is_none());
        }
        _ => panic!("expected KMIP"),
    }
}

#[test]
fn kmip_full_credentials_and_port() {
    match parse_server("kmip:alice:secret@10.0.0.1:5697").unwrap() {
        ServerOpt::Kmip(k) => {
            assert_eq!(k.addr, "10.0.0.1");
            assert_eq!(k.port, 5697);
            assert_eq!(k.user.as_deref(), Some("alice"));
            assert_eq!(k.pass.as_deref(), Some("secret"));
        }
        _ => panic!("expected KMIP"),
    }
}

#[test]
fn kmip_bare_address_no_credentials() {
    match parse_server("kmip:10.0.0.1").unwrap() {
        ServerOpt::Kmip(k) => {
            assert_eq!(k.addr, "10.0.0.1");
            assert_eq!(k.port, 5696);
            assert!(k.user.is_none());
            assert!(k.pass.is_none());
        }
        _ => panic!("expected KMIP"),
    }
}

#[test]
fn kmip_user_without_password() {
    match parse_server("kmip:bob@host:1234").unwrap() {
        ServerOpt::Kmip(k) => {
            assert_eq!(k.addr, "host");
            assert_eq!(k.port, 1234);
            assert_eq!(k.user.as_deref(), Some("bob"));
            assert!(k.pass.is_none());
        }
        _ => panic!("expected KMIP"),
    }
}

#[test]
fn kmip_bad_port_rejected() {
    let e = parse_server("kmip:host:notaport").unwrap_err();
    assert_eq!(e.kind, ErrorKind::Parse);
    let e = parse_server("kmip:host:70000").unwrap_err();
    assert_eq!(e.kind, ErrorKind::Parse);
}

#[test]
fn kmip_port_with_plus_sign_like_std() {
    match parse_server("kmip:host:+5697").unwrap() {
        ServerOpt::Kmip(k) => assert_eq!(k.port, 5697),
        _ => panic!("expected KMIP"),
    }
}

#[test]
fn kmip_empty_host_passes_grammar() {
    match parse_server("kmip:").unwrap() {
        ServerOpt::Kmip(k) => {
            assert_eq!(k.addr, "");
            assert_eq!(k.port, 5696);
        }
        _ => panic!("expected KMIP"),
    }
}

#[test]
fn pkcs11_numeric_slot_with_pin() {
    match parse_server("pkcs11:0:1234@/opt/lib.so").unwrap() {
        ServerOpt::Pkcs11(p) => {
            assert!(matches!(p.slot, SlotSelector::ById(0)));
            assert_eq!(p.user_pin.as_deref(), Some("1234"));
            assert_eq!(p.lib_path, "/opt/lib.so");
        }
        _ => panic!("expected PKCS#11"),
    }
}

#[test]
fn pkcs11_label_without_pin() {
    match parse_server("pkcs11:mylabel@/opt/lib.so").unwrap() {
        ServerOpt::Pkcs11(p) => {
            match p.slot {
                SlotSelector::ByLabel(l) => assert_eq!(l, "mylabel"),
                _ => panic!("expected label selector"),
            }
            assert!(p.user_pin.is_none());
            assert_eq!(p.lib_path, "/opt/lib.so");
        }
        _ => panic!("expected PKCS#11"),
    }
}

#[test]
fn pkcs11_numeric_token_is_always_an_id() {
    match parse_server("pkcs11:42@lib.so").unwrap() {
        ServerOpt::Pkcs11(p) => assert!(matches!(p.slot, SlotSelector::ById(42))),
        _ => panic!("expected PKCS#11"),
    }
}

#[test]
fn pkcs11_missing_delimiter_rejected() {
    let e = parse_server("pkcs11:nodelimiter").unwrap_err();
    assert_eq!(e.kind, ErrorKind::Parse);
    assert_eq!(
        e.message(),
        "Missing '@' character in PKCS#11 server specification"
    );
}

#[test]
fn unknown_scheme_rejected() {
    assert!(parse_server("http:foo").is_err());
    assert!(parse_server("nocolonatall").is_err());
    assert!(parse_server("").is_err());
    let e = parse_server("kmips:host").unwrap_err();
    assert_eq!(e.kind, ErrorKind::Parse);
    assert!(e.message().contains("kmip:"));
}
