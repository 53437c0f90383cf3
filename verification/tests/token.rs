//! Hardware-token scenarios: pagination termination, slot resolution, and
//! attribute normalization.

use keyls::error::ErrorKind;
use keyls::key::KeyType;
use keyls::pkcs11::{
    find_slot_by_id, label_matches, token_key_from_attrs, PagedSearch, TokenAttr, TokenClass,
    TokenKeyKind, PAGE_SIZE,
};

#[test]
fn pagination_stops_after_the_empty_page_following_a_full_one() {
    let mut search = PagedSearch::new();
    assert!(!search.done);
    search.feed((0..PAGE_SIZE as u64).collect());
    assert!(!search.done);
    search.feed(Vec::new());
    assert!(search.done);
    assert_eq!(search.handles.len(), PAGE_SIZE);
}

#[test]
fn pagination_stops_after_a_short_second_page() {
    let mut search = PagedSearch::new();
    search.feed((0..PAGE_SIZE as u64).collect());
    assert!(!search.done);
    search.feed((0..30).collect());
    assert!(search.done);
    assert_eq!(search.handles.len(), PAGE_SIZE + 30);
}

#[test]
fn one_short_page_ends_the_search_at_once() {
    let mut search = PagedSearch::new();
    search.feed(vec![7, 8, 9]);
    assert!(search.done);
    assert_eq!(search.handles, vec![7, 8, 9]);
}

#[test]
fn attributes_normalize_into_one_record() {
    let attrs = vec![
        TokenAttr::Class(TokenClass::PublicKey),
        TokenAttr::Id(vec![0xAB, 0x01]),
        TokenAttr::KeyKind(TokenKeyKind::Rsa),
        TokenAttr::Label(b"mykey".to_vec()),
        TokenAttr::ModulusBits(2048),
    ];
    let key = token_key_from_attrs(&attrs).unwrap();
    assert_eq!(key.id, "AB01");
    assert_eq!(key.typ, KeyType::Public);
    assert_eq!(key.alg, "RSA");
    assert_eq!(key.name, "mykey");
    assert_eq!(key.len, "2048");
}

#[test]
fn non_rsa_key_type_and_missing_attributes_fall_back() {
    let attrs = vec![
        TokenAttr::Class(TokenClass::PrivateKey),
        TokenAttr::KeyKind(TokenKeyKind::Other),
    ];
    let key = token_key_from_attrs(&attrs).unwrap();
    assert_eq!(key.typ, KeyType::Private);
    assert_eq!(key.alg, "Non-RSA");
    assert_eq!(key.id, "");
    assert_eq!(key.name, "");
    assert_eq!(key.len, "unknown");
}

#[test]
fn undetermined_algorithm_and_length_read_unknown() {
    let attrs = vec![TokenAttr::Class(TokenClass::PublicKey)];
    let key = token_key_from_attrs(&attrs).unwrap();
    assert_eq!(key.typ, KeyType::Public);
    assert_eq!(key.alg, "unknown");
    assert_eq!(key.len, "unknown");
    assert_eq!(key.id, "");
    assert_eq!(key.name, "");
}

#[test]
fn unsupported_object_class_is_a_fetch_error() {
    let attrs = vec![TokenAttr::Class(TokenClass::Other)];
    let e = token_key_from_attrs(&attrs).unwrap_err();
    assert_eq!(e.kind, ErrorKind::Fetch);
    assert_eq!(e.message(), "Unsupported object class");
}

#[test]
fn hex_identifier_is_uppercase_two_digits_per_byte() {
    let attrs = vec![TokenAttr::Id(vec![0x00, 0x0f, 0xf0, 0xff])];
    let key = token_key_from_attrs(&attrs).unwrap();
    assert_eq!(key.id, "000FF0FF");
}

#[test]
fn label_comparison_trims_trailing_whitespace_only() {
    assert!(label_matches(&b"token1   ".to_vec(), "token1"));
    assert!(label_matches(&b"token1".to_vec(), "token1"));
    assert!(!label_matches(&b"   token1".to_vec(), "token1"));
    assert!(!label_matches(&b"token2".to_vec(), "token1"));
}

#[test]
fn slot_search_by_id_finds_the_first_match() {
    assert_eq!(find_slot_by_id(&vec![5, 3, 9, 3], 3), Some(1));
    assert_eq!(find_slot_by_id(&vec![5, 3, 9], 7), None);
    assert_eq!(find_slot_by_id(&vec![], 0), None);
}

#[test]
fn key_type_labels_for_the_listing() {
    assert_eq!(KeyType::Public.label(), "Public Key");
    assert_eq!(KeyType::Private.label(), "Private Key");
}
