//! Orchestrator scenarios: deterministic ordering and the two
//! fetch-failure policies.

use keyls::config::{parse_server, ServerOpt};
use keyls::error::ErrorKind;
use keyls::inventory::{
    assemble_inventory, fetch_failure_policy, merge_fetch_results, sort_keys, FetchPolicy,
};
use keyls::key::{Key, KeyType};

fn record(id: &str) -> Key {
    Key {
        id: id.to_string(),
        typ: KeyType::Public,
        name: "n".to_string(),
        alg: "RSA".to_string(),
        len: "2048".to_string(),
    }
}

#[test]
fn inventory_is_sorted_by_id() {
    let private = vec![Ok(record("B1")), Ok(record("A2"))];
    let public = vec![Ok(record("C0"))];
    let keys = assemble_inventory(FetchPolicy::Fatal, private, public).unwrap();
    let ids: Vec<&str> = keys.iter().map(|k| k.id.as_str()).collect();
    assert_eq!(ids, vec!["A2", "B1", "C0"]);
}

#[test]
fn sort_is_bytewise_ascending_and_keeps_duplicates() {
    let keys = vec![record("b"), record("B"), record("10"), record("2"), record("b")];
    let sorted = sort_keys(keys);
    let ids: Vec<&str> = sorted.iter().map(|k| k.id.as_str()).collect();
    assert_eq!(ids, vec!["10", "2", "B", "b", "b"]);
}

#[test]
fn token_fetch_failure_skips_the_record() {
    let results = vec![
        Ok(record("K1")),
        Ok(record("K2")),
        Err("attribute request rejected".to_string()),
        Ok(record("K4")),
        Ok(record("K5")),
    ];
    let keys = merge_fetch_results(FetchPolicy::Skip, results).unwrap();
    assert_eq!(keys.len(), 4);
    let ids: Vec<&str> = keys.iter().map(|k| k.id.as_str()).collect();
    assert_eq!(ids, vec!["K1", "K2", "K4", "K5"]);
}

#[test]
fn kmip_fetch_failure_aborts_the_whole_run() {
    let results = vec![
        Ok(record("K1")),
        Ok(record("K2")),
        Err("bad payload".to_string()),
        Ok(record("K4")),
        Ok(record("K5")),
    ];
    let e = merge_fetch_results(FetchPolicy::Fatal, results).unwrap_err();
    assert_eq!(e.kind, ErrorKind::Fetch);
    assert_eq!(e.message(), "bad payload");
}

#[test]
fn fatal_policy_aborts_across_kind_runs_with_no_partial_output() {
    let private = vec![Ok(record("P1"))];
    let public = vec![Err("boom".to_string()), Ok(record("U1"))];
    let e = assemble_inventory(FetchPolicy::Fatal, private, public).unwrap_err();
    assert_eq!(e.kind, ErrorKind::Fetch);
    assert_eq!(e.message(), "boom");
}

#[test]
fn skip_policy_assembles_the_survivors_sorted() {
    let private = vec![Ok(record("Z")), Err("x".to_string())];
    let public = vec![Ok(record("A"))];
    let keys = assemble_inventory(FetchPolicy::Skip, private, public).unwrap();
    let ids: Vec<&str> = keys.iter().map(|k| k.id.as_str()).collect();
    assert_eq!(ids, vec!["A", "Z"]);
}

#[test]
fn policy_follows_the_backend_kind() {
    let kmip = parse_server("kmip:host").unwrap();
    let token = parse_server("pkcs11:0@lib.so").unwrap();
    assert_eq!(fetch_failure_policy(&kmip), FetchPolicy::Fatal);
    assert_eq!(fetch_failure_policy(&token), FetchPolicy::Skip);
    assert!(matches!(kmip, ServerOpt::Kmip(_)));
    assert!(matches!(token, ServerOpt::Pkcs11(_)));
}

#[test]
fn empty_backend_yields_empty_inventory() {
    let keys = assemble_inventory(FetchPolicy::Fatal, vec![], vec![]).unwrap();
    assert!(keys.is_empty());
}
