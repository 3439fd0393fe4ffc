use crunch::health::{ends_request, health_response, HEALTH_RESPONSE};
use crunch::identity::{
    address_prefix, resolve_identity, ChainIdentity, IdentityError, SupportedRuntime,
};
use crunch::random::random_wait;
use crunch::seed::clean_seed;
use crunch::storage_key::{get_account_id_from_storage_key, try_account_id_from_storage_key};

#[test]
fn token_symbols_resolve() {
    assert_eq!(SupportedRuntime::from_token_symbol("DOT"), Some(SupportedRuntime::Polkadot));
    assert_eq!(SupportedRuntime::from_token_symbol("KSM"), Some(SupportedRuntime::Kusama));
    assert_eq!(SupportedRuntime::from_token_symbol("WND"), Some(SupportedRuntime::Westend));
    assert_eq!(SupportedRuntime::from_token_symbol("CTC"), Some(SupportedRuntime::Creditcoin));
}

#[test]
fn unknown_token_symbol_is_rejected() {
    assert_eq!(SupportedRuntime::from_token_symbol("dot"), None);
    assert_eq!(SupportedRuntime::from_token_symbol(""), None);
    assert_eq!(SupportedRuntime::from_token_symbol("DOTS"), None);
    assert_eq!(resolve_identity(Some(2), Some("ABC")), Err(IdentityError::UnknownTokenSymbol));
    assert_eq!(resolve_identity(Some(2), None), Err(IdentityError::UnknownTokenSymbol));
}

#[test]
fn identity_carries_address_prefix() {
    assert_eq!(
        resolve_identity(Some(2), Some("KSM")),
        Ok(ChainIdentity { runtime: SupportedRuntime::Kusama, address_prefix: 2 })
    );
    assert_eq!(
        resolve_identity(None, Some("DOT")),
        Ok(ChainIdentity { runtime: SupportedRuntime::Polkadot, address_prefix: 0 })
    );
    assert_eq!(resolve_identity(Some(70000), Some("DOT")), Err(IdentityError::AddressPrefixOutOfRange));
    assert_eq!(address_prefix(Some(42)), Some(42));
    assert_eq!(address_prefix(Some(65536)), None);
}

#[test]
fn account_id_is_last_32_bytes() {
    let key: Vec<u8> = (0u8..48).collect();
    let id = get_account_id_from_storage_key(&key);
    assert_eq!(id.bytes, (16u8..48).collect::<Vec<u8>>());
    let exact: Vec<u8> = (100u8..132).collect();
    assert_eq!(get_account_id_from_storage_key(&exact).as_bytes(), &exact[..]);
}

#[test]
fn short_key_has_no_account() {
    let key: Vec<u8> = vec![1; 31];
    assert!(try_account_id_from_storage_key(&key).is_none());
    let key: Vec<u8> = vec![9; 33];
    assert_eq!(try_account_id_from_storage_key(&key).unwrap().bytes, vec![9; 32]);
}

#[test]
fn seed_is_trimmed_and_cleaned() {
    assert_eq!(clean_seed("  //Alice\u{1}\u{1f}x\n "), "//Alicex");
    assert_eq!(clean_seed("a\tb"), "ab");
    assert_eq!(clean_seed("plain words"), "plain words");
}

#[test]
fn random_wait_stays_below_max() {
    for _ in 0..100 {
        assert!(random_wait(10) < 10);
    }
    assert_eq!(random_wait(1), 0);
}

#[test]
fn probe_gets_fixed_reply() {
    let a = vec!["GET / HTTP/1.1".to_string(), "Host: x".to_string()];
    let b = vec!["garbage".to_string()];
    assert_eq!(health_response(&a), "HTTP/1.1 200 OK\r\n\r\n");
    assert_eq!(health_response(&b), HEALTH_RESPONSE);
    assert_eq!(health_response(&[]), HEALTH_RESPONSE);
    assert!(ends_request(""));
    assert!(!ends_request("Host: x"));
}
