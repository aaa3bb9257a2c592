use price_resolver::chain::{
    chain_to_gecko_network, key_is_solana, network_of_key, Preference, TokenQuery,
};
use price_resolver::text::{decimal_text, join, same_text};

#[test]
fn gecko_network_table() {
    assert_eq!(chain_to_gecko_network("solana"), Some("solana"));
    assert_eq!(chain_to_gecko_network("ethereum"), Some("eth"));
    assert_eq!(chain_to_gecko_network("bsc"), Some("bsc"));
    assert_eq!(chain_to_gecko_network("base"), Some("base"));
    assert_eq!(chain_to_gecko_network("arbitrum"), Some("arbitrum"));
    assert_eq!(chain_to_gecko_network("polygon"), Some("polygon_pos"));
    assert_eq!(chain_to_gecko_network("avalanche"), Some("avax"));
    assert_eq!(chain_to_gecko_network("optimism"), Some("optimism"));
}

#[test]
fn gecko_network_ignores_case() {
    assert_eq!(chain_to_gecko_network("SOLANA"), Some("solana"));
    assert_eq!(chain_to_gecko_network("Ethereum"), Some("eth"));
    assert_eq!(chain_to_gecko_network("PolyGon"), Some("polygon_pos"));
    assert_eq!(chain_to_gecko_network("AVALANCHE"), Some("avax"));
}

#[test]
fn gecko_network_unknown_chain() {
    assert_eq!(chain_to_gecko_network("fantom"), None);
    assert_eq!(chain_to_gecko_network(""), None);
    assert_eq!(chain_to_gecko_network("eth"), None);
    assert_eq!(chain_to_gecko_network("solana "), None);
    assert_eq!(chain_to_gecko_network("polygon_pos"), None);
}

#[test]
fn network_of_key_is_exact() {
    assert_eq!(network_of_key("polygon"), Some("polygon_pos"));
    assert_eq!(network_of_key("Polygon"), None);
    assert_eq!(network_of_key("SOLANA"), None);
    assert!(key_is_solana("solana"));
    assert!(!key_is_solana("Solana"));
    assert!(!key_is_solana("ethereum"));
}

#[test]
fn preference_words() {
    assert_eq!(Preference::from_word(Some("gecko")), Preference::Gecko);
    assert_eq!(Preference::from_word(Some("dexscreener")), Preference::DexScreener);
    assert_eq!(Preference::from_word(Some("Gecko")), Preference::Unstated);
    assert_eq!(Preference::from_word(Some("jupiter")), Preference::Unstated);
    assert_eq!(Preference::from_word(Some("")), Preference::Unstated);
    assert_eq!(Preference::from_word(None), Preference::Unstated);
}

#[test]
fn query_holds_lower_case_keys() {
    let query = TokenQuery::new(
        "Solana".to_string(),
        "So11111111111111111111111111111111111111112".to_string(),
        Some("PAIR".to_string()),
    );
    assert_eq!(query.chain_id, "Solana");
    assert_eq!(query.chain_key, "solana");
    assert_eq!(query.address, "So11111111111111111111111111111111111111112");
    assert_eq!(query.address_key, "so11111111111111111111111111111111111111112");
    assert_eq!(query.pair_address, Some("PAIR".to_string()));
}

#[test]
fn query_from_parts_keeps_what_it_is_given() {
    let query = TokenQuery::from_parts(
        "A".to_string(),
        "b".to_string(),
        "C".to_string(),
        "d".to_string(),
        None,
    );
    assert_eq!(query.chain_id, "A");
    assert_eq!(query.chain_key, "b");
    assert_eq!(query.address, "C");
    assert_eq!(query.address_key, "d");
    assert_eq!(query.pair_address, None);
}

#[test]
fn text_helpers() {
    assert!(same_text("abc", "abc"));
    assert!(!same_text("abc", "abd"));
    assert!(!same_text("abc", "ab"));
    assert!(same_text("", ""));
    assert!(!same_text("é", "e"));
    assert_eq!(join("ab", "cd"), "abcd");
    assert_eq!(join("", "x"), "x");
    assert_eq!(join("x", ""), "x");
}

#[test]
fn decimal_text_matches_display() {
    for value in [0u64, 1, 9, 10, 11, 99, 100, 101, 1_700_000_000, 9_999_999_999, u64::MAX] {
        assert_eq!(decimal_text(value), value.to_string());
    }
    assert_eq!(decimal_text(1234567890), "1234567890");
    assert_eq!(decimal_text(u64::MAX), "18446744073709551615");
}
