use starforge::config::{Config, NamedNetwork, NetworkConfig};
use starforge::endpoint::{check_parsed_url, ParsedUrl};
use starforge::error::NetworkError;
use starforge::network::{
    add_network, network_listing, plan_network_test, remove_network, rename_network, switch,
    validate_passphrase, validate_url, SwitchOutcome,
};

fn s(text: &str) -> String {
    text.to_string()
}

fn names(cfg: &Config) -> Vec<String> {
    cfg.networks.iter().map(|n| n.name.clone()).collect()
}

fn with_custom() -> Config {
    let mut cfg = Config::default_config();
    add_network(
        &mut cfg,
        s("local"),
        s("http://localhost:8000/"),
        Some(s("http://localhost:8000/soroban/rpc")),
        None,
        Some(s("Standalone Network ; February 2017")),
    )
    .unwrap();
    cfg
}

// ---------------------------------------------------------------------------
// Tests carried over from the original module
// ---------------------------------------------------------------------------

#[test]
fn test_validate_url_valid() {
    assert!(validate_url("Horizon", "https://horizon.stellar.org").is_ok());
    assert!(validate_url("Horizon", "http://localhost:8000").is_ok());
}

#[test]
fn test_validate_url_invalid() {
    assert!(validate_url("Horizon", "").is_err());
    assert!(validate_url("Horizon", "   ").is_err());
    assert!(validate_url("Horizon", "ftp://stellar.org").is_err());
    assert!(validate_url("Horizon", "not-a-valid-url").is_err());
}

#[test]
fn test_validate_passphrase() {
    assert!(validate_passphrase(&None).is_ok());
    assert!(validate_passphrase(&Some("Test SDF Network ; September 2015".to_string())).is_ok());
    assert!(validate_passphrase(&Some("".to_string())).is_err());
    assert!(validate_passphrase(&Some("   ".to_string())).is_err());
}

// ---------------------------------------------------------------------------
// Endpoint checks
// ---------------------------------------------------------------------------

#[test]
fn validate_url_reports_each_refusal() {
    assert_eq!(validate_url("Horizon", ""), Err(NetworkError::EmptyUrl { label: s("Horizon") }));
    assert_eq!(validate_url("Friendbot", " \t\n"), Err(NetworkError::EmptyUrl { label: s("Friendbot") }));
    assert_eq!(
        validate_url("Horizon", "ftp://stellar.org"),
        Err(NetworkError::UnsupportedScheme { label: s("Horizon"), scheme: s("ftp") })
    );
    assert_eq!(
        validate_url("Horizon", "not-a-valid-url"),
        Err(NetworkError::InvalidUrl {
            label: s("Horizon"),
            url: s("not-a-valid-url"),
            reason: s("relative URL without a base"),
        })
    );
}

#[test]
fn validate_url_quotes_the_untrimmed_text_and_parses_the_trimmed_one() {
    assert!(validate_url("Horizon", "  https://horizon.stellar.org  ").is_ok());
    assert_eq!(
        validate_url("Soroban RPC", "  http://  "),
        Err(NetworkError::InvalidUrl { label: s("Soroban RPC"), url: s("  http://  "), reason: s("empty host") })
    );
}

#[test]
fn validate_url_reads_the_scheme_of_the_parsed_url() {
    // The parser lowercases the scheme: the check sees "https", not the text as typed.
    assert!(validate_url("Horizon", "HTTPS://horizon.stellar.org").is_ok());
    assert_eq!(
        validate_url("Horizon", "mailto:someone@example.org"),
        Err(NetworkError::UnsupportedScheme { label: s("Horizon"), scheme: s("mailto") })
    );
}

#[test]
fn check_parsed_url_judges_each_case() {
    let ok = ParsedUrl { scheme: s("https"), host: Some(s("example.org")) };
    assert_eq!(check_parsed_url("Horizon", "u", Ok(ok)), Ok(()));
    let http = ParsedUrl { scheme: s("http"), host: Some(s("localhost")) };
    assert_eq!(check_parsed_url("Horizon", "u", Ok(http)), Ok(()));
    let no_host = ParsedUrl { scheme: s("http"), host: None };
    assert_eq!(check_parsed_url("Horizon", "u", Ok(no_host)), Err(NetworkError::MissingHost { label: s("Horizon") }));
    let ws = ParsedUrl { scheme: s("ws"), host: Some(s("h")) };
    assert_eq!(
        check_parsed_url("Horizon", "u", Ok(ws)),
        Err(NetworkError::UnsupportedScheme { label: s("Horizon"), scheme: s("ws") })
    );
    let httpx = ParsedUrl { scheme: s("httpx"), host: Some(s("h")) };
    assert!(check_parsed_url("Horizon", "u", Ok(httpx)).is_err());
    assert_eq!(
        check_parsed_url("Horizon", "u", Err(s("boom"))),
        Err(NetworkError::InvalidUrl { label: s("Horizon"), url: s("u"), reason: s("boom") })
    );
}

#[test]
fn passphrase_of_unicode_whitespace_is_blank() {
    assert_eq!(validate_passphrase(&Some(s("\u{3000}\u{a0} \u{2028}"))), Err(NetworkError::BlankPassphrase));
    assert!(validate_passphrase(&Some(s(" x "))).is_ok());
}

// ---------------------------------------------------------------------------
// Configuration
// ---------------------------------------------------------------------------

#[test]
fn default_config_holds_the_builtin_networks() {
    let cfg = Config::default_config();
    assert!(cfg.is_well_formed());
    assert_eq!(cfg.network, "testnet");
    assert_eq!(names(&cfg), vec![s("testnet"), s("mainnet")]);
}

#[test]
fn well_formedness_rejects_duplicates_and_missing_networks() {
    let mut cfg = Config::default_config();
    let copy = NamedNetwork { name: s("testnet"), config: cfg.networks[0].config.duplicate() };
    cfg.networks.push(copy);
    assert!(!cfg.is_well_formed());

    let mut cfg = Config::default_config();
    cfg.network = s("nowhere");
    assert!(!cfg.is_well_formed());

    let mut cfg = Config::default_config();
    cfg.networks.remove(1);
    assert!(!cfg.is_well_formed());
}

// ---------------------------------------------------------------------------
// switch
// ---------------------------------------------------------------------------

#[test]
fn switch_to_unknown_network_is_refused() {
    let mut cfg = Config::default_config();
    assert_eq!(switch(&mut cfg, s("devnet")), Err(NetworkError::UnknownNetwork { name: s("devnet") }));
    assert_eq!(cfg, Config::default_config());
}

#[test]
fn switch_to_active_network_changes_nothing() {
    let mut cfg = Config::default_config();
    assert_eq!(switch(&mut cfg, s("testnet")), Ok(SwitchOutcome::AlreadyActive));
    assert_eq!(cfg, Config::default_config());
}

#[test]
fn switch_to_mainnet_is_flagged_and_idempotent() {
    let mut cfg = Config::default_config();
    assert_eq!(
        switch(&mut cfg, s("mainnet")),
        Ok(SwitchOutcome::Switched { previous: s("testnet"), to_mainnet: true })
    );
    assert_eq!(cfg.network, "mainnet");
    assert_eq!(switch(&mut cfg, s("mainnet")), Ok(SwitchOutcome::AlreadyActive));
    assert_eq!(cfg.network, "mainnet");
}

#[test]
fn switch_to_custom_network_is_not_flagged() {
    let mut cfg = with_custom();
    assert_eq!(
        switch(&mut cfg, s("local")),
        Ok(SwitchOutcome::Switched { previous: s("testnet"), to_mainnet: false })
    );
    assert!(cfg.is_well_formed());
}

// ---------------------------------------------------------------------------
// add
// ---------------------------------------------------------------------------

#[test]
fn add_network_stores_normalized_endpoints() {
    let mut cfg = Config::default_config();
    let stored = add_network(
        &mut cfg,
        s("futurenet"),
        s("  https://horizon-futurenet.stellar.org///  "),
        Some(s("https://rpc-futurenet.stellar.org/ ")),
        Some(s(" https://friendbot-futurenet.stellar.org")),
        Some(s("Test SDF Future Network ; October 2022")),
    )
    .unwrap();
    let expected = NetworkConfig {
        horizon_url: s("https://horizon-futurenet.stellar.org"),
        soroban_rpc_url: Some(s("https://rpc-futurenet.stellar.org")),
        friendbot_url: Some(s("https://friendbot-futurenet.stellar.org")),
        passphrase: Some(s("Test SDF Future Network ; October 2022")),
    };
    assert_eq!(stored, expected);
    assert_eq!(names(&cfg), vec![s("testnet"), s("mainnet"), s("futurenet")]);
    assert_eq!(cfg.networks[2].config, expected);
    assert_eq!(cfg.network, "testnet");
    assert!(cfg.is_well_formed());
}

#[test]
fn add_network_without_passphrase_uses_the_testnet_passphrase() {
    let mut cfg = Config::default_config();
    let stored = add_network(&mut cfg, s("local"), s("http://localhost:8000"), None, None, None).unwrap();
    assert_eq!(stored.passphrase, Some(s("Test SDF Network ; September 2015")));
    assert_eq!(cfg.networks[2].config.passphrase, Some(s("Test SDF Network ; September 2015")));
    assert_eq!(cfg.networks[2].config.passphrase, cfg.networks[0].config.passphrase);
}

#[test]
fn error_messages() {
    assert_eq!(NetworkError::EmptyUrl { label: s("Horizon") }.message(), "Horizon URL cannot be empty");
    assert_eq!(
        NetworkError::InvalidUrl { label: s("Horizon"), url: s("x"), reason: s("relative URL without a base") }
            .message(),
        "Invalid Horizon URL 'x': relative URL without a base"
    );
    assert_eq!(
        NetworkError::UnsupportedScheme { label: s("Friendbot"), scheme: s("ftp") }.message(),
        "Friendbot URL scheme must be http or https, got 'ftp'"
    );
    assert_eq!(NetworkError::MissingHost { label: s("Soroban RPC") }.message(), "Soroban RPC URL missing valid host");
    assert_eq!(NetworkError::BlankPassphrase.message(), "Network passphrase cannot be empty or only whitespace");
    assert_eq!(NetworkError::UnknownNetwork { name: s("dev") }.message(), "Network 'dev' not found");
    assert_eq!(
        NetworkError::ReservedName { name: s("mainnet") }.message(),
        "'mainnet' is a built-in network and cannot be changed"
    );
    assert_eq!(NetworkError::AlreadyExists { name: s("local") }.message(), "Network 'local' already exists");
    assert_eq!(
        validate_url("Horizon", "ftp://stellar.org").unwrap_err().message(),
        "Horizon URL scheme must be http or https, got 'ftp'"
    );
}

#[test]
fn add_network_checks_endpoints_in_order() {
    let mut cfg = Config::default_config();
    assert_eq!(
        add_network(&mut cfg, s("x"), s(""), Some(s("ftp://a.org")), None, Some(s(""))),
        Err(NetworkError::EmptyUrl { label: s("Horizon") })
    );
    assert_eq!(
        add_network(&mut cfg, s("x"), s("https://a.org"), Some(s("ftp://a.org")), Some(s("")), Some(s(""))),
        Err(NetworkError::UnsupportedScheme { label: s("Soroban RPC"), scheme: s("ftp") })
    );
    assert_eq!(
        add_network(&mut cfg, s("x"), s("https://a.org"), None, Some(s("   ")), Some(s(""))),
        Err(NetworkError::EmptyUrl { label: s("Friendbot") })
    );
    assert_eq!(
        add_network(&mut cfg, s("x"), s("https://a.org"), None, None, Some(s(" "))),
        Err(NetworkError::BlankPassphrase)
    );
    assert_eq!(cfg, Config::default_config());
}

#[test]
fn add_network_refuses_taken_and_builtin_names() {
    let mut cfg = with_custom();
    let before = names(&cfg);
    assert_eq!(
        add_network(&mut cfg, s("local"), s("http://127.0.0.1:8000"), None, None, None),
        Err(NetworkError::AlreadyExists { name: s("local") })
    );
    assert_eq!(
        add_network(&mut cfg, s("mainnet"), s("http://127.0.0.1:8000"), None, None, None),
        Err(NetworkError::ReservedName { name: s("mainnet") })
    );
    assert_eq!(names(&cfg), before);
}

#[test]
fn add_then_remove_restores_the_configuration() {
    let original = Config::default_config();
    let mut cfg = Config::default_config();
    add_network(&mut cfg, s("local"), s("http://localhost:8000"), None, None, None).unwrap();
    assert_eq!(remove_network(&mut cfg, s("local")), Ok(false));
    assert_eq!(cfg, original);
}

// ---------------------------------------------------------------------------
// remove
// ---------------------------------------------------------------------------

#[test]
fn remove_active_network_falls_back_to_testnet() {
    let mut cfg = with_custom();
    switch(&mut cfg, s("local")).unwrap();
    assert_eq!(remove_network(&mut cfg, s("local")), Ok(true));
    assert_eq!(cfg.network, "testnet");
    assert_eq!(names(&cfg), vec![s("testnet"), s("mainnet")]);
    assert!(cfg.is_well_formed());
}

#[test]
fn remove_refuses_builtin_and_unknown_networks() {
    let mut cfg = with_custom();
    assert_eq!(remove_network(&mut cfg, s("testnet")), Err(NetworkError::ReservedName { name: s("testnet") }));
    assert_eq!(remove_network(&mut cfg, s("mainnet")), Err(NetworkError::ReservedName { name: s("mainnet") }));
    assert_eq!(remove_network(&mut cfg, s("ghost")), Err(NetworkError::UnknownNetwork { name: s("ghost") }));
    assert_eq!(cfg, with_custom());
}

// ---------------------------------------------------------------------------
// rename
// ---------------------------------------------------------------------------

#[test]
fn rename_keeps_place_settings_and_activity() {
    let mut cfg = with_custom();
    switch(&mut cfg, s("local")).unwrap();
    let settings = cfg.networks[2].config.duplicate();
    assert_eq!(rename_network(&mut cfg, s("local"), s("standalone")), Ok(()));
    assert_eq!(names(&cfg), vec![s("testnet"), s("mainnet"), s("standalone")]);
    assert_eq!(cfg.networks[2].config, settings);
    assert_eq!(cfg.network, "standalone");
    assert!(cfg.is_well_formed());
}

#[test]
fn rename_round_trip_restores_the_configuration() {
    let original = with_custom();
    let mut cfg = with_custom();
    rename_network(&mut cfg, s("local"), s("standalone")).unwrap();
    rename_network(&mut cfg, s("standalone"), s("local")).unwrap();
    assert_eq!(cfg, original);
}

#[test]
fn rename_refusals() {
    let mut cfg = with_custom();
    assert_eq!(
        rename_network(&mut cfg, s("testnet"), s("t2")),
        Err(NetworkError::ReservedName { name: s("testnet") })
    );
    assert_eq!(
        rename_network(&mut cfg, s("ghost"), s("t2")),
        Err(NetworkError::UnknownNetwork { name: s("ghost") })
    );
    assert_eq!(
        rename_network(&mut cfg, s("local"), s("mainnet")),
        Err(NetworkError::ReservedName { name: s("mainnet") })
    );
    assert_eq!(
        rename_network(&mut cfg, s("local"), s("local")),
        Err(NetworkError::AlreadyExists { name: s("local") })
    );
    assert_eq!(cfg, with_custom());
}

// ---------------------------------------------------------------------------
// show and test
// ---------------------------------------------------------------------------

#[test]
fn listing_marks_only_the_active_network() {
    let mut cfg = with_custom();
    switch(&mut cfg, s("mainnet")).unwrap();
    let listing = network_listing(&cfg);
    assert_eq!(listing.len(), 3);
    assert_eq!(listing.iter().map(|l| l.active).collect::<Vec<_>>(), vec![false, true, false]);
    assert_eq!(listing[0].name, "testnet");
    assert_eq!(listing[0].horizon_url, "https://horizon-testnet.stellar.org");
    assert_eq!(listing[0].friendbot_url, Some(s("https://friendbot.stellar.org")));
    assert_eq!(listing[2].horizon_url, "http://localhost:8000");
    assert_eq!(listing[2].soroban_rpc_url, Some(s("http://localhost:8000/soroban/rpc")));
    assert_eq!(listing[2].friendbot_url, None);
}

#[test]
fn connectivity_plan_defaults_to_the_active_network() {
    let cfg = Config::default_config();
    let plan = plan_network_test(&cfg, None).unwrap();
    assert_eq!(plan.network, "testnet");
    assert_eq!(plan.horizon_url, "https://horizon-testnet.stellar.org");
    assert_eq!(plan.health_url, "https://horizon-testnet.stellar.org/health");
    assert_eq!(plan.soroban_rpc_url, Some(s("https://soroban-testnet.stellar.org")));
}

#[test]
fn connectivity_plan_for_a_named_network() {
    let cfg = with_custom();
    let plan = plan_network_test(&cfg, Some(s("local"))).unwrap();
    assert_eq!(plan.health_url, "http://localhost:8000/health");
    let plan = plan_network_test(&cfg, Some(s("mainnet"))).unwrap();
    assert_eq!(plan.health_url, "https://horizon.stellar.org/health");
    assert_eq!(plan.soroban_rpc_url, None);
    assert_eq!(plan_network_test(&cfg, Some(s("ghost"))), Err(NetworkError::UnknownNetwork { name: s("ghost") }));
}
