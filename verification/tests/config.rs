use openswap_maker::error::WalletFault;
use openswap_maker::maker::config::{
    ConfigFault, MakerConfig, MakerServerConfig, RateTexts, ServerRates, DEFAULT_FEE_PCT,
};
use openswap_maker::protocol::common_messages::{ProtocolVersion, RateBits};
use openswap_maker::settings::{lookup, parse_number, parse_settings};

fn rate(text: &str) -> Option<RateBits> {
    let fields = parse_settings(text);
    let value = lookup(&fields, "amount_relative_fee_pct")?;
    Some(RateBits(value.parse::<f64>().ok()?.to_bits()))
}

fn load(text: &str) -> Result<MakerConfig, ConfigFault> {
    MakerConfig::from_text(text, rate(text))
}

fn server_rates() -> ServerRates {
    ServerRates {
        amount_relative_fee_pct: RateBits(0.0025f64.to_bits()),
        time_relative_fee_pct: RateBits(0.0001f64.to_bits()),
        fidelity_feerate: RateBits(2.0f64.to_bits()),
    }
}

#[test]
fn config_test_valid_config() {
    let contents = r#"
            network_port = 6102
            rpc_port = 6103
            min_swap_amount = 10000
            socks_port = 9050
        "#;
    let config = load(contents).unwrap();

    let default_config = MakerConfig::default();
    assert_eq!(config, default_config);
}

#[test]
fn config_test_missing_fields() {
    let contents = r#"
            [maker_config]
            network_port = 6103
        "#;
    let config = load(contents).unwrap();

    assert_eq!(config.network_port, 6103);
    assert_eq!(
        MakerConfig {
            network_port: 6102,
            ..config
        },
        MakerConfig::default()
    );
}

#[test]
fn config_test_incorrect_data_type() {
    let contents = r#"
            [maker_config]
            network_port = "not_a_number"
        "#;
    let config = load(contents).unwrap();

    assert_eq!(config, MakerConfig::default());
}

#[test]
fn config_test_missing_file() {
    let contents = MakerConfig::default().to_text("0.1");
    let config = load(&contents).unwrap();
    assert_eq!(config, MakerConfig::default());
}

#[test]
fn test_fidelity_timelock_validation_cases() {
    let cases = vec![
        (12_960, true),
        (15_000, true),
        (25_920, true),
        (12_000, false),
        (30_000, false),
    ];

    for (timelock, should_pass) in cases {
        let contents = format!("fidelity_timelock = {}", timelock);

        let result = load(&contents);

        assert_eq!(
            result.is_ok(),
            should_pass,
            "timelock {} validation mismatch",
            timelock
        );
    }
}

#[test]
fn default_rate_is_one_tenth() {
    assert_eq!(DEFAULT_FEE_PCT, 0.1f64.to_bits());
}

#[test]
fn rejected_timelocks_are_named() {
    assert_eq!(
        load("fidelity_timelock = 12959").unwrap_err(),
        ConfigFault::TimelockTooLow(12_959)
    );
    assert_eq!(
        load("fidelity_timelock = 25921").unwrap_err(),
        ConfigFault::TimelockTooHigh(25_921)
    );
}

#[test]
fn written_config_is_read_back() {
    let config = MakerConfig {
        rpc_port: 1,
        network_port: 65535,
        control_port: 0,
        socks_port: 19050,
        tor_auth_password: "a = b # c".to_string(),
        min_swap_amount: u64::MAX,
        fidelity_amount: 7,
        fidelity_timelock: 20_000,
        base_fee: 12_345_678_901,
        amount_relative_fee_pct: RateBits(2.5f64.to_bits()),
    };
    let text = config.to_text("2.5");
    assert_eq!(load(&text).unwrap(), config);
    assert!(text.starts_with(
        "# Maker Configuration File\n# Network port for client connections\nnetwork_port = 65535\n"
    ));
    assert!(text.contains("# Control port for Tor  interface\ncontrol_port = 0\n"));
    assert!(text.contains(
        "# Fidelity Bond relative timelock in number of blocks \nfidelity_timelock = 20000\n"
    ));
}

#[test]
fn later_settings_go_first_and_noise_is_skipped() {
    let fields = parse_settings("a = 1\n# a = 2\n[a = 3]\n\n  b=2=3\r\nnothing\na = 4");
    assert_eq!(lookup(&fields, "a").unwrap(), "4");
    assert_eq!(lookup(&fields, "b").unwrap(), "2=3");
    assert!(lookup(&fields, "nothing").is_none());
    assert_eq!(fields.len(), 3);
}

#[test]
fn numbers_are_read_within_their_bounds() {
    assert_eq!(parse_number("65535", 65535), Some(65535));
    assert_eq!(parse_number("65536", 65535), None);
    assert_eq!(parse_number("+7", 65535), Some(7));
    assert_eq!(parse_number("007", 65535), Some(7));
    assert_eq!(parse_number("-7", 65535), None);
    assert_eq!(parse_number("", 65535), None);
    assert_eq!(parse_number("+", 65535), None);
    assert_eq!(parse_number("18446744073709551615", u64::MAX), Some(u64::MAX));
    assert_eq!(parse_number("18446744073709551616", u64::MAX), None);
}

#[test]
fn server_config_has_its_own_defaults() {
    let config = MakerServerConfig::from_text("", server_rates()).unwrap();
    assert_eq!(config.network_port, 6102);
    assert_eq!(config.rpc_port, 6103);
    assert_eq!(config.base_fee, 500);
    assert_eq!(config.min_swap_amount, 10_000);
    assert_eq!(config.required_confirms, 1);
    assert_eq!(config.fidelity_amount, 10_000);
    assert_eq!(config.fidelity_timelock, 15_000);
    assert_eq!(config.control_port, 9051);
    assert_eq!(config.socks_port, 9050);
    assert_eq!(config.tor_auth_password, "");
    assert_eq!(
        config.supported_protocols,
        vec![ProtocolVersion::Legacy, ProtocolVersion::Taproot]
    );
}

#[test]
fn server_config_is_checked() {
    assert!(matches!(
        MakerServerConfig::from_text("fidelity_timelock = 12959", server_rates()),
        Err(WalletFault::InvalidBondLocktime)
    ));
    assert!(matches!(
        MakerServerConfig::from_text("fidelity_timelock = 25921", server_rates()),
        Err(WalletFault::InvalidBondLocktime)
    ));
    assert!(matches!(
        MakerServerConfig::from_text("min_swap_amount = 9999", server_rates()),
        Err(WalletFault::InsufficientFund {
            available: 9999,
            required: 10_000
        })
    ));
}

#[test]
fn written_server_config_is_read_back() {
    let mut config = MakerServerConfig::from_text("", server_rates()).unwrap();
    config.network_port = 1234;
    config.tor_auth_password = "secret".to_string();
    config.required_confirms = 6;
    let text = config.to_text(&RateTexts {
        amount_relative_fee_pct: "0.0025".to_string(),
        time_relative_fee_pct: "0.0001".to_string(),
        fidelity_feerate: "2".to_string(),
        least_feerate: "1.5".to_string(),
    });
    assert!(text.starts_with(
        "# Maker Configuration File\n\n# Network port for client connections\nnetwork_port = 1234\n"
    ));
    assert!(text.contains(
        "# Fee rate in sats/vB for the fidelity bond transaction (must be at least 1.5)\nfidelity_feerate = 2\n"
    ));
    assert_eq!(MakerServerConfig::from_text(&text, server_rates()).unwrap(), config);
    let fields = parse_settings(&text);
    assert_eq!(lookup(&fields, "fidelity_feerate").unwrap(), "2");
}

#[test]
fn the_terms_are_those_of_the_server() {
    let config = MakerServerConfig::from_text("base_fee = 777", server_rates()).unwrap();
    let terms = config.get_config(Some(90_000));
    assert_eq!(terms.base_fee, 777);
    assert_eq!(terms.amount_relative_fee_pct, config.amount_relative_fee_pct);
    assert_eq!(terms.time_relative_fee_pct, config.time_relative_fee_pct);
    assert_eq!(terms.min_swap_amount, config.min_swap_amount);
    assert_eq!(terms.max_swap_amount, 90_000);
    assert_eq!(terms.required_confirms, 1);
    assert_eq!(terms.supported_protocols, config.supported_protocols);
    assert_eq!(config.get_config(None).max_swap_amount, u64::MAX);
}
