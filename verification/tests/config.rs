use tickflow::config::{AppConfig, ConfigError, IngestionConfig, channel_capacity_setting, parse_usize_dec};

fn all_set() -> (
    Option<String>,
    Option<String>,
    Option<String>,
    Option<String>,
    Option<String>,
    Option<String>,
) {
    (
        Some("postgres://localhost/ticks".to_string()),
        Some("key".to_string()),
        Some("secret".to_string()),
        Some("wss://example.invalid/stream".to_string()),
        Some("symbols.csv".to_string()),
        Some("not-a-real-key".to_string()),
    )
}

#[test]
fn from_values_accepts_a_complete_configuration() {
    let (db, key, secret, ws, path, pk) = all_set();
    let config = AppConfig::from_values(db, key, secret, ws, path, pk, Some(b"42".to_vec()))
        .expect("complete configuration must be accepted");
    assert_eq!(config.database_url, "postgres://localhost/ticks");
    assert_eq!(config.alpaca_api_key, "key");
    assert_eq!(config.alpaca_api_secret, "secret");
    assert_eq!(config.alpaca_ws_url, "wss://example.invalid/stream");
    assert_eq!(config.symbols_path, "symbols.csv");
    assert_eq!(config.channel_capacity, 42);
}

#[test]
fn from_values_reports_the_first_missing_setting() {
    let (db, key, secret, ws, path, pk) = all_set();
    let r = AppConfig::from_values(None, key, secret, ws, path, pk, None);
    assert_eq!(r.err(), Some(ConfigError::MissingDatabaseUrl));

    let (db, _, secret, ws, path, pk) = all_set();
    let r = AppConfig::from_values(db, None, secret, ws, path, pk, None);
    assert_eq!(r.err(), Some(ConfigError::MissingAlpacaApiKey));

    let (db, key, _, ws, path, pk) = all_set();
    let r = AppConfig::from_values(db, key, None, ws, path, pk, None);
    assert_eq!(r.err(), Some(ConfigError::MissingAlpacaApiSecret));

    let (db, key, secret, _, path, pk) = all_set();
    let r = AppConfig::from_values(db, key, secret, None, path, pk, None);
    assert_eq!(r.err(), Some(ConfigError::MissingAlpacaWsUrl));

    let (db, key, secret, ws, _, pk) = all_set();
    let r = AppConfig::from_values(db, key, secret, ws, None, pk, None);
    assert_eq!(r.err(), Some(ConfigError::MissingSymbolsPath));

    let (db, key, secret, ws, path, _) = all_set();
    let r = AppConfig::from_values(db, key, secret, ws, path, None, None);
    assert_eq!(r.err(), Some(ConfigError::MissingPolymarketKey));
}

#[test]
fn channel_size_falls_back_to_the_default() {
    let (db, key, secret, ws, path, pk) = all_set();
    let config = AppConfig::from_values(db, key, secret, ws, path, pk, None).unwrap();
    assert_eq!(config.channel_capacity, 1000);

    let (db, key, secret, ws, path, pk) = all_set();
    let config =
        AppConfig::from_values(db, key, secret, ws, path, pk, Some(b"not a number".to_vec()))
            .unwrap();
    assert_eq!(config.channel_capacity, 1000);
}

#[test]
fn parse_usize_dec_reads_numerals_exactly() {
    assert_eq!(parse_usize_dec(b"0"), Some(0));
    assert_eq!(parse_usize_dec(b"1000"), Some(1000));
    assert_eq!(parse_usize_dec(b"+250"), Some(250));
    assert_eq!(parse_usize_dec(b""), None);
    assert_eq!(parse_usize_dec(b"+"), None);
    assert_eq!(parse_usize_dec(b"12a"), None);
    assert_eq!(parse_usize_dec(b" 12"), None);
    assert_eq!(parse_usize_dec(b"-12"), None);
    assert_eq!(
        parse_usize_dec(usize::MAX.to_string().as_bytes()),
        Some(usize::MAX)
    );
    assert_eq!(parse_usize_dec(b"999999999999999999999999999"), None);
}

#[test]
fn channel_capacity_setting_matches_the_runtime_rule() {
    assert_eq!(channel_capacity_setting(None), 1000);
    assert_eq!(channel_capacity_setting(Some(b"7")), 7);
    assert_eq!(channel_capacity_setting(Some(b"oops")), 1000);
}

#[test]
fn ingestion_config_points_at_the_stock_stream() {
    let config = IngestionConfig::new(
        "key".to_string(),
        "secret".to_string(),
        vec!["AAPL".to_string(), "TSLA".to_string()],
    );
    assert_eq!(config.api_key, "key");
    assert_eq!(config.api_secret, "secret");
    assert_eq!(config.base_url, "wss://stream.data.alpaca.markets/v2/iex");
    assert_eq!(config.symbols, vec!["AAPL".to_string(), "TSLA".to_string()]);
}
