use forloop::config::{ForloopCli, ForloopConfig};

#[test]
fn test_cli_parsing() {
    let args = vec![
        "forloop".to_string(),
        "--new-loop".to_string(),
        "https://example.onion".to_string(),
    ];

    let cli = ForloopCli::parse_args(&args);
    assert!(cli.new_loop);
    assert_eq!(cli.url, Some("https://example.onion".to_string()));
}

#[test]
fn test_cli_bridges() {
    let args = vec![
        "forloop".to_string(),
        "--use-bridges".to_string(),
        "--bridge".to_string(),
        "obfs4 192.168.1.1:443".to_string(),
    ];

    let cli = ForloopCli::parse_args(&args);
    assert!(cli.use_bridges);
    assert_eq!(cli.bridges.len(), 1);
}

#[test]
fn cli_flags_unknown_options_and_dangling_bridge() {
    let args: Vec<String> = ["forloop", "-k", "-v", "-V", "-h", "--other", "a", "b", "--bridge"]
        .iter()
        .map(|s| s.to_string())
        .collect();
    let cli = ForloopCli::parse_args(&args);
    assert!(cli.kill_all_state && cli.verbose && cli.version && cli.help);
    assert!(!cli.new_loop && !cli.use_bridges);
    assert_eq!(cli.url, Some("b".to_string()));
    assert!(cli.bridges.is_empty());
    let only_program = ForloopCli::parse_args(&["forloop".to_string()]);
    assert_eq!(only_program.url, None);
}

#[test]
fn test_config_defaults() {
    let config = ForloopConfig::default();

    assert!(!config.cookies_enabled);
    assert!(!config.local_storage_enabled);
    assert!(!config.webrtc_enabled);
    assert!(!config.telemetry_enabled);
    assert!(config.new_circuit_per_request);
}

#[test]
fn test_config_verification() {
    let config = ForloopConfig::default();
    config.verify_secure();
}

#[test]
fn security_violations_are_named() {
    let mut config = ForloopConfig::get();
    assert_eq!(config.security_violation(), None);
    assert_eq!(config.tor_socks_port, 9150);
    config.cookies_enabled = true;
    assert_eq!(config.security_violation(), Some("Cookies must be disabled"));
    config.cookies_enabled = false;
    config.new_circuit_per_request = false;
    assert_eq!(config.security_violation(), Some("New circuit per request must be enabled"));
}
