use agent_core::sandbox::SandboxConfig;

#[test]
fn sandbox_config_has_fuel_limit_and_timeout_fields() {
    let cfg = SandboxConfig {
        fuel_limit: 1_000_000,
        timeout_secs: Some(30),
    };
    assert_eq!(cfg.fuel_limit, 1_000_000);
    assert_eq!(cfg.timeout_secs, Some(30));
}

#[test]
fn sandbox_config_timeout_is_optional() {
    let cfg = SandboxConfig {
        fuel_limit: 0,
        timeout_secs: None,
    };
    assert_eq!(cfg.timeout_secs, None);
}
