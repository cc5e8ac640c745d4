use zallet::config::{BuilderSection, LimitsSection, RpcSection, ZalletConfig};

fn default_config() -> ZalletConfig {
    ZalletConfig {
        broadcast: None,
        export_dir: None,
        notify: None,
        require_backup: None,
        builder: BuilderSection { spend_zeroconf_change: None, tx_expiry_delta: None },
        limits: LimitsSection { orchard_actions: None },
        rpc: RpcSection { bind: Vec::new(), timeout: None },
    }
}

#[test]
fn defaults_apply_when_nothing_is_configured() {
    let c = default_config();
    assert!(c.broadcast());
    assert!(c.require_backup());
    assert!(c.builder.spend_zeroconf_change());
    assert_eq!(c.builder.tx_expiry_delta(), 40);
    assert_eq!(c.limits.orchard_actions(), 50);
    assert_eq!(c.rpc.timeout(), 30);
}

#[test]
fn explicit_values_are_preserved() {
    let mut c = default_config();
    c.broadcast = Some(false);
    c.require_backup = Some(false);
    c.builder.spend_zeroconf_change = Some(false);
    c.builder.tx_expiry_delta = Some(41);
    c.limits.orchard_actions = Some(7);
    c.rpc.timeout = Some(90);
    assert!(!c.broadcast());
    assert!(!c.require_backup());
    assert!(!c.builder.spend_zeroconf_change());
    assert_eq!(c.builder.tx_expiry_delta(), 41);
    assert_eq!(c.limits.orchard_actions(), 7);
    assert_eq!(c.rpc.timeout(), 90);
}

#[test]
fn explicitly_configuring_the_default_is_distinguishable() {
    let mut c = default_config();
    c.builder.tx_expiry_delta = Some(40);
    assert_eq!(c.builder.tx_expiry_delta(), 40);
    assert_eq!(c.builder.tx_expiry_delta, Some(40));
}
