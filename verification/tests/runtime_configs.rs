use domains_core::dispatch::{ensure_root, DispatchError, RawOrigin};
use domains_core::runtime_configs::{GenesisConfig, Pallet};

fn default_pallet() -> Pallet {
    GenesisConfig::default().build()
}

#[test]
fn genesis_defaults() {
    let config = GenesisConfig::default();
    assert!(!config.enable_domains);
    assert!(!config.enable_dynamic_cost_of_storage);
    assert!(!config.enable_balance_transfers);
    assert!(!config.enable_non_root_calls);
    assert_eq!(config.confirmation_depth_k, 100);
}

#[test]
fn genesis_sets_every_switch() {
    let config = GenesisConfig {
        enable_domains: true,
        enable_dynamic_cost_of_storage: true,
        enable_balance_transfers: false,
        enable_non_root_calls: true,
        confirmation_depth_k: 7,
    };
    let pallet = config.try_build().unwrap();
    assert!(pallet.enable_domains());
    assert!(pallet.enable_dynamic_cost_of_storage());
    assert!(!pallet.enable_balance_transfers());
    assert!(pallet.enable_non_root_calls());
    assert_eq!(pallet.confirmation_depth_k(), 7);
}

#[test]
fn confirmation_depth_of_zero_is_no_configuration() {
    let config = GenesisConfig { confirmation_depth_k: 0, ..GenesisConfig::default() };
    assert_eq!(config.try_build(), None);
}

#[test]
fn only_root_passes() {
    assert_eq!(ensure_root(RawOrigin::Root), Ok(()));
    assert_eq!(ensure_root(RawOrigin::Signed(1)), Err(DispatchError::BadOrigin));
    assert_eq!(ensure_root(RawOrigin::Unsigned), Err(DispatchError::BadOrigin));
}

#[test]
fn root_flips_the_switches() {
    let mut pallet = default_pallet();
    assert_eq!(pallet.set_enable_domains(RawOrigin::Root, true), Ok(()));
    assert!(pallet.enable_domains());
    assert_eq!(pallet.set_enable_balance_transfers(RawOrigin::Root, true), Ok(()));
    assert!(pallet.enable_balance_transfers());
    assert_eq!(pallet.set_enable_non_root_calls(RawOrigin::Root, true), Ok(()));
    assert!(pallet.enable_non_root_calls());
    assert_eq!(pallet.set_enable_domains(RawOrigin::Root, false), Ok(()));
    assert!(!pallet.enable_domains());
    assert!(pallet.enable_balance_transfers());
    assert!(!pallet.enable_dynamic_cost_of_storage());
    assert_eq!(pallet.confirmation_depth_k(), 100);
}

#[test]
fn others_flip_nothing() {
    let mut pallet = default_pallet();
    for origin in [RawOrigin::Signed(0), RawOrigin::Unsigned] {
        assert_eq!(pallet.set_enable_domains(origin, true), Err(DispatchError::BadOrigin));
        assert_eq!(
            pallet.set_enable_dynamic_cost_of_storage(origin, true),
            Err(DispatchError::BadOrigin)
        );
        assert_eq!(
            pallet.set_enable_balance_transfers(origin, true),
            Err(DispatchError::BadOrigin)
        );
        assert_eq!(pallet.set_enable_non_root_calls(origin, true), Err(DispatchError::BadOrigin));
    }
    assert_eq!(pallet, default_pallet());
}

#[test]
fn dynamic_cost_switch_is_stored_with_the_balance_transfers() {
    let mut pallet = default_pallet();
    assert_eq!(pallet.set_enable_dynamic_cost_of_storage(RawOrigin::Root, true), Ok(()));
    assert!(pallet.enable_balance_transfers());
    assert!(!pallet.enable_dynamic_cost_of_storage());
    assert_eq!(pallet.set_enable_dynamic_cost_of_storage(RawOrigin::Root, false), Ok(()));
    assert!(!pallet.enable_balance_transfers());
}
