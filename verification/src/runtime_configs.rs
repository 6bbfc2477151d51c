//! Switches of the runtime that the root origin may flip.

use crate::dispatch::{ensure_root, ensure_root_spec, DispatchResult, RawOrigin};
use crate::primitives::BlockNumber;
use vstd::prelude::*;

verus! {

/// The switches at genesis.
#[derive(Clone, Copy, Debug, PartialEq, Eq, Structural)]
pub struct GenesisConfig {
    /// Whether to enable domains.
    pub enable_domains: bool,
    /// Whether to enable the dynamic cost of storage. Where it is off, a
    /// byte costs 1.
    pub enable_dynamic_cost_of_storage: bool,
    /// Whether to enable balance transfers.
    pub enable_balance_transfers: bool,
    /// Whether to enable calls from other origins than the root.
    pub enable_non_root_calls: bool,
    /// Confirmation depth k of the archiving process.
    pub confirmation_depth_k: BlockNumber,
}

impl Default for GenesisConfig {
    fn default() -> (config: GenesisConfig)
        ensures
            config == (GenesisConfig {
                enable_domains: false,
                enable_dynamic_cost_of_storage: false,
                enable_balance_transfers: false,
                enable_non_root_calls: false,
                confirmation_depth_k: 100,
            }),
    {
        GenesisConfig {
            enable_domains: false,
            enable_dynamic_cost_of_storage: false,
            enable_balance_transfers: false,
            enable_non_root_calls: false,
            confirmation_depth_k: 100,
        }
    }
}

impl GenesisConfig {
    /// The switches as the genesis configuration sets them. A confirmation
    /// depth of zero is no configuration.
    pub fn build(&self) -> (pallet: Pallet)
        requires
            self.confirmation_depth_k != 0,
        ensures
            pallet@ == *self,
    {
        Pallet {
            enable_domains: self.enable_domains,
            enable_dynamic_cost_of_storage: self.enable_dynamic_cost_of_storage,
            enable_balance_transfers: self.enable_balance_transfers,
            enable_non_root_calls: self.enable_non_root_calls,
            confirmation_depth_k: self.confirmation_depth_k,
        }
    }

    /// The switches as the genesis configuration sets them, or `None` for a
    /// confirmation depth of zero.
    pub fn try_build(&self) -> (pallet: Option<Pallet>)
        ensures
            match pallet {
                Some(built) => self.confirmation_depth_k != 0 && built@ == *self,
                None => self.confirmation_depth_k == 0,
            },
    {
        if self.confirmation_depth_k == 0 {
            None
        } else {
            Some(self.build())
        }
    }
}

/// The switches of a running chain.
#[derive(Clone, Debug, PartialEq, Eq)]
pub struct Pallet {
    enable_domains: bool,
    enable_dynamic_cost_of_storage: bool,
    enable_balance_transfers: bool,
    enable_non_root_calls: bool,
    confirmation_depth_k: BlockNumber,
}

impl View for Pallet {
    type V = GenesisConfig;

    closed spec fn view(&self) -> GenesisConfig {
        GenesisConfig {
            enable_domains: self.enable_domains,
            enable_dynamic_cost_of_storage: self.enable_dynamic_cost_of_storage,
            enable_balance_transfers: self.enable_balance_transfers,
            enable_non_root_calls: self.enable_non_root_calls,
            confirmation_depth_k: self.confirmation_depth_k,
        }
    }
}

impl Pallet {
    /// Whether domains are enabled.
    pub fn enable_domains(&self) -> (enabled: bool)
        ensures
            enabled == self@.enable_domains,
    {
        self.enable_domains
    }

    /// Whether the dynamic cost of storage is enabled.
    pub fn enable_dynamic_cost_of_storage(&self) -> (enabled: bool)
        ensures
            enabled == self@.enable_dynamic_cost_of_storage,
    {
        self.enable_dynamic_cost_of_storage
    }

    /// Whether balance transfers are enabled.
    pub fn enable_balance_transfers(&self) -> (enabled: bool)
        ensures
            enabled == self@.enable_balance_transfers,
    {
        self.enable_balance_transfers
    }

    /// Whether calls from other origins than the root are enabled.
    pub fn enable_non_root_calls(&self) -> (enabled: bool)
        ensures
            enabled == self@.enable_non_root_calls,
    {
        self.enable_non_root_calls
    }

    /// Confirmation depth k of the archiving process.
    pub fn confirmation_depth_k(&self) -> (depth: BlockNumber)
        ensures
            depth == self@.confirmation_depth_k,
    {
        self.confirmation_depth_k
    }

    /// Enables or disables domains, for the root origin only.
    pub fn set_enable_domains(&mut self, origin: RawOrigin, enable_domains: bool) -> (result:
        DispatchResult)
        ensures
            result == ensure_root_spec(origin),
            final(self)@ == (if origin == RawOrigin::Root {
                GenesisConfig { enable_domains, ..old(self)@ }
            } else {
                old(self)@
            }),
    {
        match ensure_root(origin) {
            Ok(_) => {},
            Err(error) => {
                return Err(error);
            },
        }
        self.enable_domains = enable_domains;
        Ok(())
    }

    /// Takes the switch for the dynamic cost of storage from the root
    /// origin and stores it as the switch for balance transfers; the
    /// switch for the dynamic cost of storage itself is set at genesis and
    /// stays as it is.
    pub fn set_enable_dynamic_cost_of_storage(
        &mut self,
        origin: RawOrigin,
        enable_dynamic_cost_of_storage: bool,
    ) -> (result: DispatchResult)
        ensures
            result == ensure_root_spec(origin),
            final(self)@ == (if origin == RawOrigin::Root {
                GenesisConfig {
                    enable_balance_transfers: enable_dynamic_cost_of_storage,
                    ..old(self)@
                }
            } else {
                old(self)@
            }),
    {
        match ensure_root(origin) {
            Ok(_) => {},
            Err(error) => {
                return Err(error);
            },
        }
        self.enable_balance_transfers = enable_dynamic_cost_of_storage;
        Ok(())
    }

    /// Enables or disables balance transfers for all users, for the root
    /// origin only.
    pub fn set_enable_balance_transfers(
        &mut self,
        origin: RawOrigin,
        enable_balance_transfers: bool,
    ) -> (result: DispatchResult)
        ensures
            result == ensure_root_spec(origin),
            final(self)@ == (if origin == RawOrigin::Root {
                GenesisConfig { enable_balance_transfers, ..old(self)@ }
            } else {
                old(self)@
            }),
    {
        match ensure_root(origin) {
            Ok(_) => {},
            Err(error) => {
                return Err(error);
            },
        }
        self.enable_balance_transfers = enable_balance_transfers;
        Ok(())
    }

    /// Enables or disables calls from other origins than the root, for the
    /// root origin only.
    pub fn set_enable_non_root_calls(
        &mut self,
        origin: RawOrigin,
        enable_non_root_calls: bool,
    ) -> (result: DispatchResult)
        ensures
            result == ensure_root_spec(origin),
            final(self)@ == (if origin == RawOrigin::Root {
                GenesisConfig { enable_non_root_calls, ..old(self)@ }
            } else {
                old(self)@
            }),
    {
        match ensure_root(origin) {
            Ok(_) => {},
            Err(error) => {
                return Err(error);
            },
        }
        self.enable_non_root_calls = enable_non_root_calls;
        Ok(())
    }
}

} // verus!
