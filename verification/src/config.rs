//! The consumer's one piece of durable configuration: the oracle's address.

use vstd::prelude::*;

use crate::error::ContractError;
use crate::identity::Identity;

verus! {

/// The configuration record of one deployed consumer instance. It is created
/// once at deployment and never changed afterwards: every later operation
/// reads the oracle address, none rewrites it.
pub struct Config {
    pub oracle_address: Identity,
}

/// The single storage slot holding the configuration. A fresh instance starts
/// empty; deployment fills the slot exactly once.
pub struct ConfigStore {
    slot: Option<Config>,
}

impl ConfigStore {
    /// Whether the slot has been filled.
    pub closed spec fn spec_initialized(&self) -> bool {
        self.slot is Some
    }

    /// The stored oracle address, as bytes.
    pub closed spec fn spec_oracle(&self) -> Seq<u8>
        recommends
            self.spec_initialized(),
    {
        self.slot->Some_0.oracle_address@
    }

    /// A store of a not-yet-deployed instance: the slot is empty.
    pub fn empty() -> (s: ConfigStore)
        ensures
            !s.spec_initialized(),
    {
        ConfigStore { slot: None }
    }

    /// One-time setup at deployment: records the address of the trusted
    /// oracle. There is no update operation; the address is immutable.
    pub fn initialize(oracle_address: Identity) -> (s: ConfigStore)
        ensures
            s.spec_initialized(),
            s.spec_oracle() == oracle_address@,
    {
        ConfigStore { slot: Some(Config { oracle_address }) }
    }

    /// Reads the configuration; fails when the instance was never deployed.
    pub fn load(&self) -> (r: Result<&Config, ContractError>)
        ensures
            self.spec_initialized() ==> (r matches Ok(c) && c.oracle_address@
                == self.spec_oracle()),
            !self.spec_initialized() ==> r == Err::<&Config, ContractError>(
                ContractError::NotInitialized,
            ),
    {
        match &self.slot {
            Some(config) => Ok(config),
            None => Err(ContractError::NotInitialized),
        }
    }
}

} // verus!
