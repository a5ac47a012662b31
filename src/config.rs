use vstd::prelude::*;

use crate::error::ContractError;

verus! {

/// The contract's administrator and the token ledger that it trusts.
pub struct Config {
    pub owner: String,
    pub token: String,
}

/// Holds the configuration, which is set once and never changed.
pub struct ConfigStore {
    config: Option<Config>,
}

impl ConfigStore {
    /// The configuration, or `None` before it has been set.
    pub closed spec fn current(&self) -> Option<Config> {
        self.config
    }

    /// A store that holds no configuration yet.
    pub fn new() -> (r: ConfigStore)
        ensures
            r.current() is None,
    {
        ConfigStore { config: None }
    }

    /// Sets the configuration; fails with `AlreadyInitialized`, changing
    /// nothing, when it is set already.
    pub fn initialize(&mut self, owner: String, token: String) -> (r: Result<(), ContractError>)
        ensures
            old(self).current() is Some ==> r == Err::<(), ContractError>(
                ContractError::AlreadyInitialized,
            ) && final(self).current() == old(self).current(),
            old(self).current() is None ==> r == Ok::<(), ContractError>(())
                && final(self).current() == Some(Config { owner, token }),
    {
        if self.config.is_some() {
            Err(ContractError::AlreadyInitialized)
        } else {
            self.config = Some(Config { owner, token });
            Ok(())
        }
    }

    /// The configuration, once it has been set.
    pub fn get(&self) -> (r: Option<&Config>)
        ensures
            match self.current() {
                Some(c) => r is Some && *r.unwrap() == c,
                None => r is None,
            },
    {
        match &self.config {
            Some(c) => Some(c),
            None => None,
        }
    }
}

} // verus!
