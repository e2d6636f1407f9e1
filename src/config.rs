//! How each side of the bridge gets its headers: from a live chain or from
//! a fixture file.
use vstd::prelude::*;

verus! {

#[derive(Clone, Debug)]
pub enum ChainEndpointConfig {
    Live { socket_address: String, counterpart_is_simulated: bool },
    Simulated { fixture_path: String, expected_terminal_height: u64 },
}

#[derive(Clone, Copy, Debug, PartialEq, Eq, Structural)]
pub enum ConfigError {
    /// Both sides replay fixtures: nothing would ever submit a header.
    BothSimulated,
}

impl ChainEndpointConfig {
    pub open spec fn spec_is_simulated(&self) -> bool {
        self is Simulated
    }

    pub fn is_simulated(&self) -> (r: bool)
        ensures
            r == self.spec_is_simulated(),
    {
        match self {
            ChainEndpointConfig::Simulated { .. } => true,
            ChainEndpointConfig::Live { .. } => false,
        }
    }
}

/// Accepts a pair of endpoint configurations unless both are simulated.
pub fn check_pairing(a: &ChainEndpointConfig, b: &ChainEndpointConfig) -> (r: Result<(), ConfigError>)
    ensures
        r == (if a.spec_is_simulated() && b.spec_is_simulated() {
            Err::<(), ConfigError>(ConfigError::BothSimulated)
        } else {
            Ok(())
        }),
{
    if a.is_simulated() && b.is_simulated() {
        Err(ConfigError::BothSimulated)
    } else {
        Ok(())
    }
}

} // verus!
