//! The supervisor's configuration, fixed at startup.
use vstd::prelude::*;

verus! {

/// Why a configuration was refused.
#[derive(Clone, Copy, Debug, PartialEq, Eq, Structural)]
pub enum ConfigError {
    /// The source endpoint is empty.
    EmptySource,
    /// The destination endpoint is empty.
    EmptyDestination,
}

/// Endpoints, reconnect delay and retry bound of one supervised transport.
pub struct SupervisorConfig {
    /// Where the media is pulled from.
    pub source: String,
    /// Where the media is republished.
    pub destination: String,
    /// Wait between a failed attempt and the next one, in seconds.
    pub base_delay_secs: u64,
    /// Failed attempts in a row after which the supervisor gives up; 0 means
    /// it never does.
    pub max_attempts: u32,
}

impl SupervisorConfig {
    /// Checks that both endpoints are given, and holds the values unchanged.
    pub fn new(source: String, destination: String, base_delay_secs: u64, max_attempts: u32) -> (r:
        Result<SupervisorConfig, ConfigError>)
        ensures
            source@.len() == 0 ==> r == Err::<SupervisorConfig, ConfigError>(
                ConfigError::EmptySource,
            ),
            source@.len() > 0 && destination@.len() == 0 ==> r == Err::<
                SupervisorConfig,
                ConfigError,
            >(ConfigError::EmptyDestination),
            source@.len() > 0 && destination@.len() > 0 ==> (r matches Ok(c) && c.source@
                == source@ && c.destination@ == destination@ && c.base_delay_secs
                == base_delay_secs && c.max_attempts == max_attempts),
    {
        if source.as_str().is_empty() {
            Err(ConfigError::EmptySource)
        } else if destination.as_str().is_empty() {
            Err(ConfigError::EmptyDestination)
        } else {
            Ok(SupervisorConfig { source, destination, base_delay_secs, max_attempts })
        }
    }
}

} // verus!
