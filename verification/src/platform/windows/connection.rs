//! The connection to Windows UI Automation.

use vstd::prelude::*;
use crate::config::Config;
use crate::error::BryndzaError;

verus! {

/// A connection to UI Automation: the configuration that it was made with.
pub struct WindowsConnection {
    config: Config,
}

impl WindowsConnection {
    /// The configuration of the connection.
    pub closed spec fn config(&self) -> Config {
        self.config
    }

    /// A connection with the given configuration.
    pub fn configured(config: &Config) -> (connection: Self)
        ensures
            connection.config() == *config,
    {
        WindowsConnection { config: config.clone() }
    }
    /// Ends the connection. Nothing is held that needs to be released.
    pub fn disconnect(self) -> (result: Result<(), BryndzaError>)
        ensures
            result is Ok,
    {
        Ok(())
    }

}

} // verus!
