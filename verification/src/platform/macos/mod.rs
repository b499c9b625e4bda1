//! The macOS backend, which drives applications through the Accessibility API.

pub mod connection;
pub mod element;

use vstd::prelude::*;
use vstd::string::*;
use crate::config::Config;
use crate::error::BryndzaError;
use crate::platform::macos::connection::MacOSConnection;
use crate::platform::PlatformCapabilities;

verus! {

/// The macOS platform: its configuration, and the connection to the
/// Accessibility API while there is one.
pub struct MacOSPlatform {
    config: Config,
    connection: Option<MacOSConnection>,
}

impl MacOSPlatform {
    /// The configuration that the platform was made with.
    pub closed spec fn config(&self) -> Config {
        self.config
    }

    /// The connection, while there is one.
    pub closed spec fn connection(&self) -> Option<MacOSConnection> {
        self.connection
    }

    /// Whether the platform is connected.
    pub open spec fn is_connected(&self) -> bool {
        self.connection() is Some
    }

    /// A platform that is not connected.
    pub fn new(config: Config) -> (result: Result<Self, BryndzaError>)
        ensures
            result matches Ok(platform) && platform.config() == config && !platform.is_connected(),
    {
        Ok(MacOSPlatform { config, connection: None })
    }

    /// The configuration.
    pub fn configuration(&self) -> (config: &Config)
        ensures
            *config == self.config(),
    {
        &self.config
    }

    /// Keeps the connection that connecting has made.
    pub fn attach(&mut self, connection: MacOSConnection)
        ensures
            final(self).config() == old(self).config(),
            final(self).connection() == Some(connection),
    {
        self.connection = Some(connection);
    }

    /// Gives the connection up for disconnecting; afterwards the platform
    /// is not connected.
    pub fn detach(&mut self) -> (connection: Option<MacOSConnection>)
        ensures
            final(self).config() == old(self).config(),
            !final(self).is_connected(),
            connection == old(self).connection(),
    {
        self.connection.take()
    }

    /// The connection that an operation works on, or a `SessionError`
    /// where the platform is not connected.
    pub fn require_connection(&self) -> (result: Result<&MacOSConnection, BryndzaError>)
        ensures
            match self.connection() {
                Some(connection) => result matches Ok(held) && *held == connection,
                None => result matches Err(BryndzaError::SessionError { message }) && message@
                    == "Not connected to macOS platform"@,
            },
    {
        match &self.connection {
            Some(connection) => Ok(connection),
            None => Err(BryndzaError::session("Not connected to macOS platform")),
        }
    }

    /// The name of the platform.
    pub fn platform_name(&self) -> (name: &'static str)
        ensures
            name@ == "macOS"@,
    {
        "macOS"
    }

    /// What the platform can do.
    pub fn capabilities(&self) -> (capabilities: PlatformCapabilities)
        ensures
            capabilities == PlatformCapabilities::desktop(),
    {
        PlatformCapabilities {
            supports_touch: false,
            supports_mouse: true,
            supports_keyboard: true,
            supports_image_location: true,
            supports_accessibility: true,
            supports_multiple_windows: true,
            supports_screenshots: true,
        }
    }
}

} // verus!
