//! The Windows backend, which drives applications through UI Automation.

pub mod connection;
pub mod element;

use vstd::prelude::*;
use vstd::string::*;
use crate::config::Config;
use crate::error::BryndzaError;
use crate::platform::windows::connection::WindowsConnection;
use crate::platform::PlatformCapabilities;

verus! {

/// The Windows platform: its configuration, and the connection to UI
/// Automation while there is one.
pub struct WindowsPlatform {
    config: Config,
    connection: Option<WindowsConnection>,
}

impl WindowsPlatform {
    /// The configuration that the platform was made with.
    pub closed spec fn config(&self) -> Config {
        self.config
    }

    /// The connection, while there is one.
    pub closed spec fn connection(&self) -> Option<WindowsConnection> {
        self.connection
    }

    /// Whether the platform is connected.
    pub open spec fn is_connected(&self) -> bool {
        self.connection() is Some
    }

    /// A platform that is not connected.
    pub fn new(config: Config) -> (result: Result<Self, BryndzaError>)
        ensures
            result matches Ok(platform) && platform.config() == config && !platform.is_connected(),
    {
        Ok(WindowsPlatform { config, connection: None })
    }

    /// The configuration.
    pub fn configuration(&self) -> (config: &Config)
        ensures
            *config == self.config(),
    {
        &self.config
    }

    /// Keeps the connection that connecting has made.
    pub fn attach(&mut self, connection: WindowsConnection)
        ensures
            final(self).config() == old(self).config(),
            final(self).connection() == Some(connection),
    {
        self.connection = Some(connection);
    }

    /// Gives the connection up for disconnecting; afterwards the platform
    /// is not connected.
    pub fn detach(&mut self) -> (connection: Option<WindowsConnection>)
        ensures
            final(self).config() == old(self).config(),
            !final(self).is_connected(),
            connection == old(self).connection(),
    {
        self.connection.take()
    }

    /// The connection that an operation works on, or a `SessionError`
    /// where the platform is not connected.
    pub fn require_connection(&self) -> (result: Result<&WindowsConnection, BryndzaError>)
        ensures
            match self.connection() {
                Some(connection) => result matches Ok(held) && *held == connection,
                None => result matches Err(BryndzaError::SessionError { message }) && message@
                    == "Not connected to Windows platform"@,
            },
    {
        match &self.connection {
            Some(connection) => Ok(connection),
            None => Err(BryndzaError::session("Not connected to Windows platform")),
        }
    }

    /// Swipes on an element: a desktop has no swipe gestures, so this is
    /// always a `PlatformNotSupported` error.
    pub fn swipe_element(&self) -> (result: Result<(), BryndzaError>)
        ensures
            result matches Err(BryndzaError::PlatformNotSupported { platform }) && platform@
                == "Swipe gestures not supported on Windows desktop"@,
    {
        Err(BryndzaError::platform_not_supported("Swipe gestures not supported on Windows desktop"))
    }

    /// The name of the platform.
    pub fn platform_name(&self) -> (name: &'static str)
        ensures
            name@ == "Windows"@,
    {
        "Windows"
    }

    /// What the platform can do.
    pub fn capabilities(&self) -> (capabilities: PlatformCapabilities)
        ensures
            capabilities == PlatformCapabilities::desktop(),
    {
        PlatformCapabilities {
            supports_touch: false,
            supports_mouse: true,
            supports_keyboard: true,
            supports_image_location: true,
            supports_accessibility: true,
            supports_multiple_windows: true,
            supports_screenshots: true,
        }
    }
}

} // verus!
