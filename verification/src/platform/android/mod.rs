//! The Android backend, which drives a device over the device bridge.

pub mod adb;
pub mod element;

use vstd::prelude::*;
use vstd::string::*;
use crate::config::Config;
use crate::error::BryndzaError;
use crate::platform::android::adb::AdbConnection;
use crate::platform::PlatformCapabilities;

verus! {

/// The Android platform: its configuration, and the connection to the
/// device while there is one.
pub struct AndroidPlatform {
    config: Config,
    adb_connection: Option<AdbConnection>,
}

impl AndroidPlatform {
    /// The configuration that the platform was made with.
    pub closed spec fn config(&self) -> Config {
        self.config
    }

    /// The connection to the device, while there is one.
    pub closed spec fn connection(&self) -> Option<AdbConnection> {
        self.adb_connection
    }

    /// Whether the platform is connected to a device.
    pub open spec fn is_connected(&self) -> bool {
        self.connection() is Some
    }

    /// A platform that is not connected.
    pub fn new(config: Config) -> (result: Result<Self, BryndzaError>)
        ensures
            result matches Ok(platform) && platform.config() == config && !platform.is_connected(),
    {
        Ok(AndroidPlatform { config, adb_connection: None })
    }

    /// The configuration.
    pub fn configuration(&self) -> (config: &Config)
        ensures
            *config == self.config(),
    {
        &self.config
    }

    /// Keeps the connection that connecting has made.
    pub fn attach(&mut self, connection: AdbConnection)
        ensures
            final(self).config() == old(self).config(),
            final(self).connection() == Some(connection),
    {
        self.adb_connection = Some(connection);
    }

    /// Gives the connection up for disconnecting; afterwards the platform
    /// is not connected.
    pub fn detach(&mut self) -> (connection: Option<AdbConnection>)
        ensures
            final(self).config() == old(self).config(),
            !final(self).is_connected(),
            connection == old(self).connection(),
    {
        self.adb_connection.take()
    }

    /// The connection that an operation works on, or a `SessionError`
    /// where the platform is not connected.
    pub fn require_connection(&self) -> (result: Result<&AdbConnection, BryndzaError>)
        ensures
            match self.connection() {
                Some(connection) => result matches Ok(held) && *held == connection,
                None => result matches Err(BryndzaError::SessionError { message }) && message@
                    == "Not connected to Android device"@,
            },
    {
        match &self.adb_connection {
            Some(connection) => Ok(connection),
            None => Err(BryndzaError::session("Not connected to Android device")),
        }
    }

    /// The name of the platform.
    pub fn platform_name(&self) -> (name: &'static str)
        ensures
            name@ == "Android"@,
    {
        "Android"
    }

    /// What the platform can do.
    pub fn capabilities(&self) -> (capabilities: PlatformCapabilities)
        ensures
            capabilities == PlatformCapabilities::handheld(),
    {
        PlatformCapabilities {
            supports_touch: true,
            supports_mouse: false,
            supports_keyboard: true,
            supports_image_location: true,
            supports_accessibility: true,
            supports_multiple_windows: false,
            supports_screenshots: true,
        }
    }
}

} // verus!
