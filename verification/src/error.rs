//! The errors that automation operations report.

use vstd::prelude::*;
use vstd::string::*;
use crate::units::Millis;

verus! {

/// An error raised by one of the native automation backends.
#[derive(Debug)]
pub enum PlatformError {
    /// Windows UI Automation failed.
    WindowsUIAutomation { message: String },
    /// The macOS Accessibility API failed.
    MacOSAccessibility { message: String },
    /// The Android device bridge failed.
    AndroidADB { message: String },
    /// The iOS XCTest runner failed.
    IOSXCTest { message: String },
}

impl Clone for PlatformError {
    fn clone(&self) -> (copy: Self)
        ensures
            copy == *self,
    {
        match self {
            PlatformError::WindowsUIAutomation { message } => PlatformError::WindowsUIAutomation {
                message: message.clone(),
            },
            PlatformError::MacOSAccessibility { message } => PlatformError::MacOSAccessibility {
                message: message.clone(),
            },
            PlatformError::AndroidADB { message } => PlatformError::AndroidADB {
                message: message.clone(),
            },
            PlatformError::IOSXCTest { message } => PlatformError::IOSXCTest {
                message: message.clone(),
            },
        }
    }
}

/// An error of an automation operation.
///
/// `ElementNotFound`, `ElementNotInteractable` and `Timeout` are expected
/// outcomes that callers branch on; `ConnectionError` and `SessionError` are
/// recoverable by reconnecting; `ConfigurationError` and
/// `PlatformNotSupported` are final.
#[derive(Debug)]
pub enum BryndzaError {
    /// The locator matched no element.
    ElementNotFound { locator: String },
    /// An element was found but is not ready to be interacted with.
    ElementNotInteractable { reason: String },
    /// A wait ran past its deadline.
    Timeout { duration: Millis, condition: String },
    /// The connection to the platform's automation service failed.
    ConnectionError { message: String },
    /// The configuration is invalid.
    ConfigurationError { message: String },
    /// The backend cannot perform the operation at all.
    PlatformNotSupported { platform: String },
    /// Taking a screenshot failed.
    ScreenshotError { reason: String },
    /// Comparing images failed.
    ImageComparisonError { reason: String },
    /// A session operation failed.
    SessionError { message: String },
    /// A native backend failed.
    Platform(PlatformError),
    /// Reading or writing failed; the message describes the failure.
    Io { message: String },
    /// Encoding or decoding failed; the message describes the failure.
    Serialization { message: String },
}

impl BryndzaError {
    /// The error of a locator that matched nothing.
    pub fn element_not_found(locator: &str) -> (error: Self)
        ensures
            error matches BryndzaError::ElementNotFound { locator: l } && l@ == locator@,
    {
        BryndzaError::ElementNotFound { locator: String::from_str(locator) }
    }

    /// The error of an element that fails a readiness check.
    pub fn element_not_interactable(reason: &str) -> (error: Self)
        ensures
            error matches BryndzaError::ElementNotInteractable { reason: r } && r@ == reason@,
    {
        BryndzaError::ElementNotInteractable { reason: String::from_str(reason) }
    }

    /// The error of a wait that ran past its deadline.
    pub fn timeout(duration: Millis, condition: &str) -> (error: Self)
        ensures
            error matches BryndzaError::Timeout { duration: d, condition: c } && d == duration
                && c@ == condition@,
    {
        BryndzaError::Timeout { duration, condition: String::from_str(condition) }
    }

    /// The error of a failed connection.
    pub fn connection(message: &str) -> (error: Self)
        ensures
            error matches BryndzaError::ConnectionError { message: m } && m@ == message@,
    {
        BryndzaError::ConnectionError { message: String::from_str(message) }
    }

    /// The error of an invalid configuration.
    pub fn configuration(message: &str) -> (error: Self)
        ensures
            error matches BryndzaError::ConfigurationError { message: m } && m@ == message@,
    {
        BryndzaError::ConfigurationError { message: String::from_str(message) }
    }

    /// The error of an operation that the backend cannot perform.
    pub fn platform_not_supported(platform: &str) -> (error: Self)
        ensures
            error matches BryndzaError::PlatformNotSupported { platform: p } && p@ == platform@,
    {
        BryndzaError::PlatformNotSupported { platform: String::from_str(platform) }
    }

    /// The error of a failed screenshot.
    pub fn screenshot(reason: &str) -> (error: Self)
        ensures
            error matches BryndzaError::ScreenshotError { reason: r } && r@ == reason@,
    {
        BryndzaError::ScreenshotError { reason: String::from_str(reason) }
    }

    /// The error of a failed session operation.
    pub fn session(message: &str) -> (error: Self)
        ensures
            error matches BryndzaError::SessionError { message: m } && m@ == message@,
    {
        BryndzaError::SessionError { message: String::from_str(message) }
    }
}

} // verus!
