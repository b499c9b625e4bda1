//! The configuration of an automation session.

use vstd::prelude::*;
use crate::units::Millis;

verus! {

/// The image formats of a screenshot.
#[derive(Debug, Clone, Copy, PartialEq, Eq, Structural)]
pub enum ImageFormat {
    PNG,
    JPEG,
    WEBP,
}

/// Settings of the Windows backend.
#[derive(Debug, Clone, Copy, PartialEq, Eq, Structural)]
pub struct WindowsConfig {
    /// Whether the tree traversal is optimized.
    pub optimize_tree_traversal: bool,
    /// Whether elements are cached.
    pub enable_element_caching: bool,
}

impl Default for WindowsConfig {
    fn default() -> (config: Self)
        ensures
            config == (WindowsConfig { optimize_tree_traversal: true, enable_element_caching: true }),
    {
        WindowsConfig { optimize_tree_traversal: true, enable_element_caching: true }
    }
}

/// Settings of the macOS backend.
#[derive(Debug, Clone, Copy, PartialEq, Eq, Structural)]
pub struct MacOSConfig {
    /// Whether the accessibility permissions are checked on connecting.
    pub check_accessibility_permissions: bool,
    /// Whether interactions go through system events.
    pub use_system_events: bool,
}

impl Default for MacOSConfig {
    fn default() -> (config: Self)
        ensures
            config == (MacOSConfig {
                check_accessibility_permissions: true,
                use_system_events: false,
            }),
    {
        MacOSConfig { check_accessibility_permissions: true, use_system_events: false }
    }
}

/// Settings of the Android backend.
#[derive(Debug)]
pub struct AndroidConfig {
    /// How long a command of the device bridge may take.
    pub adb_timeout: Millis,
    /// The serial number of the device to use, or any device.
    pub device_serial: Option<String>,
    /// Whether the UI Automator optimizations are on.
    pub enable_ui_automator_optimizations: bool,
}

impl Default for AndroidConfig {
    fn default() -> (config: Self)
        ensures
            config == (AndroidConfig {
                adb_timeout: Millis { millis: 30000 },
                device_serial: None,
                enable_ui_automator_optimizations: true,
            }),
    {
        AndroidConfig {
            adb_timeout: Millis { millis: 30000 },
            device_serial: None,
            enable_ui_automator_optimizations: true,
        }
    }
}

impl Clone for AndroidConfig {
    fn clone(&self) -> (copy: Self)
        ensures
            copy == *self,
    {
        AndroidConfig {
            adb_timeout: self.adb_timeout,
            device_serial: clone_text(&self.device_serial),
            enable_ui_automator_optimizations: self.enable_ui_automator_optimizations,
        }
    }
}

/// Settings of the iOS backend.
#[derive(Debug)]
pub struct IOSConfig {
    /// The bundle identifier of the XCTest runner.
    pub xctest_bundle_id: Option<String>,
    /// The UDID of the device to use, or any device.
    pub device_udid: Option<String>,
    /// Whether the XCTest optimizations are on.
    pub enable_xctest_optimizations: bool,
}

impl Default for IOSConfig {
    fn default() -> (config: Self)
        ensures
            config == (IOSConfig {
                xctest_bundle_id: None,
                device_udid: None,
                enable_xctest_optimizations: true,
            }),
    {
        IOSConfig { xctest_bundle_id: None, device_udid: None, enable_xctest_optimizations: true }
    }
}

impl Clone for IOSConfig {
    fn clone(&self) -> (copy: Self)
        ensures
            copy == *self,
    {
        IOSConfig {
            xctest_bundle_id: clone_text(&self.xctest_bundle_id),
            device_udid: clone_text(&self.device_udid),
            enable_xctest_optimizations: self.enable_xctest_optimizations,
        }
    }
}

/// Settings of the backends, one set for each.
#[derive(Debug)]
pub struct PlatformConfig {
    pub windows: WindowsConfig,
    pub macos: MacOSConfig,
    pub android: AndroidConfig,
    pub ios: IOSConfig,
}

impl Default for PlatformConfig {
    fn default() -> (config: Self)
        ensures
            config == (PlatformConfig {
                windows: WindowsConfig {
                    optimize_tree_traversal: true,
                    enable_element_caching: true,
                },
                macos: MacOSConfig {
                    check_accessibility_permissions: true,
                    use_system_events: false,
                },
                android: AndroidConfig {
                    adb_timeout: Millis { millis: 30000 },
                    device_serial: None,
                    enable_ui_automator_optimizations: true,
                },
                ios: IOSConfig {
                    xctest_bundle_id: None,
                    device_udid: None,
                    enable_xctest_optimizations: true,
                },
            }),
    {
        PlatformConfig {
            windows: WindowsConfig::default(),
            macos: MacOSConfig::default(),
            android: AndroidConfig::default(),
            ios: IOSConfig::default(),
        }
    }
}

impl Clone for PlatformConfig {
    fn clone(&self) -> (copy: Self)
        ensures
            copy == *self,
    {
        PlatformConfig {
            windows: self.windows,
            macos: self.macos,
            android: self.android.clone(),
            ios: self.ios.clone(),
        }
    }
}

/// Settings of screenshots.
#[derive(Debug, Clone, Copy, PartialEq, Eq, Structural)]
pub struct ScreenshotConfig {
    /// The image format.
    pub format: ImageFormat,
    /// The compression quality, from 0 to 100.
    pub quality: u8,
    /// Whether a failure takes a screenshot by itself.
    pub auto_screenshot_on_failure: bool,
}

impl Default for ScreenshotConfig {
    fn default() -> (config: Self)
        ensures
            config == (ScreenshotConfig {
                format: ImageFormat::PNG,
                quality: 90,
                auto_screenshot_on_failure: true,
            }),
    {
        ScreenshotConfig { format: ImageFormat::PNG, quality: 90, auto_screenshot_on_failure: true }
    }
}

/// The configuration of a session.
#[derive(Debug)]
pub struct Config {
    /// The deadline of an operation that waits.
    pub default_timeout: Millis,
    /// How often an operation is tried again after a transient error.
    pub max_retries: u32,
    /// The pause between two such tries.
    pub retry_delay: Millis,
    /// The settings of the backends.
    pub platform: PlatformConfig,
    /// The settings of screenshots.
    pub screenshot: ScreenshotConfig,
}

impl Config {
    /// The configuration that `default` returns: a deadline of ten seconds,
    /// three retries half a second apart, and the default settings of the
    /// backends and of screenshots.
    pub open spec fn spec_default() -> Config {
        Config {
            default_timeout: Millis { millis: 10000 },
            max_retries: 3,
            retry_delay: Millis { millis: 500 },
            platform: PlatformConfig {
                windows: WindowsConfig {
                    optimize_tree_traversal: true,
                    enable_element_caching: true,
                },
                macos: MacOSConfig {
                    check_accessibility_permissions: true,
                    use_system_events: false,
                },
                android: AndroidConfig {
                    adb_timeout: Millis { millis: 30000 },
                    device_serial: None,
                    enable_ui_automator_optimizations: true,
                },
                ios: IOSConfig {
                    xctest_bundle_id: None,
                    device_udid: None,
                    enable_xctest_optimizations: true,
                },
            },
            screenshot: ScreenshotConfig {
                format: ImageFormat::PNG,
                quality: 90,
                auto_screenshot_on_failure: true,
            },
        }
    }
}

impl Default for Config {
    fn default() -> (config: Self)
        ensures
            config == Config::spec_default(),
    {
        Config {
            default_timeout: Millis { millis: 10000 },
            max_retries: 3,
            retry_delay: Millis { millis: 500 },
            platform: PlatformConfig::default(),
            screenshot: ScreenshotConfig::default(),
        }
    }
}

impl Clone for Config {
    fn clone(&self) -> (copy: Self)
        ensures
            copy == *self,
    {
        Config {
            default_timeout: self.default_timeout,
            max_retries: self.max_retries,
            retry_delay: self.retry_delay,
            platform: self.platform.clone(),
            screenshot: self.screenshot,
        }
    }
}

/// A copy of an optional text.
pub fn clone_text(text: &Option<String>) -> (copy: Option<String>)
    ensures
        copy == *text,
{
    match text {
        Some(value) => Some(value.clone()),
        None => None,
    }
}

} // verus!
