//! The platform layer: what every native backend provides, and the search
//! over native trees that all of them share.

pub mod android;
pub mod ios;
pub mod macos;
pub mod matching;
pub mod windows;

use vstd::prelude::*;
use vstd::string::*;
use crate::config::Config;
use crate::element::element::Element;
use crate::error::BryndzaError;
use crate::platform::android::AndroidPlatform;
use crate::platform::macos::MacOSPlatform;
use crate::platform::windows::WindowsPlatform;

verus! {

/// What a platform can do. The flags are fixed when the platform is made.
#[derive(Debug, Clone, Copy, PartialEq, Eq, Structural)]
pub struct PlatformCapabilities {
    /// Touch interactions.
    pub supports_touch: bool,
    /// Mouse interactions.
    pub supports_mouse: bool,
    /// Keyboard interactions.
    pub supports_keyboard: bool,
    /// Locating elements by a picture.
    pub supports_image_location: bool,
    /// Walking the accessibility tree.
    pub supports_accessibility: bool,
    /// More than one window or application.
    pub supports_multiple_windows: bool,
    /// Screenshots.
    pub supports_screenshots: bool,
}

impl PlatformCapabilities {
    /// The capabilities of a desktop: everything but touch.
    pub open spec fn desktop() -> PlatformCapabilities {
        PlatformCapabilities {
            supports_touch: false,
            supports_mouse: true,
            supports_keyboard: true,
            supports_image_location: true,
            supports_accessibility: true,
            supports_multiple_windows: true,
            supports_screenshots: true,
        }
    }

    /// The capabilities of a handheld device: touch in place of a mouse,
    /// and a single window.
    pub open spec fn handheld() -> PlatformCapabilities {
        PlatformCapabilities {
            supports_touch: true,
            supports_mouse: false,
            supports_keyboard: true,
            supports_image_location: true,
            supports_accessibility: true,
            supports_multiple_windows: false,
            supports_screenshots: true,
        }
    }
}

impl Default for PlatformCapabilities {
    /// The capabilities of a desktop.
    fn default() -> (capabilities: Self)
        ensures
            capabilities == PlatformCapabilities::desktop(),
    {
        PlatformCapabilities {
            supports_touch: false,
            supports_mouse: true,
            supports_keyboard: true,
            supports_image_location: true,
            supports_accessibility: true,
            supports_multiple_windows: true,
            supports_screenshots: true,
        }
    }
}

/// Whether an element exists, from what a search for it returned: `true`
/// where it was found, `false` where the search reported `ElementNotFound`.
/// Every other error is passed on unchanged.
pub fn element_exists(found: Result<Element, BryndzaError>) -> (result: Result<bool, BryndzaError>)
    ensures
        match found {
            Ok(_) => result == Ok::<bool, BryndzaError>(true),
            Err(error) => if error is ElementNotFound {
                result == Ok::<bool, BryndzaError>(false)
            } else {
                result == Err::<bool, BryndzaError>(error)
            },
        },
{
    match found {
        Ok(_) => Ok(true),
        Err(BryndzaError::ElementNotFound { .. }) => Ok(false),
        Err(error) => Err(error),
    }
}

/// The backend of a session: one variant for each native platform.
pub enum Backend {
    Windows(WindowsPlatform),
    MacOS(MacOSPlatform),
    Android(AndroidPlatform),
}

/// Whether a backend serves a host with the operating system `host_os`:
/// Windows serves `windows`, macOS serves `macos`, and Android serves
/// `linux`, where devices are driven over the device bridge.
pub open spec fn backend_is_known(host_os: Seq<char>) -> bool {
    host_os == "windows"@ || host_os == "macos"@ || host_os == "linux"@
}

/// Makes the backend for the host's operating system, which the caller
/// names as the standard library does (`windows`, `macos`, `linux`, ...).
///
/// Fails with `PlatformNotSupported`, carrying the name, for every other
/// operating system.
pub fn detect_and_create(config: &Config, host_os: &str) -> (result: Result<Backend, BryndzaError>)
    ensures
        host_os@ == "windows"@ ==> (result matches Ok(Backend::Windows(platform))
            && platform.config() == *config && !platform.is_connected()),
        host_os@ == "macos"@ ==> (result matches Ok(Backend::MacOS(platform)) && platform.config()
            == *config && !platform.is_connected()),
        host_os@ == "linux"@ ==> (result matches Ok(Backend::Android(platform))
            && platform.config() == *config && !platform.is_connected()),
        !backend_is_known(host_os@) ==> (result matches Err(
            BryndzaError::PlatformNotSupported { platform },
        ) && platform@ == host_os@),
{
    proof {
        reveal_strlit("windows");
        reveal_strlit("macos");
        reveal_strlit("linux");
        assert("windows"@.len() == 7 && "macos"@.len() == 5 && "linux"@.len() == 5);
        assert("macos"@[0] == 'm' && "linux"@[0] == 'l');
    }
    let name = String::from_str(host_os);
    if name == String::from_str("windows") {
        match WindowsPlatform::new(config.clone()) {
            Ok(platform) => Ok(Backend::Windows(platform)),
            Err(error) => Err(error),
        }
    } else if name == String::from_str("macos") {
        match MacOSPlatform::new(config.clone()) {
            Ok(platform) => Ok(Backend::MacOS(platform)),
            Err(error) => Err(error),
        }
    } else if name == String::from_str("linux") {
        match AndroidPlatform::new(config.clone()) {
            Ok(platform) => Ok(Backend::Android(platform)),
            Err(error) => Err(error),
        }
    } else {
        Err(BryndzaError::platform_not_supported(host_os))
    }
}

impl Backend {
    /// The name of the platform.
    pub fn platform_name(&self) -> (name: &'static str)
        ensures
            match self {
                Backend::Windows(_) => name@ == "Windows"@,
                Backend::MacOS(_) => name@ == "macOS"@,
                Backend::Android(_) => name@ == "Android"@,
            },
    {
        match self {
            Backend::Windows(platform) => platform.platform_name(),
            Backend::MacOS(platform) => platform.platform_name(),
            Backend::Android(platform) => platform.platform_name(),
        }
    }

    /// What the platform can do.
    pub fn capabilities(&self) -> (capabilities: PlatformCapabilities)
        ensures
            match self {
                Backend::Windows(_) => capabilities == PlatformCapabilities::desktop(),
                Backend::MacOS(_) => capabilities == PlatformCapabilities::desktop(),
                Backend::Android(_) => capabilities == PlatformCapabilities::handheld(),
            },
    {
        match self {
            Backend::Windows(platform) => platform.capabilities(),
            Backend::MacOS(platform) => platform.capabilities(),
            Backend::Android(platform) => platform.capabilities(),
        }
    }
}

} // verus!
