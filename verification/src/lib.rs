//! Cross-platform UI automation: composable locators, a normalized element
//! model, the canonical search over native accessibility trees, and
//! deadline-bounded waiting with pluggable backoff.
//!
//! The library decides; it does no input or output. A backend hands over a
//! snapshot of its native tree and gets elements back; a wait hands over
//! what an attempt showed and is told what to do next.

pub mod config;
pub mod element;
pub mod error;
pub mod platform;
pub mod session;
pub mod text;
pub mod units;
pub mod utils;
pub mod wait;

pub use config::Config;
pub use element::{Element, Locator};
pub use error::{BryndzaError, PlatformError};
pub use platform::PlatformCapabilities;
pub use session::{Session, SessionBuilder};
pub use units::{Millis, Permille};
pub use wait::conditions::WaitConditions;
pub use wait::strategy::WaitStrategy;
