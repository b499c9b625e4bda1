//! The element model: normalized snapshots of UI nodes and the locators that
//! describe them.

pub mod attributes;
pub mod element;
pub mod interaction;
pub mod locator;

pub use attributes::Attributes;
pub use element::Element;
pub use interaction::Key;
pub use locator::Locator;
