//! Elements as the macOS Accessibility API reports them.
//!
//! Nothing is read from the accessibility element yet: every element has
//! the same fixed properties.

use vstd::prelude::*;
use vstd::string::*;
use crate::element::attributes::Attributes;
use crate::element::element::{Element, ElementView, Rectangle};
use crate::error::BryndzaError;
use crate::text::{decimal, decimal_string};

verus! {

/// An element of the Accessibility API, known by its reference.
pub struct MacOSElement {
    /// The reference of the accessibility element.
    pub ax_element: usize,
}

impl MacOSElement {
    /// The bounds of every element.
    pub open spec fn spec_bounds() -> Rectangle {
        Rectangle { x: 0, y: 0, width: 100, height: 30 }
    }

    /// The attributes of the element that stands for this one.
    pub open spec fn spec_element_attributes() -> Map<Seq<char>, Seq<char>> {
        Map::empty().insert("role"@, "Unknown"@).insert("title"@, ""@).insert("value"@, ""@)
    }

    /// The attributes of every element.
    pub open spec fn spec_attributes() -> Map<Seq<char>, Seq<char>> {
        Map::empty().insert("AXRole"@, ""@).insert("AXTitle"@, ""@).insert("AXValue"@, ""@).insert(
            "AXEnabled"@,
            "true"@,
        )
    }

    /// The element that stands for this one: `macos_` and the reference as
    /// its identity, visible and enabled.
    pub open spec fn spec_element(self) -> ElementView {
        ElementView {
            id: "macos_"@ + decimal(self.ax_element as nat),
            attributes: Self::spec_element_attributes(),
            bounds: Self::spec_bounds(),
            visible: true,
            enabled: true,
        }
    }

    /// The element with the given reference.
    pub fn new(ax_element: usize) -> (element: Self)
        ensures
            element.ax_element == ax_element,
    {
        MacOSElement { ax_element }
    }

    /// The element that stands for this one.
    pub fn to_element(&self) -> (result: Result<Element, BryndzaError>)
        ensures
            result matches Ok(element) && element@ == self.spec_element(),
    {
        let attributes = Attributes::new().with(
            String::from_str("role"),
            String::from_str("Unknown"),
        ).with(String::from_str("title"), String::from_str("")).with(
            String::from_str("value"),
            String::from_str(""),
        );
        let id = String::from_str("macos_").concat(decimal_string(self.ax_element as u64).as_str());
        Ok(Element::new(id, attributes, Rectangle::new(0, 0, 100, 30), true, true))
    }

    /// The bounds.
    pub fn get_bounds(&self) -> (result: Result<Rectangle, BryndzaError>)
        ensures
            result == Ok::<Rectangle, BryndzaError>(Self::spec_bounds()),
    {
        Ok(Rectangle::new(0, 0, 100, 30))
    }

    /// The attributes.
    pub fn get_attributes(&self) -> (result: Result<Attributes, BryndzaError>)
        ensures
            result matches Ok(attributes) && attributes@ == Self::spec_attributes(),
    {
        Ok(
            Attributes::new().with(String::from_str("AXRole"), String::from_str("")).with(
                String::from_str("AXTitle"),
                String::from_str(""),
            ).with(String::from_str("AXValue"), String::from_str("")).with(
                String::from_str("AXEnabled"),
                String::from_str("true"),
            ),
        )
    }

    /// Whether the element is enabled.
    pub fn is_enabled(&self) -> (result: Result<bool, BryndzaError>)
        ensures
            result == Ok::<bool, BryndzaError>(true),
    {
        Ok(true)
    }

    /// Whether the element is visible.
    pub fn is_visible(&self) -> (result: Result<bool, BryndzaError>)
        ensures
            result == Ok::<bool, BryndzaError>(true),
    {
        Ok(true)
    }

    /// The role.
    pub fn get_role(&self) -> (result: Result<String, BryndzaError>)
        ensures
            result matches Ok(role) && role@ == "Unknown"@,
    {
        Ok(String::from_str("Unknown"))
    }

    /// The title.
    pub fn get_title(&self) -> (result: Result<String, BryndzaError>)
        ensures
            result matches Ok(title) && title@ == ""@,
    {
        Ok(String::from_str(""))
    }

    /// The value.
    pub fn get_value(&self) -> (result: Result<String, BryndzaError>)
        ensures
            result matches Ok(value) && value@ == ""@,
    {
        Ok(String::from_str(""))
    }
}

} // verus!
