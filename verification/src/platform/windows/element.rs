//! Elements as Windows UI Automation reports them.
//!
//! Nothing is read from the automation element yet: every element has the
//! same fixed properties.

use vstd::prelude::*;
use vstd::string::*;
use crate::element::attributes::Attributes;
use crate::element::element::{Element, ElementView, Rectangle};
use crate::error::BryndzaError;
use crate::text::{decimal, decimal_string};

verus! {

/// An element of UI Automation, known by its handle.
pub struct WindowsElement {
    /// The handle of the automation element.
    pub automation_element: usize,
}

impl WindowsElement {
    /// The bounds of every element.
    pub open spec fn spec_bounds() -> Rectangle {
        Rectangle { x: 0, y: 0, width: 100, height: 30 }
    }

    /// The attributes of the element that stands for this one.
    pub open spec fn spec_attributes() -> Map<Seq<char>, Seq<char>> {
        Map::empty().insert("className"@, "Unknown"@).insert("text"@, ""@)
    }

    /// The properties of every element.
    pub open spec fn spec_properties() -> Map<Seq<char>, Seq<char>> {
        Map::empty().insert("AutomationId"@, ""@).insert("ClassName"@, ""@).insert("Name"@, ""@)
    }

    /// The element that stands for this one: `windows_` and the handle as
    /// its identity, visible and enabled.
    pub open spec fn spec_element(self) -> ElementView {
        ElementView {
            id: "windows_"@ + decimal(self.automation_element as nat),
            attributes: Self::spec_attributes(),
            bounds: Self::spec_bounds(),
            visible: true,
            enabled: true,
        }
    }

    /// The element with the given handle.
    pub fn new(automation_element: usize) -> (element: Self)
        ensures
            element.automation_element == automation_element,
    {
        WindowsElement { automation_element }
    }

    /// The element that stands for this one.
    pub fn to_element(&self) -> (result: Result<Element, BryndzaError>)
        ensures
            result matches Ok(element) && element@ == self.spec_element(),
    {
        let attributes = Attributes::new().with(
            String::from_str("className"),
            String::from_str("Unknown"),
        ).with(String::from_str("text"), String::from_str(""));
        let id = String::from_str("windows_").concat(
            decimal_string(self.automation_element as u64).as_str(),
        );
        Ok(Element::new(id, attributes, Rectangle::new(0, 0, 100, 30), true, true))
    }

    /// The bounds.
    pub fn get_bounds(&self) -> (result: Result<Rectangle, BryndzaError>)
        ensures
            result == Ok::<Rectangle, BryndzaError>(Self::spec_bounds()),
    {
        Ok(Rectangle::new(0, 0, 100, 30))
    }

    /// The properties.
    pub fn get_properties(&self) -> (result: Result<Attributes, BryndzaError>)
        ensures
            result matches Ok(properties) && properties@ == Self::spec_properties(),
    {
        Ok(
            Attributes::new().with(String::from_str("AutomationId"), String::from_str("")).with(
                String::from_str("ClassName"),
                String::from_str(""),
            ).with(String::from_str("Name"), String::from_str("")),
        )
    }

    /// Whether the element is enabled.
    pub fn is_enabled(&self) -> (result: Result<bool, BryndzaError>)
        ensures
            result == Ok::<bool, BryndzaError>(true),
    {
        Ok(true)
    }

    /// Whether the element is visible.
    pub fn is_visible(&self) -> (result: Result<bool, BryndzaError>)
        ensures
            result == Ok::<bool, BryndzaError>(true),
    {
        Ok(true)
    }
}

} // verus!
