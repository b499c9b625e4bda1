//! Elements as the Android UI Automator reports them.

use vstd::prelude::*;
use vstd::string::*;
use crate::element::attributes::{lookup, spec_flag, text_of, Attributes};
use crate::element::element::{Element, ElementView, Rectangle};
use crate::error::BryndzaError;
use crate::text::{signed_decimal, signed_decimal_string};

verus! {

/// A node of the UI Automator hierarchy: its attributes and its bounds.
pub struct AndroidElement {
    /// The attributes as UI Automator names them.
    pub attributes: Attributes,
    /// The bounds.
    pub bounds: Rectangle,
}

impl AndroidElement {
    /// The identity of the element that stands for this node: the
    /// `resource-id`, or else `android_` and the sum of the coordinates of
    /// the top-left corner.
    pub open spec fn spec_id(self) -> Seq<char> {
        match lookup(self.attributes@, "resource-id"@) {
            Some(id) => id,
            None => "android_"@ + signed_decimal(self.bounds.x + self.bounds.y),
        }
    }

    /// The element that stands for this node: the same attributes and
    /// bounds, visible unless `displayed` says otherwise, and enabled unless
    /// `enabled` says otherwise.
    pub open spec fn spec_element(self) -> ElementView {
        ElementView {
            id: self.spec_id(),
            attributes: self.attributes@,
            bounds: self.bounds,
            visible: spec_flag(self.attributes@, "displayed"@, true),
            enabled: spec_flag(self.attributes@, "enabled"@, true),
        }
    }

    /// A node with the given attributes and bounds.
    pub fn new(attributes: Attributes, bounds: Rectangle) -> (element: Self)
        ensures
            element.attributes == attributes,
            element.bounds == bounds,
    {
        AndroidElement { attributes, bounds }
    }

    /// The element that stands for this node.
    pub fn to_element(&self) -> (result: Result<Element, BryndzaError>)
        ensures
            result matches Ok(element) && element@ == self.spec_element(),
    {
        let visible = self.attributes.flag("displayed", true);
        let enabled = self.attributes.flag("enabled", true);
        let id = match self.attributes.get("resource-id") {
            Some(id) => String::from_str(id),
            None => String::from_str("android_").concat(
                signed_decimal_string(self.bounds.x as i64 + self.bounds.y as i64).as_str(),
            ),
        };
        Ok(Element::new(id, self.attributes.clone(), self.bounds, visible, enabled))
    }

    /// The resource identifier: the value of `resource-id`.
    pub fn resource_id(&self) -> (value: Option<&str>)
        ensures
            text_of(value) == lookup(self.attributes@, "resource-id"@),
    {
        self.attributes.get("resource-id")
    }

    /// The class name: the value of `class`.
    pub fn class_name(&self) -> (value: Option<&str>)
        ensures
            text_of(value) == lookup(self.attributes@, "class"@),
    {
        self.attributes.get("class")
    }

    /// The text: the value of `text`.
    pub fn text(&self) -> (value: Option<&str>)
        ensures
            text_of(value) == lookup(self.attributes@, "text"@),
    {
        self.attributes.get("text")
    }

    /// The content description: the value of `content-desc`.
    pub fn content_desc(&self) -> (value: Option<&str>)
        ensures
            text_of(value) == lookup(self.attributes@, "content-desc"@),
    {
        self.attributes.get("content-desc")
    }

    /// The package: the value of `package`.
    pub fn package(&self) -> (value: Option<&str>)
        ensures
            text_of(value) == lookup(self.attributes@, "package"@),
    {
        self.attributes.get("package")
    }

    /// Whether `checkable` is `true`; `false` where it is missing.
    pub fn is_checkable(&self) -> (set: bool)
        ensures
            set == spec_flag(self.attributes@, "checkable"@, false),
    {
        self.attributes.flag("checkable", false)
    }

    /// Whether `checked` is `true`; `false` where it is missing.
    pub fn is_checked(&self) -> (set: bool)
        ensures
            set == spec_flag(self.attributes@, "checked"@, false),
    {
        self.attributes.flag("checked", false)
    }

    /// Whether `clickable` is `true`; `false` where it is missing.
    pub fn is_clickable(&self) -> (set: bool)
        ensures
            set == spec_flag(self.attributes@, "clickable"@, false),
    {
        self.attributes.flag("clickable", false)
    }

    /// Whether `enabled` is `true`; `true` where it is missing.
    pub fn is_enabled(&self) -> (set: bool)
        ensures
            set == spec_flag(self.attributes@, "enabled"@, true),
    {
        self.attributes.flag("enabled", true)
    }

    /// Whether `focusable` is `true`; `false` where it is missing.
    pub fn is_focusable(&self) -> (set: bool)
        ensures
            set == spec_flag(self.attributes@, "focusable"@, false),
    {
        self.attributes.flag("focusable", false)
    }

    /// Whether `focused` is `true`; `false` where it is missing.
    pub fn is_focused(&self) -> (set: bool)
        ensures
            set == spec_flag(self.attributes@, "focused"@, false),
    {
        self.attributes.flag("focused", false)
    }

    /// Whether `scrollable` is `true`; `false` where it is missing.
    pub fn is_scrollable(&self) -> (set: bool)
        ensures
            set == spec_flag(self.attributes@, "scrollable"@, false),
    {
        self.attributes.flag("scrollable", false)
    }

    /// Whether `long-clickable` is `true`; `false` where it is missing.
    pub fn is_long_clickable(&self) -> (set: bool)
        ensures
            set == spec_flag(self.attributes@, "long-clickable"@, false),
    {
        self.attributes.flag("long-clickable", false)
    }

    /// Whether `password` is `true`; `false` where it is missing.
    pub fn is_password(&self) -> (set: bool)
        ensures
            set == spec_flag(self.attributes@, "password"@, false),
    {
        self.attributes.flag("password", false)
    }

    /// Whether `selected` is `true`; `false` where it is missing.
    pub fn is_selected(&self) -> (set: bool)
        ensures
            set == spec_flag(self.attributes@, "selected"@, false),
    {
        self.attributes.flag("selected", false)
    }

    /// The bounds.
    pub fn bounds(&self) -> (bounds: &Rectangle)
        ensures
            *bounds == self.bounds,
    {
        &self.bounds
    }
}

} // verus!
