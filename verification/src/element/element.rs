//! Elements: point-in-time snapshots of matched UI nodes.

use vstd::prelude::*;
use vstd::string::*;
use crate::element::attributes::{lookup, text_of, Attributes};

verus! {

/// Half of `n`, rounded towards zero.
pub open spec fn half(n: int) -> int {
    if n >= 0 {
        n / 2
    } else {
        -((-n) / 2)
    }
}

/// A point on the screen, in integer pixels.
#[derive(Debug, Clone, Copy, PartialEq, Eq, Structural)]
pub struct Point {
    pub x: i32,
    pub y: i32,
}

impl Point {
    /// The point at `(x, y)`.
    pub fn new(x: i32, y: i32) -> (point: Self)
        ensures
            point == (Point { x, y }),
    {
        Point { x, y }
    }
}

/// A rectangular area of the screen, in integer pixels.
#[derive(Debug, Clone, Copy, PartialEq, Eq, Structural)]
pub struct Rectangle {
    pub x: i32,
    pub y: i32,
    pub width: i32,
    pub height: i32,
}

impl Rectangle {
    /// The rectangle with its top-left corner at `(x, y)`.
    pub fn new(x: i32, y: i32, width: i32, height: i32) -> (rectangle: Self)
        ensures
            rectangle == (Rectangle { x, y, width, height }),
    {
        Rectangle { x, y, width, height }
    }

    /// Whether `point` lies in the rectangle: the left and top edges belong
    /// to it, the right and bottom edges do not.
    pub open spec fn spec_contains(self, point: Point) -> bool {
        &&& point.x >= self.x
        &&& point.x < self.x + self.width
        &&& point.y >= self.y
        &&& point.y < self.y + self.height
    }

    /// The horizontal coordinate of the center.
    pub open spec fn center_x(self) -> int {
        self.x + half(self.width as int)
    }

    /// The vertical coordinate of the center.
    pub open spec fn center_y(self) -> int {
        self.y + half(self.height as int)
    }

    /// Whether both coordinates of the center are representable.
    pub open spec fn center_fits(self) -> bool {
        &&& i32::MIN <= self.center_x() <= i32::MAX
        &&& i32::MIN <= self.center_y() <= i32::MAX
    }

    /// Whether `point` lies in the rectangle.
    pub fn contains(&self, point: &Point) -> (inside: bool)
        ensures
            inside == self.spec_contains(*point),
    {
        let px = point.x as i64;
        let py = point.y as i64;
        px >= self.x as i64 && px < self.x as i64 + self.width as i64 && py >= self.y as i64 && py
            < self.y as i64 + self.height as i64
    }

    /// The center of the rectangle: `(x + width / 2, y + height / 2)`, each
    /// half rounded towards zero.
    pub fn center(&self) -> (point: Point)
        requires
            self.center_fits(),
        ensures
            point.x == self.center_x(),
            point.y == self.center_y(),
    {
        Point { x: self.x + self.width / 2, y: self.y + self.height / 2 }
    }
}

/// The direction of a swipe gesture.
#[derive(Debug, Clone, Copy, PartialEq, Eq, Structural)]
pub enum SwipeDirection {
    Up,
    Down,
    Left,
    Right,
}

/// What an element holds, as mathematical values.
pub struct ElementView {
    pub id: Seq<char>,
    pub attributes: Map<Seq<char>, Seq<char>>,
    pub bounds: Rectangle,
    pub visible: bool,
    pub enabled: bool,
}

/// A snapshot of one UI node, taken when it was located. It is never
/// updated, and nothing ties it to the live node afterwards.
#[derive(Debug)]
pub struct Element {
    pub(crate) id: String,
    pub(crate) attributes: Attributes,
    pub(crate) bounds: Rectangle,
    pub(crate) visible: bool,
    pub(crate) enabled: bool,
}

impl View for Element {
    type V = ElementView;

    closed spec fn view(&self) -> ElementView {
        ElementView {
            id: self.id@,
            attributes: self.attributes@,
            bounds: self.bounds,
            visible: self.visible,
            enabled: self.enabled,
        }
    }
}

impl ElementView {
    /// The value under `"text"`.
    pub open spec fn text(self) -> Option<Seq<char>> {
        lookup(self.attributes, "text"@)
    }

    /// The value under `"className"`.
    pub open spec fn class_name(self) -> Option<Seq<char>> {
        lookup(self.attributes, "className"@)
    }

    /// The value under `"resourceId"`, or else the one under
    /// `"accessibilityId"`.
    pub open spec fn resource_id(self) -> Option<Seq<char>> {
        if self.attributes.contains_key("resourceId"@) {
            Some(self.attributes["resourceId"@])
        } else {
            lookup(self.attributes, "accessibilityId"@)
        }
    }

    /// Whether the element is ready to be interacted with: visible and
    /// enabled.
    pub open spec fn is_clickable(self) -> bool {
        self.visible && self.enabled
    }
}

impl Element {
    /// The element with the given identity, attributes, bounds and state.
    pub fn new(
        id: String,
        attributes: Attributes,
        bounds: Rectangle,
        visible: bool,
        enabled: bool,
    ) -> (element: Self)
        ensures
            element@ == (ElementView {
                id: id@,
                attributes: attributes@,
                bounds,
                visible,
                enabled,
            }),
    {
        Element { id, attributes, bounds, visible, enabled }
    }

    /// The identifier that the platform gave the element.
    pub fn id(&self) -> (id: &str)
        ensures
            id@ == self@.id,
    {
        self.id.as_str()
    }

    /// The text content: the value under `"text"`.
    pub fn text(&self) -> (text: Option<&str>)
        ensures
            text_of(text) == self@.text(),
    {
        self.attributes.get("text")
    }

    /// The class name: the value under `"className"`.
    pub fn class_name(&self) -> (class_name: Option<&str>)
        ensures
            text_of(class_name) == self@.class_name(),
    {
        self.attributes.get("className")
    }

    /// The resource identifier: the value under `"resourceId"`, or else the
    /// one under `"accessibilityId"`.
    pub fn resource_id(&self) -> (resource_id: Option<&str>)
        ensures
            text_of(resource_id) == self@.resource_id(),
    {
        match self.attributes.get("resourceId") {
            Some(id) => Some(id),
            None => self.attributes.get("accessibilityId"),
        }
    }

    /// The value of the attribute called `name`; names are case-sensitive.
    pub fn attribute(&self, name: &str) -> (value: Option<&str>)
        ensures
            text_of(value) == lookup(self@.attributes, name@),
    {
        self.attributes.get(name)
    }

    /// All attributes.
    pub fn attributes(&self) -> (attributes: &Attributes)
        ensures
            attributes@ == self@.attributes,
    {
        &self.attributes
    }

    /// The bounds.
    pub fn bounds(&self) -> (bounds: &Rectangle)
        ensures
            *bounds == self@.bounds,
    {
        &self.bounds
    }

    /// The center of the bounds.
    pub fn center(&self) -> (point: Point)
        requires
            self@.bounds.center_fits(),
        ensures
            point.x == self@.bounds.center_x(),
            point.y == self@.bounds.center_y(),
    {
        self.bounds.center()
    }

    /// Whether the element is visible.
    pub fn is_visible(&self) -> (visible: bool)
        ensures
            visible == self@.visible,
    {
        self.visible
    }

    /// Whether the element is enabled.
    pub fn is_enabled(&self) -> (enabled: bool)
        ensures
            enabled == self@.enabled,
    {
        self.enabled
    }

    /// Whether the element can be clicked: it is visible and enabled.
    pub fn is_clickable(&self) -> (clickable: bool)
        ensures
            clickable == self@.is_clickable(),
            clickable <==> self@.visible && self@.enabled,
    {
        self.visible && self.enabled
    }
}

impl Clone for Element {
    fn clone(&self) -> (copy: Self)
        ensures
            copy@ == self@,
    {
        Element {
            id: self.id.clone(),
            attributes: self.attributes.clone(),
            bounds: self.bounds,
            visible: self.visible,
            enabled: self.enabled,
        }
    }
}

} // verus!
