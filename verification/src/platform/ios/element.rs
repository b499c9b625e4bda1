//! Elements as XCTest reports them.

use vstd::prelude::*;
use vstd::string::*;
use crate::element::attributes::{lookup, spec_flag, text_of, Attributes};
use crate::element::element::{Element, ElementView, Rectangle};
use crate::error::BryndzaError;
use crate::text::{signed_decimal, signed_decimal_string};

verus! {

/// The element types of XCTest.
#[derive(Debug, Clone, Copy, PartialEq, Eq, Structural)]
pub enum IOSElementType {
    Any,
    Other,
    Application,
    Group,
    Window,
    Sheet,
    Drawer,
    Alert,
    Dialog,
    Button,
    RadioButton,
    RadioGroup,
    CheckBox,
    DisclosureTriangle,
    PopUpButton,
    ComboBox,
    MenuButton,
    ToolbarButton,
    Popover,
    Keyboard,
    Key,
    NavigationBar,
    TabBar,
    TabGroup,
    Toolbar,
    StatusBar,
    Table,
    TableRow,
    TableColumn,
    Outline,
    OutlineRow,
    Browser,
    CollectionView,
    Slider,
    PageIndicator,
    ProgressIndicator,
    ActivityIndicator,
    SegmentedControl,
    Picker,
    PickerWheel,
    Switch,
    Toggle,
    Link,
    Image,
    Icon,
    SearchField,
    ScrollView,
    ScrollBar,
    StaticText,
    TextField,
    SecureTextField,
    DatePicker,
    TextView,
    Menu,
    MenuItem,
    MenuBar,
    MenuBarItem,
    MapView,
    WebView,
    IncrementArrow,
    DecrementArrow,
    Timeline,
    RatingIndicator,
    ValueIndicator,
    SplitGroup,
    Splitter,
    RelevanceIndicator,
    ColorWell,
    HelpTag,
    Matte,
    DockItem,
    Ruler,
    RulerMarker,
    Grid,
    LevelIndicator,
    Cell,
    LayoutArea,
    LayoutItem,
    Handle,
    Stepper,
    Tab,
}

impl Default for IOSElementType {
    fn default() -> (element_type: Self)
        ensures
            element_type == IOSElementType::Any,
    {
        IOSElementType::Any
    }
}

/// An element of the XCTest hierarchy: its attributes, bounds and type.
pub struct IOSElement {
    /// The attributes as XCTest names them.
    pub attributes: Attributes,
    /// The bounds.
    pub bounds: Rectangle,
    /// The element type.
    pub element_type: IOSElementType,
}

impl IOSElement {
    /// The identity of the element that stands for this one: the
    /// `identifier`, or else `ios_` and the sum of the coordinates of the
    /// top-left corner.
    pub open spec fn spec_id(self) -> Seq<char> {
        match lookup(self.attributes@, "identifier"@) {
            Some(id) => id,
            None => "ios_"@ + signed_decimal(self.bounds.x + self.bounds.y),
        }
    }

    /// The element that stands for this one: the same attributes and
    /// bounds, visible unless `visible` says otherwise, and enabled unless
    /// `enabled` says otherwise.
    pub open spec fn spec_element(self) -> ElementView {
        ElementView {
            id: self.spec_id(),
            attributes: self.attributes@,
            bounds: self.bounds,
            visible: spec_flag(self.attributes@, "visible"@, true),
            enabled: spec_flag(self.attributes@, "enabled"@, true),
        }
    }

    /// An element with the given attributes, bounds and type.
    pub fn new(attributes: Attributes, bounds: Rectangle, element_type: IOSElementType) -> (element:
        Self)
        ensures
            element.attributes == attributes,
            element.bounds == bounds,
            element.element_type == element_type,
    {
        IOSElement { attributes, bounds, element_type }
    }

    /// The element that stands for this one.
    pub fn to_element(&self) -> (result: Result<Element, BryndzaError>)
        ensures
            result matches Ok(element) && element@ == self.spec_element(),
    {
        let visible = self.attributes.flag("visible", true);
        let enabled = self.attributes.flag("enabled", true);
        let id = match self.attributes.get("identifier") {
            Some(id) => String::from_str(id),
            None => String::from_str("ios_").concat(
                signed_decimal_string(self.bounds.x as i64 + self.bounds.y as i64).as_str(),
            ),
        };
        Ok(Element::new(id, self.attributes.clone(), self.bounds, visible, enabled))
    }

    /// The accessibility identifier: the value of `identifier`.
    pub fn accessibility_identifier(&self) -> (value: Option<&str>)
        ensures
            text_of(value) == lookup(self.attributes@, "identifier"@),
    {
        self.attributes.get("identifier")
    }

    /// The label: the value of `label`.
    pub fn label(&self) -> (value: Option<&str>)
        ensures
            text_of(value) == lookup(self.attributes@, "label"@),
    {
        self.attributes.get("label")
    }

    /// The value: the value of `value`.
    pub fn value(&self) -> (value: Option<&str>)
        ensures
            text_of(value) == lookup(self.attributes@, "value"@),
    {
        self.attributes.get("value")
    }

    /// The title: the value of `title`.
    pub fn title(&self) -> (value: Option<&str>)
        ensures
            text_of(value) == lookup(self.attributes@, "title"@),
    {
        self.attributes.get("title")
    }

    /// The placeholder text: the value of `placeholderValue`.
    pub fn placeholder_value(&self) -> (value: Option<&str>)
        ensures
            text_of(value) == lookup(self.attributes@, "placeholderValue"@),
    {
        self.attributes.get("placeholderValue")
    }

    /// The element type.
    pub fn element_type(&self) -> (element_type: &IOSElementType)
        ensures
            *element_type == self.element_type,
    {
        &self.element_type
    }

    /// Whether `enabled` is `true`; `true` where it is missing.
    pub fn is_enabled(&self) -> (set: bool)
        ensures
            set == spec_flag(self.attributes@, "enabled"@, true),
    {
        self.attributes.flag("enabled", true)
    }

    /// Whether `visible` is `true`; `true` where it is missing.
    pub fn is_visible(&self) -> (set: bool)
        ensures
            set == spec_flag(self.attributes@, "visible"@, true),
    {
        self.attributes.flag("visible", true)
    }

    /// Whether `exists` is `true`; `true` where it is missing.
    pub fn is_existing(&self) -> (set: bool)
        ensures
            set == spec_flag(self.attributes@, "exists"@, true),
    {
        self.attributes.flag("exists", true)
    }

    /// Whether `hittable` is `true`; `false` where it is missing.
    pub fn is_hittable(&self) -> (set: bool)
        ensures
            set == spec_flag(self.attributes@, "hittable"@, false),
    {
        self.attributes.flag("hittable", false)
    }

    /// Whether `selected` is `true`; `false` where it is missing.
    pub fn is_selected(&self) -> (set: bool)
        ensures
            set == spec_flag(self.attributes@, "selected"@, false),
    {
        self.attributes.flag("selected", false)
    }

    /// Whether `hasKeyboardFocus` is `true`; `false` where it is missing.
    pub fn has_keyboard_focus(&self) -> (set: bool)
        ensures
            set == spec_flag(self.attributes@, "hasKeyboardFocus"@, false),
    {
        self.attributes.flag("hasKeyboardFocus", false)
    }

    /// The bounds.
    pub fn bounds(&self) -> (bounds: &Rectangle)
        ensures
            *bounds == self.bounds,
    {
        &self.bounds
    }
}

} // verus!
