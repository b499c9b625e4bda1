//! Locators: composable descriptions of the elements to find.
//!
//! A locator is a predicate on UI nodes. How a node is held against it is
//! defined with the node model; this module holds the locator itself and the
//! text that describes it in error messages.

use vstd::prelude::*;
use vstd::string::*;
use crate::element::element::Rectangle;
use crate::text::{signed_decimal, signed_decimal_string};
use crate::units::Permille;

verus! {

/// Where the picture of an image locator comes from.
#[derive(Debug, Clone, PartialEq)]
pub enum ImageData {
    /// The path of an image file.
    FilePath(String),
    /// The image itself, base64-encoded.
    Base64(String),
}

/// A picture to look for on the screen.
#[derive(Debug, Clone, PartialEq)]
pub struct ImageLocator {
    /// The picture.
    pub image_data: ImageData,
    /// How similar a region has to be, between zero and one.
    pub threshold: Permille,
    /// The part of the screen to search, or all of it.
    pub search_region: Option<Rectangle>,
}

impl ImageLocator {
    /// The text that describes the image locator.
    pub open spec fn spec_description(self) -> Seq<char> {
        match self.image_data {
            ImageData::FilePath(path) => "file:"@ + path@ + " (threshold: "@
                + self.threshold.spec_text() + ")"@,
            ImageData::Base64(_) => "base64_image (threshold: "@ + self.threshold.spec_text()
                + ")"@,
        }
    }

    /// An image locator for the file at `path`, with a threshold of 0.8 and
    /// no search region.
    pub fn from_file(path: &str) -> (locator: Self)
        ensures
            locator.image_data matches ImageData::FilePath(p) && p@ == path@,
            locator.threshold.thousandths == 800,
            locator.search_region is None,
    {
        ImageLocator {
            image_data: ImageData::FilePath(String::from_str(path)),
            threshold: Permille::new(800),
            search_region: None,
        }
    }

    /// An image locator for base64-encoded image data, with a threshold of
    /// 0.8 and no search region.
    pub fn from_base64(data: &str) -> (locator: Self)
        ensures
            locator.image_data matches ImageData::Base64(d) && d@ == data@,
            locator.threshold.thousandths == 800,
            locator.search_region is None,
    {
        ImageLocator {
            image_data: ImageData::Base64(String::from_str(data)),
            threshold: Permille::new(800),
            search_region: None,
        }
    }

    /// The same locator with the given threshold, clamped into the range
    /// from zero to one.
    pub fn threshold(self, threshold: Permille) -> (locator: Self)
        ensures
            locator.image_data == self.image_data,
            locator.search_region == self.search_region,
            locator.threshold.thousandths == if threshold.thousandths > 1000 {
                1000
            } else {
                threshold.thousandths
            },
    {
        ImageLocator {
            image_data: self.image_data,
            threshold: threshold.clamp_to_unit(),
            search_region: self.search_region,
        }
    }

    /// The same locator, searching only `region`.
    pub fn search_region(self, region: Rectangle) -> (locator: Self)
        ensures
            locator.image_data == self.image_data,
            locator.threshold == self.threshold,
            locator.search_region == Some(region),
    {
        ImageLocator {
            image_data: self.image_data,
            threshold: self.threshold,
            search_region: Some(region),
        }
    }

    /// Describes the image locator.
    pub fn description(&self) -> (text: String)
        ensures
            text@ == self.spec_description(),
    {
        let threshold = self.threshold.to_text();
        match &self.image_data {
            ImageData::FilePath(path) => String::from_str("file:").concat(path.as_str()).concat(
                " (threshold: ",
            ).concat(threshold.as_str()).concat(")"),
            ImageData::Base64(_) => String::from_str("base64_image (threshold: ").concat(
                threshold.as_str(),
            ).concat(")"),
        }
    }
}

/// A description of the elements to find: one of the leaf kinds, which
/// look at a single property of a node, or a combination of locators.
#[derive(Debug, PartialEq)]
pub enum Locator {
    /// The element with this identifier.
    Id(String),
    /// Elements of this class.
    ClassName(String),
    /// Elements with exactly this text.
    Text(String),
    /// Elements whose text contains this text.
    PartialText(String),
    /// The element with this accessibility identifier.
    AccessibilityId(String),
    /// Elements selected by an XPath expression.
    XPath(String),
    /// Elements selected by a CSS selector.
    CssSelector(String),
    /// Elements with this tag name.
    TagName(String),
    /// Elements whose attribute `name` has this value.
    Attribute { name: String, value: String },
    /// Elements that look like a picture.
    Image(ImageLocator),
    /// The element at these screen coordinates.
    Coordinates { x: i32, y: i32 },
    /// Elements that every one of the locators describes.
    And(Vec<Locator>),
    /// Elements that at least one of the locators describes.
    Or(Vec<Locator>),
}

impl Clone for Locator {
    #[verifier::loop_isolation(false)]
    fn clone(&self) -> (copy: Self)
        decreases self,
    {
        match self {
            Locator::Id(id) => Locator::Id(id.clone()),
            Locator::ClassName(class_name) => Locator::ClassName(class_name.clone()),
            Locator::Text(text) => Locator::Text(text.clone()),
            Locator::PartialText(text) => Locator::PartialText(text.clone()),
            Locator::AccessibilityId(id) => Locator::AccessibilityId(id.clone()),
            Locator::XPath(xpath) => Locator::XPath(xpath.clone()),
            Locator::CssSelector(selector) => Locator::CssSelector(selector.clone()),
            Locator::TagName(tag_name) => Locator::TagName(tag_name.clone()),
            Locator::Attribute { name, value } => Locator::Attribute {
                name: name.clone(),
                value: value.clone(),
            },
            Locator::Image(image) => Locator::Image(image.clone()),
            Locator::Coordinates { x, y } => Locator::Coordinates { x: *x, y: *y },
            Locator::And(locators) => {
                let mut copies: Vec<Locator> = Vec::new();
                let mut i: usize = 0;
                while i < locators.len()
                    invariant
                        i <= locators.len(),
                    decreases locators.len() - i,
                {
                    copies.push(locators[i].clone());
                    i += 1;
                }
                Locator::And(copies)
            },
            Locator::Or(locators) => {
                let mut copies: Vec<Locator> = Vec::new();
                let mut i: usize = 0;
                while i < locators.len()
                    invariant
                        i <= locators.len(),
                    decreases locators.len() - i,
                {
                    copies.push(locators[i].clone());
                    i += 1;
                }
                Locator::Or(copies)
            },
        }
    }
}

/// The text that describes a locator in error messages.
pub open spec fn describe(locator: Locator) -> Seq<char>
    decreases locator,
{
    match locator {
        Locator::Id(id) => "id='"@ + id@ + "'"@,
        Locator::ClassName(class_name) => "className='"@ + class_name@ + "'"@,
        Locator::Text(text) => "text='"@ + text@ + "'"@,
        Locator::PartialText(text) => "partialText='"@ + text@ + "'"@,
        Locator::AccessibilityId(id) => "accessibilityId='"@ + id@ + "'"@,
        Locator::XPath(xpath) => "xpath='"@ + xpath@ + "'"@,
        Locator::CssSelector(selector) => "cssSelector='"@ + selector@ + "'"@,
        Locator::TagName(tag_name) => "tagName='"@ + tag_name@ + "'"@,
        Locator::Attribute { name, value } => name@ + "='"@ + value@ + "'"@,
        Locator::Image(image) => "image='"@ + image.spec_description() + "'"@,
        Locator::Coordinates { x, y } => "coordinates=("@ + signed_decimal(x as int) + ", "@
            + signed_decimal(y as int) + ")"@,
        Locator::And(locators) => "AND("@ + describe_first(locators@, locators@.len()) + ")"@,
        Locator::Or(locators) => "OR("@ + describe_first(locators@, locators@.len()) + ")"@,
    }
}

/// The descriptions of the first `count` locators, separated by `", "`.
pub open spec fn describe_first(locators: Seq<Locator>, count: nat) -> Seq<char>
    decreases locators, count,
{
    if count == 0 || count > locators.len() {
        Seq::empty()
    } else if count == 1 {
        describe(locators[0])
    } else {
        describe_first(locators, (count - 1) as nat) + ", "@ + describe(locators[count - 1])
    }
}

impl Locator {
    /// Locates the element with the given identifier.
    pub fn id(id: &str) -> (locator: Self)
        ensures
            locator matches Locator::Id(s) && s@ == id@,
    {
        Locator::Id(String::from_str(id))
    }

    /// Locates elements of the given class.
    pub fn class_name(class_name: &str) -> (locator: Self)
        ensures
            locator matches Locator::ClassName(s) && s@ == class_name@,
    {
        Locator::ClassName(String::from_str(class_name))
    }

    /// Locates elements with exactly the given text.
    pub fn text(text: &str) -> (locator: Self)
        ensures
            locator matches Locator::Text(s) && s@ == text@,
    {
        Locator::Text(String::from_str(text))
    }

    /// Locates elements whose text contains the given text.
    pub fn partial_text(text: &str) -> (locator: Self)
        ensures
            locator matches Locator::PartialText(s) && s@ == text@,
    {
        Locator::PartialText(String::from_str(text))
    }

    /// Locates the element with the given accessibility identifier.
    pub fn accessibility_id(id: &str) -> (locator: Self)
        ensures
            locator matches Locator::AccessibilityId(s) && s@ == id@,
    {
        Locator::AccessibilityId(String::from_str(id))
    }

    /// Locates elements by an XPath expression.
    pub fn xpath(xpath: &str) -> (locator: Self)
        ensures
            locator matches Locator::XPath(s) && s@ == xpath@,
    {
        Locator::XPath(String::from_str(xpath))
    }

    /// Locates elements by a CSS selector.
    pub fn css_selector(selector: &str) -> (locator: Self)
        ensures
            locator matches Locator::CssSelector(s) && s@ == selector@,
    {
        Locator::CssSelector(String::from_str(selector))
    }

    /// Locates elements with the given tag name.
    pub fn tag_name(tag_name: &str) -> (locator: Self)
        ensures
            locator matches Locator::TagName(s) && s@ == tag_name@,
    {
        Locator::TagName(String::from_str(tag_name))
    }

    /// Locates elements whose attribute `name` has the given value.
    pub fn attribute(name: &str, value: &str) -> (locator: Self)
        ensures
            locator matches Locator::Attribute { name: n, value: v } && n@ == name@ && v@
                == value@,
    {
        Locator::Attribute { name: String::from_str(name), value: String::from_str(value) }
    }

    /// Locates elements that look like a picture.
    pub fn image(image_locator: ImageLocator) -> (locator: Self)
        ensures
            locator == Locator::Image(image_locator),
    {
        Locator::Image(image_locator)
    }

    /// Locates the element at the given screen coordinates.
    pub fn coordinates(x: i32, y: i32) -> (locator: Self)
        ensures
            locator == (Locator::Coordinates { x, y }),
    {
        Locator::Coordinates { x, y }
    }

    /// Locates elements that every one of `locators` describes. With no
    /// locators, that is every element.
    pub fn and(locators: Vec<Locator>) -> (locator: Self)
        ensures
            locator == Locator::And(locators),
    {
        Locator::And(locators)
    }

    /// Locates elements that at least one of `locators` describes. With no
    /// locators, that is no element.
    pub fn or(locators: Vec<Locator>) -> (locator: Self)
        ensures
            locator == Locator::Or(locators),
    {
        Locator::Or(locators)
    }

    /// Describes the locator, for error messages.
    pub fn description(&self) -> (text: String)
        ensures
            text@ == describe(*self),
        decreases self,
    {
        match self {
            Locator::Id(id) => String::from_str("id='").concat(id.as_str()).concat("'"),
            Locator::ClassName(class_name) => String::from_str("className='").concat(
                class_name.as_str(),
            ).concat("'"),
            Locator::Text(text) => String::from_str("text='").concat(text.as_str()).concat("'"),
            Locator::PartialText(text) => String::from_str("partialText='").concat(
                text.as_str(),
            ).concat("'"),
            Locator::AccessibilityId(id) => String::from_str("accessibilityId='").concat(
                id.as_str(),
            ).concat("'"),
            Locator::XPath(xpath) => String::from_str("xpath='").concat(xpath.as_str()).concat(
                "'",
            ),
            Locator::CssSelector(selector) => String::from_str("cssSelector='").concat(
                selector.as_str(),
            ).concat("'"),
            Locator::TagName(tag_name) => String::from_str("tagName='").concat(
                tag_name.as_str(),
            ).concat("'"),
            Locator::Attribute { name, value } => name.clone().concat("='").concat(
                value.as_str(),
            ).concat("'"),
            Locator::Image(image) => String::from_str("image='").concat(
                image.description().as_str(),
            ).concat("'"),
            Locator::Coordinates { x, y } => String::from_str("coordinates=(").concat(
                signed_decimal_string(*x as i64).as_str(),
            ).concat(", ").concat(signed_decimal_string(*y as i64).as_str()).concat(")"),
            Locator::And(locators) => String::from_str("AND(").concat(
                Self::description_of_all(locators).as_str(),
            ).concat(")"),
            Locator::Or(locators) => String::from_str("OR(").concat(
                Self::description_of_all(locators).as_str(),
            ).concat(")"),
        }
    }

    #[verifier::loop_isolation(false)]
    fn description_of_all(locators: &Vec<Locator>) -> (text: String)
        ensures
            text@ == describe_first(locators@, locators@.len()),
        decreases locators,
    {
        let mut text = String::new();
        let mut i: usize = 0;
        while i < locators.len()
            invariant
                i <= locators.len(),
                text@ == describe_first(locators@, i as nat),
            decreases locators.len() - i,
        {
            if i > 0 {
                text.append(", ");
            }
            let one = locators[i].description();
            text.append(one.as_str());
            i += 1;
            proof {
                assert(text@ =~= describe_first(locators@, i as nat));
            }
        }
        text
    }
}

} // verus!
