//! The standard conditions of a wait.
//!
//! Every condition is a check on what one search returned: it talks to no
//! backend and has no loop of its own. A wait searches, hands the result to
//! the check and the verdict to `on_attempt`, and repeats. A verdict of
//! `Ok` ends the wait; a verdict of `Err` means "not yet" to the wait,
//! whatever the error is.

use vstd::prelude::*;
use vstd::string::*;
use crate::element::attributes::lookup;
use crate::element::element::Element;
use crate::error::BryndzaError;
use crate::text::{contains_text, decimal, decimal_string, is_substring};
use crate::units::Millis;

verus! {

/// The standard conditions of a wait.
pub struct WaitConditions;

/// Whether `error` is a `Timeout` of no duration with the given text: the
/// verdict "not yet" of a condition.
pub open spec fn is_not_yet(error: BryndzaError, text: Seq<char>) -> bool {
    error matches BryndzaError::Timeout { duration, condition } && duration.millis == 0
        && condition@ == text
}

/// The text of the verdict that a text does not contain what is expected.
pub open spec fn text_lacks_message(text: Seq<char>, expected: Seq<char>) -> Seq<char> {
    "Element text '"@ + text + "' does not contain '"@ + expected + "'"@
}

/// The text of the verdict that a text is not what is expected.
pub open spec fn text_differs_message(text: Seq<char>, expected: Seq<char>) -> Seq<char> {
    "Element text '"@ + text + "' does not equal '"@ + expected + "'"@
}

/// The text of the verdict that an attribute is not what is expected.
pub open spec fn attribute_differs_message(
    name: Seq<char>,
    value: Seq<char>,
    expected: Seq<char>,
) -> Seq<char> {
    "Attribute '"@ + name + "' value '"@ + value + "' does not equal '"@ + expected + "'"@
}

/// The text of the verdict that an attribute is missing.
pub open spec fn attribute_missing_message(name: Seq<char>) -> Seq<char> {
    "Element does not have attribute '"@ + name + "'"@
}

/// The text of the verdict that a search found another number of elements
/// than expected.
pub open spec fn count_differs_message(expected: nat, found: nat) -> Seq<char> {
    "Expected "@ + decimal(expected) + " elements, found "@ + decimal(found)
}

/// The text of the verdict that a search found too few elements.
pub open spec fn count_short_message(minimum: nat, found: nat) -> Seq<char> {
    "Expected at least "@ + decimal(minimum) + " elements, found "@ + decimal(found)
}

fn not_yet(text: &str) -> (error: BryndzaError)
    ensures
        is_not_yet(error, text@),
{
    BryndzaError::timeout(Millis { millis: 0 }, text)
}

impl WaitConditions {
    /// The element is present: the search found it.
    pub fn element_present(found: Result<Element, BryndzaError>) -> (verdict: Result<
        Element,
        BryndzaError,
    >)
        ensures
            verdict == found,
    {
        found
    }

    /// The element is present and visible.
    pub fn element_visible(found: Result<Element, BryndzaError>) -> (verdict: Result<
        Element,
        BryndzaError,
    >)
        ensures
            match found {
                Ok(element) => if element@.visible {
                    verdict == found
                } else {
                    verdict matches Err(BryndzaError::ElementNotInteractable { reason }) && reason@
                        == "Element not visible"@
                },
                Err(_) => verdict == found,
            },
    {
        match found {
            Ok(element) => {
                if element.is_visible() {
                    Ok(element)
                } else {
                    Err(BryndzaError::element_not_interactable("Element not visible"))
                }
            },
            Err(error) => Err(error),
        }
    }

    /// The element is present and can be clicked: it is visible and enabled.
    pub fn element_clickable(found: Result<Element, BryndzaError>) -> (verdict: Result<
        Element,
        BryndzaError,
    >)
        ensures
            match found {
                Ok(element) => if element@.is_clickable() {
                    verdict == found
                } else {
                    verdict matches Err(BryndzaError::ElementNotInteractable { reason }) && reason@
                        == "Element not clickable"@
                },
                Err(_) => verdict == found,
            },
    {
        match found {
            Ok(element) => {
                if element.is_clickable() {
                    Ok(element)
                } else {
                    Err(BryndzaError::element_not_interactable("Element not clickable"))
                }
            },
            Err(error) => Err(error),
        }
    }

    /// The element is gone: the search reported `ElementNotFound`. Any
    /// other error of the search is passed on.
    pub fn element_not_present(found: Result<Element, BryndzaError>) -> (verdict: Result<
        (),
        BryndzaError,
    >)
        ensures
            match found {
                Ok(_) => verdict matches Err(error) && is_not_yet(error, "Element still present"@),
                Err(error) => if error is ElementNotFound {
                    verdict is Ok
                } else {
                    verdict == Err::<(), BryndzaError>(error)
                },
            },
    {
        match found {
            Ok(_) => Err(not_yet("Element still present")),
            Err(BryndzaError::ElementNotFound { .. }) => Ok(()),
            Err(error) => Err(error),
        }
    }

    /// The element is invisible or gone. Any error of the search but
    /// `ElementNotFound` is passed on.
    pub fn element_not_visible(found: Result<Element, BryndzaError>) -> (verdict: Result<
        (),
        BryndzaError,
    >)
        ensures
            match found {
                Ok(element) => if element@.visible {
                    verdict matches Err(error) && is_not_yet(error, "Element still visible"@)
                } else {
                    verdict is Ok
                },
                Err(error) => if error is ElementNotFound {
                    verdict is Ok
                } else {
                    verdict == Err::<(), BryndzaError>(error)
                },
            },
    {
        match found {
            Ok(element) => {
                if !element.is_visible() {
                    Ok(())
                } else {
                    Err(not_yet("Element still visible"))
                }
            },
            Err(BryndzaError::ElementNotFound { .. }) => Ok(()),
            Err(error) => Err(error),
        }
    }

    /// The element is present and its text contains `expected_text`.
    pub fn element_text_contains(found: Result<Element, BryndzaError>, expected_text: &str) -> (verdict:
        Result<Element, BryndzaError>)
        ensures
            match found {
                Ok(element) => match element@.text() {
                    Some(text) => if is_substring(expected_text@, text) {
                        verdict == found
                    } else {
                        verdict matches Err(error) && is_not_yet(
                            error,
                            text_lacks_message(text, expected_text@),
                        )
                    },
                    None => verdict matches Err(error) && is_not_yet(
                        error,
                        "Element has no text content"@,
                    ),
                },
                Err(_) => verdict == found,
            },
    {
        match found {
            Ok(element) => {
                let complaint: Option<String> = match element.text() {
                    Some(text) => {
                        if contains_text(text, expected_text) {
                            None
                        } else {
                            Some(
                                String::from_str("Element text '").concat(text).concat(
                                    "' does not contain '",
                                ).concat(expected_text).concat("'"),
                            )
                        }
                    },
                    None => Some(String::from_str("Element has no text content")),
                };
                match complaint {
                    None => Ok(element),
                    Some(text) => Err(not_yet(text.as_str())),
                }
            },
            Err(error) => Err(error),
        }
    }

    /// The element is present and its text is exactly `expected_text`.
    pub fn element_text_equals(found: Result<Element, BryndzaError>, expected_text: &str) -> (verdict:
        Result<Element, BryndzaError>)
        ensures
            match found {
                Ok(element) => match element@.text() {
                    Some(text) => if text == expected_text@ {
                        verdict == found
                    } else {
                        verdict matches Err(error) && is_not_yet(
                            error,
                            text_differs_message(text, expected_text@),
                        )
                    },
                    None => verdict matches Err(error) && is_not_yet(
                        error,
                        "Element has no text content"@,
                    ),
                },
                Err(_) => verdict == found,
            },
    {
        match found {
            Ok(element) => {
                let expected = String::from_str(expected_text);
                let complaint: Option<String> = match element.text() {
                    Some(text) => {
                        if String::from_str(text) == expected {
                            None
                        } else {
                            Some(
                                String::from_str("Element text '").concat(text).concat(
                                    "' does not equal '",
                                ).concat(expected_text).concat("'"),
                            )
                        }
                    },
                    None => Some(String::from_str("Element has no text content")),
                };
                match complaint {
                    None => Ok(element),
                    Some(text) => Err(not_yet(text.as_str())),
                }
            },
            Err(error) => Err(error),
        }
    }

    /// The element is present and its attribute `attribute_name` has exactly
    /// the value `expected_value`.
    pub fn element_attribute_equals(
        found: Result<Element, BryndzaError>,
        attribute_name: &str,
        expected_value: &str,
    ) -> (verdict: Result<Element, BryndzaError>)
        ensures
            match found {
                Ok(element) => match lookup(element@.attributes, attribute_name@) {
                    Some(value) => if value == expected_value@ {
                        verdict == found
                    } else {
                        verdict matches Err(error) && is_not_yet(
                            error,
                            attribute_differs_message(attribute_name@, value, expected_value@),
                        )
                    },
                    None => verdict matches Err(error) && is_not_yet(
                        error,
                        attribute_missing_message(attribute_name@),
                    ),
                },
                Err(_) => verdict == found,
            },
    {
        match found {
            Ok(element) => {
                let expected = String::from_str(expected_value);
                let complaint: Option<String> = match element.attribute(attribute_name) {
                    Some(value) => {
                        if String::from_str(value) == expected {
                            None
                        } else {
                            Some(
                                String::from_str("Attribute '").concat(attribute_name).concat(
                                    "' value '",
                                ).concat(value).concat("' does not equal '").concat(
                                    expected_value,
                                ).concat("'"),
                            )
                        }
                    },
                    None => Some(
                        String::from_str("Element does not have attribute '").concat(
                            attribute_name,
                        ).concat("'"),
                    ),
                };
                match complaint {
                    None => Ok(element),
                    Some(text) => Err(not_yet(text.as_str())),
                }
            },
            Err(error) => Err(error),
        }
    }

    /// The search found exactly `expected_count` elements.
    pub fn element_count_equals(
        found: Result<Vec<Element>, BryndzaError>,
        expected_count: usize,
    ) -> (verdict: Result<Vec<Element>, BryndzaError>)
        ensures
            match found {
                Ok(elements) => if elements@.len() == expected_count {
                    verdict == found
                } else {
                    verdict matches Err(error) && is_not_yet(
                        error,
                        count_differs_message(expected_count as nat, elements@.len()),
                    )
                },
                Err(_) => verdict == found,
            },
    {
        match found {
            Ok(elements) => {
                if elements.len() == expected_count {
                    Ok(elements)
                } else {
                    let text = String::from_str("Expected ").concat(
                        decimal_string(expected_count as u64).as_str(),
                    ).concat(" elements, found ").concat(
                        decimal_string(elements.len() as u64).as_str(),
                    );
                    Err(not_yet(text.as_str()))
                }
            },
            Err(error) => Err(error),
        }
    }

    /// The search found at least `min_count` elements.
    pub fn element_count_at_least(
        found: Result<Vec<Element>, BryndzaError>,
        min_count: usize,
    ) -> (verdict: Result<Vec<Element>, BryndzaError>)
        ensures
            match found {
                Ok(elements) => if elements@.len() >= min_count {
                    verdict == found
                } else {
                    verdict matches Err(error) && is_not_yet(
                        error,
                        count_short_message(min_count as nat, elements@.len()),
                    )
                },
                Err(_) => verdict == found,
            },
    {
        match found {
            Ok(elements) => {
                if elements.len() >= min_count {
                    Ok(elements)
                } else {
                    let text = String::from_str("Expected at least ").concat(
                        decimal_string(min_count as u64).as_str(),
                    ).concat(" elements, found ").concat(
                        decimal_string(elements.len() as u64).as_str(),
                    );
                    Err(not_yet(text.as_str()))
                }
            },
            Err(error) => Err(error),
        }
    }

    /// A condition of the caller's own held: it returned `true`. Its errors
    /// are passed on.
    pub fn custom_condition(outcome: Result<bool, BryndzaError>) -> (verdict: Result<
        (),
        BryndzaError,
    >)
        ensures
            match outcome {
                Ok(held) => if held {
                    verdict is Ok
                } else {
                    verdict matches Err(error) && is_not_yet(error, "Custom condition not met"@)
                },
                Err(error) => verdict == Err::<(), BryndzaError>(error),
            },
    {
        match outcome {
            Ok(true) => Ok(()),
            Ok(false) => Err(not_yet("Custom condition not met")),
            Err(error) => Err(error),
        }
    }
}

} // verus!
