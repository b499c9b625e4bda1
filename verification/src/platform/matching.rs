//! The search over a native accessibility tree.
//!
//! A backend hands over a snapshot of its tree as `NativeNode`s. Each node
//! carries the four properties that locators look at: role (or class), title
//! (or text), identifier and description. The search walks the snapshot
//! depth-first, each node before its children and the children in their
//! native order, holds every node against the locator and turns the matching
//! nodes into elements.
//!
//! Which nodes a locator matches:
//! - `Id` compares the identifier, `ClassName` the role, `Text` the title and
//!   `AccessibilityId` the description, each for equality;
//! - `PartialText` matches when the title contains the text;
//! - `And` matches when every sublocator matches, so the empty `And` matches
//!   every node; `Or` matches when some sublocator matches, so the empty `Or`
//!   matches no node;
//! - the remaining kinds (`XPath`, `CssSelector`, `TagName`, `Attribute`,
//!   `Image`, `Coordinates`) look at nothing that a snapshot holds and match
//!   no node.
//!
//! A node whose children could not be listed is still held against the
//! locator; only its subtree is missing from the walk. At the root the same
//! failure fails the whole search.
//!
//! An element is a snapshot and holds no reference to its node. To act on
//! the node, a backend finds it again with the locator that `locator_for`
//! makes from what the element recorded.

use vstd::prelude::*;
use vstd::string::*;
use crate::element::attributes::{lookup, Attributes};
use crate::element::element::{Element, ElementView, Rectangle};
use crate::element::locator::{describe, Locator};
use crate::error::{BryndzaError, PlatformError};
use crate::text::{contains_text, hexadecimal, hexadecimal_string, is_substring};

verus! {

/// One node of a native accessibility tree, as the backend saw it.
#[derive(Debug)]
pub struct NativeNode {
    /// The number by which the backend knows the node.
    pub handle: u64,
    /// The role or class of the node.
    pub role: Option<String>,
    /// The title or text of the node.
    pub title: Option<String>,
    /// The identifier of the node.
    pub identifier: Option<String>,
    /// The description of the node.
    pub description: Option<String>,
    /// The area of the screen that the node covers.
    pub bounds: Rectangle,
    /// Whether the node is visible.
    pub visible: bool,
    /// Whether the node is enabled.
    pub enabled: bool,
    /// The children in their native order, or the failure of listing them.
    pub children: Result<Vec<NativeNode>, PlatformError>,
}

/// Whether a property is present and has exactly the given value.
pub open spec fn property_is(property: Option<String>, value: Seq<char>) -> bool {
    property matches Some(text) && text@ == value
}

/// Whether a property is present and contains the given text.
pub open spec fn property_contains(property: Option<String>, part: Seq<char>) -> bool {
    property matches Some(text) && is_substring(part, text@)
}

/// Whether `locator` matches `node`.
pub open spec fn locator_matches(locator: Locator, node: NativeNode) -> bool
    decreases locator, 0nat,
{
    match locator {
        Locator::Id(id) => property_is(node.identifier, id@),
        Locator::ClassName(class_name) => property_is(node.role, class_name@),
        Locator::Text(text) => property_is(node.title, text@),
        Locator::PartialText(text) => property_contains(node.title, text@),
        Locator::AccessibilityId(id) => property_is(node.description, id@),
        Locator::XPath(_) => false,
        Locator::CssSelector(_) => false,
        Locator::TagName(_) => false,
        Locator::Attribute { .. } => false,
        Locator::Image(_) => false,
        Locator::Coordinates { .. } => false,
        Locator::And(locators) => all_match(locators@, locators@.len(), node),
        Locator::Or(locators) => any_matches(locators@, locators@.len(), node),
    }
}

/// Whether each of the first `count` of `locators` matches `node`.
pub open spec fn all_match(locators: Seq<Locator>, count: nat, node: NativeNode) -> bool
    decreases locators, count,
{
    if count == 0 || count > locators.len() {
        true
    } else {
        all_match(locators, (count - 1) as nat, node) && locator_matches(
            locators[count - 1],
            node,
        )
    }
}

/// Whether one of the first `count` of `locators` matches `node`.
pub open spec fn any_matches(locators: Seq<Locator>, count: nat, node: NativeNode) -> bool
    decreases locators, count,
{
    if count == 0 || count > locators.len() {
        false
    } else {
        any_matches(locators, (count - 1) as nat, node) || locator_matches(
            locators[count - 1],
            node,
        )
    }
}

/// The test that `locator` puts to a node.
pub open spec fn matcher(locator: Locator) -> spec_fn(NativeNode) -> bool {
    |node: NativeNode| locator_matches(locator, node)
}

/// The nodes of the tree under `node`, depth-first: the node itself, then
/// the subtrees of its children in their native order. A node whose
/// children could not be listed contributes only itself.
pub open spec fn preorder(node: NativeNode) -> Seq<NativeNode>
    decreases node, 0nat, 0nat,
{
    match node.children {
        Ok(children) => seq![node] + preorder_first(children@, children@.len()),
        Err(_) => seq![node],
    }
}

/// The nodes of the subtrees of the first `count` of `children`, one
/// subtree after the other.
pub open spec fn preorder_first(children: Seq<NativeNode>, count: nat) -> Seq<NativeNode>
    decreases children, count,
{
    if count == 0 || count > children.len() {
        Seq::empty()
    } else {
        preorder_first(children, (count - 1) as nat) + preorder(children[count - 1])
    }
}

/// The map `attributes`, with `value` under `name` where there is a value.
pub open spec fn with_property(
    attributes: Map<Seq<char>, Seq<char>>,
    name: Seq<char>,
    value: Option<String>,
) -> Map<Seq<char>, Seq<char>> {
    match value {
        Some(text) => attributes.insert(name, text@),
        None => attributes,
    }
}

/// The attributes of the element that stands for `node`: its properties
/// under the names `role`, `title`, `identifier` and `description`, each
/// where the node has it.
pub open spec fn node_attributes(node: NativeNode) -> Map<Seq<char>, Seq<char>> {
    with_property(
        with_property(
            with_property(
                with_property(Map::empty(), "role"@, node.role),
                "title"@,
                node.title,
            ),
            "identifier"@,
            node.identifier,
        ),
        "description"@,
        node.description,
    )
}

/// The identity of the element that stands for `node`: the identifier, or
/// else the title after `title:`, or else the role after `role:`, or else
/// the handle in hexadecimal after `ax_element:0x`.
pub open spec fn node_id(node: NativeNode) -> Seq<char> {
    match node.identifier {
        Some(identifier) => identifier@,
        None => match node.title {
            Some(title) => "title:"@ + title@,
            None => match node.role {
                Some(role) => "role:"@ + role@,
                None => "ax_element:0x"@ + hexadecimal(node.handle as nat),
            },
        },
    }
}

/// The element that stands for `node`.
pub open spec fn element_of(node: NativeNode) -> ElementView {
    ElementView {
        id: node_id(node),
        attributes: node_attributes(node),
        bounds: node.bounds,
        visible: node.visible,
        enabled: node.enabled,
    }
}

/// The elements that stand for `nodes`, in the same order.
pub open spec fn elements_of(nodes: Seq<NativeNode>) -> Seq<ElementView> {
    nodes.map_values(|node: NativeNode| element_of(node))
}

/// What a sequence of elements holds.
pub open spec fn views(elements: Seq<Element>) -> Seq<ElementView> {
    elements.map_values(|element: Element| element@)
}

/// The nodes of the tree under `root` that `locator` matches, in
/// depth-first order.
pub open spec fn matching_nodes(root: NativeNode, locator: Locator) -> Seq<NativeNode> {
    preorder(root).filter(matcher(locator))
}

/// The elements for those of `nodes` that `locator` matches.
pub open spec fn hits(nodes: Seq<NativeNode>, locator: Locator) -> Seq<ElementView> {
    elements_of(nodes.filter(matcher(locator)))
}

/// All of `found` in a search for every match, the first of `found` in a
/// search for one.
pub open spec fn wanted(found: Seq<ElementView>, find_multiple: bool) -> Seq<ElementView> {
    if find_multiple || found.len() == 0 {
        found
    } else {
        seq![found[0]]
    }
}

proof fn lemma_all_match_needs_each(
    locators: Seq<Locator>,
    count: nat,
    index: int,
    node: NativeNode,
)
    requires
        0 <= index < count <= locators.len(),
        all_match(locators, count, node),
    ensures
        locator_matches(locators[index], node),
    decreases count,
{
    if index < count - 1 {
        lemma_all_match_needs_each(locators, (count - 1) as nat, index, node);
    }
}

proof fn lemma_any_matches_takes_one(
    locators: Seq<Locator>,
    count: nat,
    index: int,
    node: NativeNode,
)
    requires
        0 <= index < count <= locators.len(),
        locator_matches(locators[index], node),
    ensures
        any_matches(locators, count, node),
    decreases count,
{
    if index < count - 1 {
        lemma_any_matches_takes_one(locators, (count - 1) as nat, index, node);
    }
}

proof fn lemma_hits_add(a: Seq<NativeNode>, b: Seq<NativeNode>, locator: Locator)
    ensures
        hits(a + b, locator) == hits(a, locator) + hits(b, locator),
{
    Seq::filter_distributes_over_add(a, b, matcher(locator));
    assert(hits(a + b, locator) =~= hits(a, locator) + hits(b, locator));
}

proof fn lemma_hits_one(node: NativeNode, locator: Locator)
    ensures
        hits(seq![node], locator) == if locator_matches(locator, node) {
            seq![element_of(node)]
        } else {
            Seq::<ElementView>::empty()
        },
{
    reveal_with_fuel(Seq::filter, 2);
    let one = seq![node];
    assert(one.drop_last() =~= Seq::<NativeNode>::empty());
    assert(one.last() == node);
    if locator_matches(locator, node) {
        assert(one.filter(matcher(locator)) =~= seq![node]);
        assert(hits(one, locator) =~= seq![element_of(node)]);
    } else {
        assert(one.filter(matcher(locator)) =~= Seq::<NativeNode>::empty());
        assert(hits(one, locator) =~= Seq::<ElementView>::empty());
    }
}

proof fn lemma_preorder_first_extends(children: Seq<NativeNode>, count: nat, total: nat)
    requires
        count <= total <= children.len(),
    ensures
        exists|rest: Seq<NativeNode>|
            preorder_first(children, total) == preorder_first(children, count) + rest,
    decreases total - count,
{
    if count == total {
        assert(preorder_first(children, total) =~= preorder_first(children, count)
            + Seq::<NativeNode>::empty());
    } else {
        lemma_preorder_first_extends(children, count, (total - 1) as nat);
        let rest = choose|rest: Seq<NativeNode>|
            preorder_first(children, (total - 1) as nat) == preorder_first(children, count)
                + rest;
        assert(preorder_first(children, total) =~= preorder_first(children, count) + (rest
            + preorder(children[total - 1])));
    }
}

proof fn lemma_wanted_of_prefix(
    first: Seq<ElementView>,
    rest: Seq<ElementView>,
    find_multiple: bool,
)
    requires
        !find_multiple,
        first.len() > 0,
    ensures
        wanted(first + rest, find_multiple) == wanted(first, find_multiple),
{
    assert((first + rest)[0] == first[0]);
}

impl NativeNode {
    /// Whether `locator` matches this node.
    #[verifier::loop_isolation(false)]
    pub fn matches(&self, locator: &Locator) -> (matched: bool)
        ensures
            matched == locator_matches(*locator, *self),
        decreases locator,
    {
        match locator {
            Locator::Id(id) => Self::property_equals(&self.identifier, id),
            Locator::ClassName(class_name) => Self::property_equals(&self.role, class_name),
            Locator::Text(text) => Self::property_equals(&self.title, text),
            Locator::PartialText(text) => match &self.title {
                Some(title) => contains_text(title.as_str(), text.as_str()),
                None => false,
            },
            Locator::AccessibilityId(id) => Self::property_equals(&self.description, id),
            Locator::And(locators) => {
                let mut i: usize = 0;
                while i < locators.len()
                    invariant
                        i <= locators.len(),
                        all_match(locators@, i as nat, *self),
                    decreases locators.len() - i,
                {
                    if !self.matches(&locators[i]) {
                        proof {
                            if all_match(locators@, locators@.len(), *self) {
                                lemma_all_match_needs_each(
                                    locators@,
                                    locators@.len(),
                                    i as int,
                                    *self,
                                );
                            }
                        }
                        return false;
                    }
                    i += 1;
                }
                true
            },
            Locator::Or(locators) => {
                let mut i: usize = 0;
                while i < locators.len()
                    invariant
                        i <= locators.len(),
                        !any_matches(locators@, i as nat, *self),
                    decreases locators.len() - i,
                {
                    if self.matches(&locators[i]) {
                        proof {
                            lemma_any_matches_takes_one(
                                locators@,
                                locators@.len(),
                                i as int,
                                *self,
                            );
                        }
                        return true;
                    }
                    i += 1;
                }
                false
            },
            Locator::XPath(_) => false,
            Locator::CssSelector(_) => false,
            Locator::TagName(_) => false,
            Locator::Attribute { .. } => false,
            Locator::Image(_) => false,
            Locator::Coordinates { .. } => false,
        }
    }

    fn property_equals(property: &Option<String>, value: &String) -> (equal: bool)
        ensures
            equal == property_is(*property, value@),
    {
        match property {
            Some(text) => *text == *value,
            None => false,
        }
    }

    fn put_property(attributes: Attributes, name: &str, value: &Option<String>) -> (result:
        Attributes)
        ensures
            result@ == with_property(attributes@, name@, *value),
    {
        match value {
            Some(text) => attributes.with(String::from_str(name), text.clone()),
            None => attributes,
        }
    }

    /// The element that stands for this node.
    pub fn to_element(&self) -> (element: Element)
        ensures
            element@ == element_of(*self),
    {
        let attributes = Attributes::new();
        let attributes = Self::put_property(attributes, "role", &self.role);
        let attributes = Self::put_property(attributes, "title", &self.title);
        let attributes = Self::put_property(attributes, "identifier", &self.identifier);
        let attributes = Self::put_property(attributes, "description", &self.description);
        let id = match &self.identifier {
            Some(identifier) => identifier.clone(),
            None => match &self.title {
                Some(title) => String::from_str("title:").concat(title.as_str()),
                None => match &self.role {
                    Some(role) => String::from_str("role:").concat(role.as_str()),
                    None => String::from_str("ax_element:0x").concat(
                        hexadecimal_string(self.handle).as_str(),
                    ),
                },
            },
        };
        Element::new(id, attributes, self.bounds, self.visible, self.enabled)
    }
}

/// Walks the tree under `node` and appends the elements for the matching
/// nodes to `found`: all of them in a search for every match, and in a
/// search for one only the first, after which nothing more is visited.
#[verifier::loop_isolation(false)]
fn search_element_recursive(
    node: &NativeNode,
    locator: &Locator,
    found: &mut Vec<Element>,
    find_multiple: bool,
)
    requires
        find_multiple || old(found)@.len() == 0,
    ensures
        views(final(found)@) == views(old(found)@) + wanted(
            hits(preorder(*node), *locator),
            find_multiple,
        ),
    decreases node,
{
    let ghost before = views(found@);
    proof {
        lemma_hits_one(*node, *locator);
    }
    if node.matches(locator) {
        let element = node.to_element();
        found.push(element);
        assert(views(found@) =~= before + seq![element_of(*node)]);
        if !find_multiple {
            proof {
                if node.children is Ok {
                    let children = node.children->Ok_0;
                    lemma_hits_add(
                        seq![*node],
                        preorder_first(children@, children@.len()),
                        *locator,
                    );
                    lemma_wanted_of_prefix(
                        hits(seq![*node], *locator),
                        hits(preorder_first(children@, children@.len()), *locator),
                        find_multiple,
                    );
                }
            }
            return ;
        }
    }
    match &node.children {
        Ok(children) => {
            let mut i: usize = 0;
            while i < children.len()
                invariant
                    i <= children.len(),
                    find_multiple || hits(seq![*node], *locator).len() == 0,
                    views(found@) == before + wanted(
                        hits(seq![*node] + preorder_first(children@, i as nat), *locator),
                        find_multiple,
                    ),
                decreases children.len() - i,
            {
                let ghost walked = seq![*node] + preorder_first(children@, i as nat);
                let ghost so_far = views(found@);
                if !find_multiple && found.len() > 0 {
                    proof {
                        lemma_preorder_first_extends(children@, i as nat, children@.len());
                        let rest = choose|rest: Seq<NativeNode>|
                            preorder_first(children@, children@.len()) == preorder_first(
                                children@,
                                i as nat,
                            ) + rest;
                        assert(preorder(*node) =~= walked + rest);
                        lemma_hits_add(walked, rest, *locator);
                        assert(hits(walked, *locator).len() > 0);
                        lemma_wanted_of_prefix(
                            hits(walked, *locator),
                            hits(rest, *locator),
                            find_multiple,
                        );
                    }
                    return ;
                }
                search_element_recursive(&children[i], locator, found, find_multiple);
                proof {
                    let child = preorder(children@[i as int]);
                    assert(seq![*node] + preorder_first(children@, (i + 1) as nat) =~= walked
                        + child);
                    lemma_hits_add(walked, child, *locator);
                    if !find_multiple {
                        assert(hits(walked, *locator).len() == 0);
                        assert(hits(walked + child, *locator) =~= hits(child, *locator));
                    }
                    assert(views(found@) =~= before + wanted(
                        hits(walked + child, *locator),
                        find_multiple,
                    ));
                }
                i += 1;
            }
            assert(preorder(*node) =~= seq![*node] + preorder_first(
                children@,
                children@.len() as nat,
            ));
        },
        Err(_) => {},
    }
}

/// The elements for the nodes under `root` that `locator` matches, in
/// depth-first order: all of them, or only the first.
fn search_elements(root: &NativeNode, locator: &Locator, find_multiple: bool) -> (found: Vec<
    Element,
>)
    ensures
        views(found@) == wanted(hits(preorder(*root), *locator), find_multiple),
{
    let mut found: Vec<Element> = Vec::new();
    search_element_recursive(root, locator, &mut found, find_multiple);
    assert(views(found@) =~= wanted(hits(preorder(*root), *locator), find_multiple));
    found
}

/// Finds the first element that `locator` matches, in depth-first order.
///
/// Fails with the backend's error when the children of the root could not
/// be listed, and with `ElementNotFound`, carrying the description of the
/// locator, when nothing matches.
pub fn find_element(root: &NativeNode, locator: &Locator) -> (result: Result<Element, BryndzaError>)
    ensures
        match root.children {
            Err(failure) => result == Err::<Element, BryndzaError>(BryndzaError::Platform(failure)),
            Ok(_) => if matching_nodes(*root, *locator).len() == 0 {
                result matches Err(BryndzaError::ElementNotFound { locator: text }) && text@
                    == describe(*locator)
            } else {
                result matches Ok(element) && element@ == element_of(
                    matching_nodes(*root, *locator)[0],
                )
            },
        },
{
    match &root.children {
        Err(failure) => Err(BryndzaError::Platform(failure.clone())),
        Ok(_) => {
            let mut found = search_elements(root, locator, false);
            proof {
                let nodes = matching_nodes(*root, *locator);
                assert(hits(preorder(*root), *locator).len() == nodes.len());
                assert(views(found@).len() == found@.len());
                if nodes.len() > 0 {
                    assert(hits(preorder(*root), *locator)[0] == element_of(nodes[0]));
                    assert(views(found@)[0] == found@[0]@);
                }
            }
            match found.pop() {
                Some(element) => Ok(element),
                None => Err(BryndzaError::ElementNotFound { locator: locator.description() }),
            }
        },
    }
}

/// Finds every element that `locator` matches, in depth-first order. No
/// match is no error: the result is then empty.
///
/// Fails with the backend's error when the children of the root could not
/// be listed.
pub fn find_elements(root: &NativeNode, locator: &Locator) -> (result: Result<
    Vec<Element>,
    BryndzaError,
>)
    ensures
        match root.children {
            Err(failure) => result == Err::<Vec<Element>, BryndzaError>(
                BryndzaError::Platform(failure),
            ),
            Ok(_) => result matches Ok(elements) && views(elements@) == elements_of(
                matching_nodes(*root, *locator),
            ),
        },
{
    match &root.children {
        Err(failure) => Err(BryndzaError::Platform(failure.clone())),
        Ok(_) => Ok(search_elements(root, locator, true)),
    }
}

/// An `And` matches a node exactly when every one of its locators matches
/// that node.
pub proof fn lemma_and_matches_when_all_match(locators: Vec<Locator>, node: NativeNode)
    ensures
        locator_matches(Locator::And(locators), node) <==> forall|i: int|
            0 <= i < locators@.len() ==> locator_matches(#[trigger] locators@[i], node),
{
    lemma_all_match_is_forall(locators@, locators@.len(), node);
}

/// An `Or` matches a node exactly when at least one of its locators
/// matches that node.
pub proof fn lemma_or_matches_when_one_matches(locators: Vec<Locator>, node: NativeNode)
    ensures
        locator_matches(Locator::Or(locators), node) <==> exists|i: int|
            0 <= i < locators@.len() && locator_matches(#[trigger] locators@[i], node),
{
    lemma_any_matches_is_exists(locators@, locators@.len(), node);
}

/// The `And` of no locators matches every node, and the `Or` of no
/// locators matches no node.
pub proof fn lemma_empty_combinations(locators: Vec<Locator>, node: NativeNode)
    requires
        locators@.len() == 0,
    ensures
        locator_matches(Locator::And(locators), node),
        !locator_matches(Locator::Or(locators), node),
{
}

/// The nodes that a search reports are nodes of the tree that the locator
/// matches, and no matching node of the tree is left out.
pub proof fn lemma_matching_nodes_are_the_matches(root: NativeNode, locator: Locator)
    ensures
        forall|i: int|
            0 <= i < matching_nodes(root, locator).len() ==> locator_matches(
                locator,
                #[trigger] matching_nodes(root, locator)[i],
            ) && preorder(root).contains(matching_nodes(root, locator)[i]),
        forall|i: int|
            0 <= i < preorder(root).len() && locator_matches(locator, preorder(root)[i])
                ==> matching_nodes(root, locator).contains(#[trigger] preorder(root)[i]),
{
    let nodes = preorder(root);
    let test = matcher(locator);
    assert forall|i: int| 0 <= i < nodes.filter(test).len() implies locator_matches(
        locator,
        #[trigger] nodes.filter(test)[i],
    ) && nodes.contains(nodes.filter(test)[i]) by {
        nodes.lemma_filter_pred(test, i);
        assert(nodes.filter(test).contains(nodes.filter(test)[i]));
        nodes.lemma_filter_contains_rev(test, nodes.filter(test)[i]);
    }
    assert forall|i: int| 0 <= i < nodes.len() && locator_matches(locator, nodes[i]) implies nodes.filter(
        test,
    ).contains(#[trigger] nodes[i]) by {
        nodes.lemma_filter_contains(test, i);
    }
}

proof fn lemma_all_match_is_forall(locators: Seq<Locator>, count: nat, node: NativeNode)
    requires
        count <= locators.len(),
    ensures
        all_match(locators, count, node) <==> forall|i: int|
            0 <= i < count ==> locator_matches(#[trigger] locators[i], node),
    decreases count,
{
    if count > 0 {
        lemma_all_match_is_forall(locators, (count - 1) as nat, node);
        if all_match(locators, count, node) {
            assert forall|i: int| 0 <= i < count implies locator_matches(
                #[trigger] locators[i],
                node,
            ) by {
                lemma_all_match_needs_each(locators, count, i, node);
            }
        }
    }
}

proof fn lemma_any_matches_is_exists(locators: Seq<Locator>, count: nat, node: NativeNode)
    requires
        count <= locators.len(),
    ensures
        any_matches(locators, count, node) <==> exists|i: int|
            0 <= i < count && locator_matches(#[trigger] locators[i], node),
    decreases count,
{
    if count > 0 {
        lemma_any_matches_is_exists(locators, (count - 1) as nat, node);
        if any_matches(locators, count, node) {
            if locator_matches(locators[count - 1], node) {
            } else {
                let i = choose|i: int|
                    0 <= i < count - 1 && locator_matches(#[trigger] locators[i], node);
                assert(0 <= i < count && locator_matches(locators[i], node));
            }
        }
        if exists|i: int| 0 <= i < count && locator_matches(#[trigger] locators[i], node) {
            let i = choose|i: int| 0 <= i < count && locator_matches(#[trigger] locators[i], node);
            lemma_any_matches_takes_one(locators, count, i, node);
        }
    }
}

/// Whether `node` has the given value for a property, where `recorded`
/// holds one.
pub open spec fn agrees(recorded: Option<Seq<char>>, property: Option<String>) -> bool {
    recorded matches Some(value) ==> property_is(property, value)
}

/// Whether `node` has every property that an element with the given
/// attributes recorded under `role`, `title`, `identifier` and
/// `description`.
pub open spec fn has_recorded_properties(
    attributes: Map<Seq<char>, Seq<char>>,
    node: NativeNode,
) -> bool {
    &&& agrees(lookup(attributes, "role"@), node.role)
    &&& agrees(lookup(attributes, "title"@), node.title)
    &&& agrees(lookup(attributes, "identifier"@), node.identifier)
    &&& agrees(lookup(attributes, "description"@), node.description)
}

proof fn lemma_all_match_looks_at_first(
    shorter: Seq<Locator>,
    longer: Seq<Locator>,
    count: nat,
    node: NativeNode,
)
    requires
        count <= shorter.len() <= longer.len(),
        forall|i: int| 0 <= i < count ==> shorter[i] == longer[i],
    ensures
        all_match(shorter, count, node) == all_match(longer, count, node),
    decreases count,
{
    if count > 0 {
        lemma_all_match_looks_at_first(shorter, longer, (count - 1) as nat, node);
    }
}

fn add_condition(conditions: &mut Vec<Locator>, condition: Option<Locator>)
    ensures
        forall|node: NativeNode|
            #[trigger] all_match(final(conditions)@, final(conditions)@.len(), node) == (all_match(
                old(conditions)@,
                old(conditions)@.len(),
                node,
            ) && (condition matches Some(locator) ==> locator_matches(locator, node))),
{
    let ghost before = conditions@;
    match condition {
        Some(locator) => {
            conditions.push(locator);
            proof {
                assert forall|node: NativeNode| #[trigger]
                    all_match(conditions@, conditions@.len(), node) == (all_match(
                        before,
                        before.len(),
                        node,
                    ) && locator_matches(locator, node)) by {
                    lemma_all_match_looks_at_first(before, conditions@, before.len(), node);
                }
            }
        },
        None => {},
    }
}

/// The locator that finds the node of a snapshot again: it matches the
/// nodes that have every property which the element recorded.
pub fn locator_for(element: &Element) -> (locator: Locator)
    ensures
        forall|node: NativeNode|
            #[trigger] locator_matches(locator, node) == has_recorded_properties(
                element@.attributes,
                node,
            ),
{
    let mut conditions: Vec<Locator> = Vec::new();
    let ghost none = conditions@;
    let role = match element.attribute("role") {
        Some(value) => Some(Locator::class_name(value)),
        None => None,
    };
    add_condition(&mut conditions, role);
    let ghost one = conditions@;
    let title = match element.attribute("title") {
        Some(value) => Some(Locator::text(value)),
        None => None,
    };
    add_condition(&mut conditions, title);
    let ghost two = conditions@;
    let identifier = match element.attribute("identifier") {
        Some(value) => Some(Locator::id(value)),
        None => None,
    };
    add_condition(&mut conditions, identifier);
    let ghost three = conditions@;
    let description = match element.attribute("description") {
        Some(value) => Some(Locator::accessibility_id(value)),
        None => None,
    };
    add_condition(&mut conditions, description);
    let locator = Locator::And(conditions);
    proof {
        assert forall|node: NativeNode| #[trigger]
            locator_matches(locator, node) == has_recorded_properties(
                element@.attributes,
                node,
            ) by {
            assert(all_match(none, none.len(), node));
            assert(all_match(one, one.len(), node) == agrees(
                lookup(element@.attributes, "role"@),
                node.role,
            ));
            assert(all_match(two, two.len(), node) == (all_match(one, one.len(), node) && agrees(
                lookup(element@.attributes, "title"@),
                node.title,
            )));
            assert(all_match(three, three.len(), node) == (all_match(two, two.len(), node)
                && agrees(lookup(element@.attributes, "identifier"@), node.identifier)));
            assert(all_match(conditions@, conditions@.len(), node) == (all_match(
                three,
                three.len(),
                node,
            ) && agrees(lookup(element@.attributes, "description"@), node.description)));
        }
    }
    locator
}

/// The node that an element was made from has every property that the
/// element recorded, so the locator made for the element finds it again.
pub proof fn lemma_node_has_recorded_properties(node: NativeNode)
    ensures
        has_recorded_properties(element_of(node).attributes, node),
{
    reveal_strlit("role");
    reveal_strlit("title");
    reveal_strlit("identifier");
    reveal_strlit("description");
    assert("role"@.len() == 4 && "title"@.len() == 5 && "identifier"@.len() == 10
        && "description"@.len() == 11);
}

} // verus!
