use bryndza::element::element::Rectangle;
use bryndza::element::locator::{ImageLocator, Locator};
use bryndza::error::{BryndzaError, PlatformError};
use bryndza::platform::element_exists;
use bryndza::platform::matching::{find_element, find_elements, locator_for, NativeNode};

fn text(value: &str) -> Option<String> {
    Some(value.to_string())
}

fn node(handle: u64, children: Vec<NativeNode>) -> NativeNode {
    NativeNode {
        handle,
        role: None,
        title: None,
        identifier: None,
        description: None,
        bounds: Rectangle::new(0, 0, 0, 0),
        visible: true,
        enabled: true,
        children: Ok(children),
    }
}

fn failure() -> PlatformError {
    PlatformError::MacOSAccessibility { message: "cannot list children".to_string() }
}

/// window
/// ├── toolbar (children a, b)
/// │   ├── a: button "Save", identifier "save"
/// │   └── b: button "Save as"
/// ├── broken: button "Save", children cannot be listed
/// └── c: text "Saved", description "status"
fn sample_tree() -> NativeNode {
    let mut a = node(3, vec![]);
    a.role = text("AXButton");
    a.title = text("Save");
    a.identifier = text("save");
    let mut b = node(4, vec![]);
    b.role = text("AXButton");
    b.title = text("Save as");
    let mut toolbar = node(2, vec![a, b]);
    toolbar.role = text("AXToolbar");
    let mut broken = node(5, vec![]);
    broken.role = text("AXButton");
    broken.title = text("Save");
    broken.children = Err(failure());
    let mut c = node(6, vec![]);
    c.role = text("AXStaticText");
    c.title = text("Saved");
    c.description = text("status");
    let mut window = node(1, vec![toolbar, broken, c]);
    window.role = text("AXWindow");
    window
}

fn ids(elements: &[bryndza::element::element::Element]) -> Vec<String> {
    elements.iter().map(|element| element.id().to_string()).collect()
}

#[test]
fn find_elements_reports_every_match_in_preorder() {
    let tree = sample_tree();
    let found = find_elements(&tree, &Locator::class_name("AXButton")).unwrap();
    assert_eq!(ids(&found), vec!["save", "title:Save as", "title:Save"]);
}

#[test]
fn find_elements_puts_a_parent_before_its_children() {
    let tree = sample_tree();
    let any = Locator::and(vec![]);
    let found = find_elements(&tree, &any).unwrap();
    assert_eq!(
        ids(&found),
        vec![
            "role:AXWindow",
            "role:AXToolbar",
            "save",
            "title:Save as",
            "title:Save",
            "title:Saved"
        ]
    );
}

#[test]
fn find_elements_with_no_match_is_empty_and_no_error() {
    let tree = sample_tree();
    let found = find_elements(&tree, &Locator::id("missing")).unwrap();
    assert!(found.is_empty());
}

#[test]
fn find_element_returns_the_first_match() {
    let tree = sample_tree();
    let found = find_element(&tree, &Locator::text("Save")).unwrap();
    assert_eq!(found.id(), "save");
    let found = find_element(&tree, &Locator::partial_text("Saved")).unwrap();
    assert_eq!(found.id(), "title:Saved");
}

#[test]
fn find_element_can_return_the_root() {
    let tree = sample_tree();
    let found = find_element(&tree, &Locator::class_name("AXWindow")).unwrap();
    assert_eq!(found.id(), "role:AXWindow");
}

#[test]
fn find_element_reports_element_not_found_with_the_description() {
    let tree = sample_tree();
    match find_element(&tree, &Locator::id("missing")) {
        Err(BryndzaError::ElementNotFound { locator }) => assert_eq!(locator, "id='missing'"),
        other => panic!("unexpected result: {:?}", other.map(|element| element.id().to_string())),
    }
}

#[test]
fn partial_text_matches_by_containment() {
    let tree = sample_tree();
    let found = find_elements(&tree, &Locator::partial_text("Save")).unwrap();
    assert_eq!(ids(&found), vec!["save", "title:Save as", "title:Save", "title:Saved"]);
    let found = find_elements(&tree, &Locator::partial_text("")).unwrap();
    assert_eq!(ids(&found), vec!["save", "title:Save as", "title:Save", "title:Saved"]);
    let found = find_elements(&tree, &Locator::partial_text("save")).unwrap();
    assert!(found.is_empty());
}

#[test]
fn accessibility_id_compares_the_description() {
    let tree = sample_tree();
    let found = find_elements(&tree, &Locator::accessibility_id("status")).unwrap();
    assert_eq!(ids(&found), vec!["title:Saved"]);
}

#[test]
fn and_needs_every_sublocator_on_the_same_node() {
    let tree = sample_tree();
    let both = Locator::and(vec![Locator::class_name("AXButton"), Locator::text("Save")]);
    let found = find_elements(&tree, &both).unwrap();
    assert_eq!(ids(&found), vec!["save", "title:Save"]);
    let never = Locator::and(vec![Locator::class_name("AXToolbar"), Locator::text("Save")]);
    assert!(find_elements(&tree, &never).unwrap().is_empty());
}

#[test]
fn or_needs_one_sublocator() {
    let tree = sample_tree();
    let either = Locator::or(vec![Locator::id("save"), Locator::text("Saved")]);
    let found = find_elements(&tree, &either).unwrap();
    assert_eq!(ids(&found), vec!["save", "title:Saved"]);
}

#[test]
fn empty_and_matches_every_node_and_empty_or_matches_none() {
    let tree = sample_tree();
    assert!(tree.matches(&Locator::and(vec![])));
    assert!(!tree.matches(&Locator::or(vec![])));
    assert_eq!(find_elements(&tree, &Locator::and(vec![])).unwrap().len(), 6);
    assert!(find_elements(&tree, &Locator::or(vec![])).unwrap().is_empty());
    assert_eq!(find_element(&tree, &Locator::and(vec![])).unwrap().id(), "role:AXWindow");
    assert!(matches!(
        find_element(&tree, &Locator::or(vec![])),
        Err(BryndzaError::ElementNotFound { .. })
    ));
    let nested = Locator::or(vec![Locator::or(vec![]), Locator::and(vec![])]);
    assert!(tree.matches(&nested));
    let nested = Locator::and(vec![Locator::and(vec![]), Locator::or(vec![])]);
    assert!(!tree.matches(&nested));
}

#[test]
fn kinds_without_a_property_in_the_snapshot_match_nothing() {
    let tree = sample_tree();
    let locators = vec![
        Locator::xpath("//button"),
        Locator::css_selector("button"),
        Locator::tag_name("AXButton"),
        Locator::attribute("role", "AXButton"),
        Locator::image(ImageLocator::from_file("save.png")),
        Locator::coordinates(0, 0),
    ];
    for locator in locators {
        assert!(find_elements(&tree, &locator).unwrap().is_empty());
    }
}

#[test]
fn a_failure_below_the_root_only_hides_that_subtree() {
    let mut hidden = node(9, vec![]);
    hidden.title = text("Save");
    let mut broken = node(8, vec![hidden]);
    broken.title = text("Save");
    broken.children = Err(failure());
    let mut after = node(10, vec![]);
    after.title = text("Save");
    let tree = node(7, vec![broken, after]);
    let found = find_elements(&tree, &Locator::text("Save")).unwrap();
    assert_eq!(found.len(), 2);
}

#[test]
fn a_failure_at_the_root_fails_the_search() {
    let mut tree = sample_tree();
    tree.children = Err(failure());
    match find_elements(&tree, &Locator::class_name("AXWindow")) {
        Err(BryndzaError::Platform(PlatformError::MacOSAccessibility { message })) => {
            assert_eq!(message, "cannot list children")
        }
        _ => panic!("the search should have failed"),
    }
    assert!(matches!(
        find_element(&tree, &Locator::class_name("AXWindow")),
        Err(BryndzaError::Platform(PlatformError::MacOSAccessibility { .. }))
    ));
}

#[test]
fn to_element_copies_the_properties() {
    let mut one = node(255, vec![]);
    one.role = text("AXButton");
    one.title = text("Go");
    one.identifier = text("go");
    one.description = text("starts");
    one.bounds = Rectangle::new(1, 2, 3, 4);
    one.visible = false;
    let element = one.to_element();
    assert_eq!(element.id(), "go");
    assert_eq!(element.attribute("role"), Some("AXButton"));
    assert_eq!(element.attribute("title"), Some("Go"));
    assert_eq!(element.attribute("identifier"), Some("go"));
    assert_eq!(element.attribute("description"), Some("starts"));
    assert_eq!(element.attributes().len(), 4);
    assert_eq!(*element.bounds(), Rectangle::new(1, 2, 3, 4));
    assert!(!element.is_visible());
    assert!(element.is_enabled());
}

#[test]
fn to_element_falls_back_to_title_role_and_handle() {
    let mut one = node(255, vec![]);
    assert_eq!(one.to_element().id(), "ax_element:0xff");
    assert_eq!(one.to_element().attributes().len(), 0);
    one.role = text("AXGroup");
    assert_eq!(one.to_element().id(), "role:AXGroup");
    one.title = text("Main");
    assert_eq!(one.to_element().id(), "title:Main");
    assert_eq!(node(0, vec![]).to_element().id(), "ax_element:0x0");
}

#[test]
fn element_exists_maps_not_found_to_false() {
    let tree = sample_tree();
    assert!(matches!(element_exists(find_element(&tree, &Locator::id("save"))), Ok(true)));
    assert!(matches!(element_exists(find_element(&tree, &Locator::id("missing"))), Ok(false)));
}

#[test]
fn element_exists_passes_other_errors_on() {
    let mut tree = sample_tree();
    tree.children = Err(failure());
    match element_exists(find_element(&tree, &Locator::id("save"))) {
        Err(BryndzaError::Platform(PlatformError::MacOSAccessibility { message })) => {
            assert_eq!(message, "cannot list children")
        }
        _ => panic!("the error should have been passed on"),
    }
    match element_exists(Err(BryndzaError::connection("lost"))) {
        Err(BryndzaError::ConnectionError { message }) => assert_eq!(message, "lost"),
        _ => panic!("the error should have been passed on"),
    }
}

#[test]
fn locator_for_finds_the_node_of_a_snapshot_again() {
    let tree = sample_tree();
    for element in find_elements(&tree, &Locator::and(vec![])).unwrap() {
        let again = find_elements(&tree, &locator_for(&element)).unwrap();
        assert!(ids(&again).contains(&element.id().to_string()));
    }
    let save = find_element(&tree, &Locator::id("save")).unwrap();
    assert_eq!(
        locator_for(&save),
        Locator::and(vec![
            Locator::class_name("AXButton"),
            Locator::text("Save"),
            Locator::id("save")
        ])
    );
    assert_eq!(ids(&find_elements(&tree, &locator_for(&save)).unwrap()), vec!["save"]);
    let status = find_element(&tree, &Locator::accessibility_id("status")).unwrap();
    assert_eq!(
        locator_for(&status),
        Locator::and(vec![
            Locator::class_name("AXStaticText"),
            Locator::text("Saved"),
            Locator::accessibility_id("status")
        ])
    );
    let bare = node(1, vec![]).to_element();
    assert_eq!(locator_for(&bare), Locator::and(vec![]));
}
