use bryndza::element::attributes::Attributes;
use bryndza::element::element::{Element, Point, Rectangle, SwipeDirection};
use bryndza::element::interaction::Key;

fn attributes(pairs: &[(&str, &str)]) -> Attributes {
    let mut attributes = Attributes::new();
    for (name, value) in pairs {
        attributes.insert(name.to_string(), value.to_string());
    }
    attributes
}

fn element(pairs: &[(&str, &str)], visible: bool, enabled: bool) -> Element {
    Element::new("e1".to_string(), attributes(pairs), Rectangle::new(10, 10, 20, 10), visible, enabled)
}

#[test]
fn center_of_the_element() {
    let center = element(&[], true, true).center();
    assert_eq!(center, Point::new(20, 15));
}

#[test]
fn center_rounds_towards_zero() {
    assert_eq!(Rectangle::new(0, 0, 5, 7).center(), Point::new(2, 3));
    assert_eq!(Rectangle::new(0, 0, -5, -7).center(), Point::new(-2, -3));
    assert_eq!(Rectangle::new(-10, 4, 1, 0).center(), Point::new(-10, 4));
    assert_eq!(Rectangle::new(i32::MAX - 1, i32::MIN, 3, 1).center(), Point::new(i32::MAX, i32::MIN));
}

#[test]
fn is_clickable_needs_visible_and_enabled() {
    assert!(element(&[], true, true).is_clickable());
    assert!(!element(&[], true, false).is_clickable());
    assert!(!element(&[], false, true).is_clickable());
    assert!(!element(&[], false, false).is_clickable());
}

#[test]
fn accessors_look_the_attributes_up() {
    let one = element(&[("text", "Hello"), ("className", "Button"), ("resourceId", "r1")], true, false);
    assert_eq!(one.id(), "e1");
    assert_eq!(one.text(), Some("Hello"));
    assert_eq!(one.class_name(), Some("Button"));
    assert_eq!(one.resource_id(), Some("r1"));
    assert_eq!(one.attribute("text"), Some("Hello"));
    assert_eq!(one.attribute("Text"), None);
    assert_eq!(one.attribute(""), None);
    assert!(one.is_visible());
    assert!(!one.is_enabled());
    assert_eq!(*one.bounds(), Rectangle::new(10, 10, 20, 10));
    let none = element(&[], true, true);
    assert_eq!(none.text(), None);
    assert_eq!(none.class_name(), None);
    assert_eq!(none.resource_id(), None);
}

#[test]
fn resource_id_prefers_the_resource_id() {
    let both = element(&[("accessibilityId", "a1"), ("resourceId", "r1")], true, true);
    assert_eq!(both.resource_id(), Some("r1"));
    let only = element(&[("accessibilityId", "a1")], true, true);
    assert_eq!(only.resource_id(), Some("a1"));
}

#[test]
fn a_clone_is_the_same_snapshot() {
    let one = element(&[("text", "Hello")], true, false);
    let copy = one.clone();
    assert_eq!(copy.id(), "e1");
    assert_eq!(copy.text(), Some("Hello"));
    assert_eq!(copy.attributes().len(), 1);
    assert!(copy.is_visible());
    assert!(!copy.is_enabled());
}

#[test]
fn attributes_keep_one_value_for_each_name() {
    let mut map = Attributes::new();
    assert_eq!(map.len(), 0);
    assert_eq!(map.get("a"), None);
    map.insert("a".to_string(), "1".to_string());
    map.insert("b".to_string(), "2".to_string());
    map.insert("a".to_string(), "3".to_string());
    assert_eq!(map.len(), 2);
    assert_eq!(map.get("a"), Some("3"));
    assert_eq!(map.get("b"), Some("2"));
    assert!(map.contains_key("a"));
    assert!(!map.contains_key("A"));
    let map = map.with("c".to_string(), "4".to_string()).with("b".to_string(), "5".to_string());
    assert_eq!(map.len(), 3);
    assert_eq!(map.get("b"), Some("5"));
    assert_eq!(map.get("c"), Some("4"));
}

#[test]
fn flags_read_true_and_fall_back() {
    let map = attributes(&[("on", "true"), ("off", "false"), ("odd", "True")]);
    assert!(map.flag("on", false));
    assert!(!map.flag("off", true));
    assert!(!map.flag("odd", true));
    assert!(map.flag("missing", true));
    assert!(!map.flag("missing", false));
}

#[test]
fn rectangle_contains_its_left_and_top_edges_only() {
    let area = Rectangle::new(10, 20, 30, 40);
    assert!(area.contains(&Point::new(10, 20)));
    assert!(area.contains(&Point::new(39, 59)));
    assert!(!area.contains(&Point::new(40, 20)));
    assert!(!area.contains(&Point::new(10, 60)));
    assert!(!area.contains(&Point::new(9, 20)));
    assert!(!area.contains(&Point::new(10, 19)));
    assert!(!Rectangle::new(0, 0, 0, 0).contains(&Point::new(0, 0)));
}

#[test]
fn rectangle_contains_does_not_overflow() {
    let area = Rectangle::new(i32::MAX, i32::MAX, i32::MAX, i32::MAX);
    assert!(area.contains(&Point::new(i32::MAX, i32::MAX)));
    assert!(!area.contains(&Point::new(0, 0)));
    let area = Rectangle::new(i32::MIN, i32::MIN, i32::MIN, i32::MIN);
    assert!(!area.contains(&Point::new(i32::MIN, i32::MIN)));
}

#[test]
fn keys_of_a_text() {
    assert_eq!(Key::char('x'), Key::Char('x'));
    assert_eq!(Key::string("aé✓"), vec![Key::Char('a'), Key::Char('é'), Key::Char('✓')]);
    assert!(Key::string("").is_empty());
}

#[test]
fn swipe_directions_are_distinct() {
    assert_ne!(SwipeDirection::Up, SwipeDirection::Down);
    assert_ne!(SwipeDirection::Left, SwipeDirection::Right);
}
