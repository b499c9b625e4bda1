use bryndza::config::Config;
use bryndza::element::attributes::Attributes;
use bryndza::element::element::{Element, Rectangle, SwipeDirection};
use bryndza::error::BryndzaError;
use bryndza::platform::android::adb::{first_listed_device, AdbConnection};
use bryndza::platform::macos::connection::MacOSConnection;
use bryndza::platform::windows::WindowsPlatform;
use bryndza::units::Millis;

fn connection(serial: Option<&str>) -> AdbConnection {
    let mut config = Config::default();
    config.platform.android.device_serial = serial.map(|serial| serial.to_string());
    AdbConnection::configured(&config)
}

fn element() -> Element {
    Element::new("e".to_string(), Attributes::new(), Rectangle::new(10, 10, 20, 10), true, true)
}

#[test]
fn the_first_ready_device_is_chosen() {
    let list = "List of devices attached\nemulator-5554\tdevice\nR58M\tdevice\n\n";
    assert_eq!(first_listed_device(list).as_deref(), Some("emulator-5554"));
    let list = "List of devices attached\nR58M\toffline\nemulator-5556\tunauthorized\nABC\tdevice\n";
    assert_eq!(first_listed_device(list).as_deref(), Some("ABC"));
    let list = "List of devices attached\r\nABC\tdevice\r\n";
    assert_eq!(first_listed_device(list).as_deref(), Some("ABC"));
    let list = "List of devices attached\nABC\tdevice";
    assert_eq!(first_listed_device(list).as_deref(), Some("ABC"));
    let list = "List of devices attached\n\tdevice\n";
    assert_eq!(first_listed_device(list).as_deref(), Some(""));
    let list = "List of devices attached\nABC  \tdevices usb:1\tproduct:x\n";
    assert_eq!(first_listed_device(list).as_deref(), Some("ABC  "));
}

#[test]
fn a_list_without_a_ready_device_names_none() {
    assert_eq!(first_listed_device(""), None);
    assert_eq!(first_listed_device("List of devices attached\n\n"), None);
    assert_eq!(first_listed_device("List of devices attached\nR58M\toffline\n"), None);
    assert_eq!(first_listed_device("ABC\tdevice\n"), None);
    assert_eq!(first_listed_device("ABC\tdevice"), None);
    assert_eq!(first_listed_device("List of devices attached\nABC device\n"), None);
}

#[test]
fn connecting_keeps_a_configured_device() {
    let mut adb = connection(Some("mine"));
    assert!(adb.connect_device("List of devices attached\nother\tdevice\n").is_ok());
    assert_eq!(adb.serial().as_deref(), Some("mine"));
    assert!(adb.connect_device("").is_ok());
    assert_eq!(adb.serial().as_deref(), Some("mine"));
}

#[test]
fn connecting_chooses_a_device_or_fails() {
    let mut adb = connection(None);
    match adb.connect_device("List of devices attached\n") {
        Err(BryndzaError::ConnectionError { message }) => {
            assert_eq!(message, "No Android devices found")
        }
        _ => panic!("connecting should have failed"),
    }
    assert_eq!(*adb.serial(), None);
    assert!(adb.connect_device("List of devices attached\nother\tdevice\n").is_ok());
    assert_eq!(adb.serial().as_deref(), Some("other"));
}

#[test]
fn commands_name_the_device() {
    assert!(connection(None).adb_command().is_empty());
    assert_eq!(connection(Some("abc")).adb_command(), vec!["-s", "abc"]);
    assert_eq!(connection(None).screenshot(), vec!["exec-out", "screencap", "-p"]);
    assert_eq!(
        connection(Some("abc")).screenshot(),
        vec!["-s", "abc", "exec-out", "screencap", "-p"]
    );
}

#[test]
fn commands_of_the_interactions() {
    let adb = connection(Some("abc"));
    assert_eq!(
        adb.click_element(&element()),
        vec!["-s", "abc", "shell", "input", "tap", "20", "15"]
    );
    assert_eq!(
        adb.long_press_element(&element(), Millis::from_millis(1500)),
        vec!["-s", "abc", "shell", "input", "swipe", "20", "15", "20", "15", "1500"]
    );
    assert_eq!(
        adb.type_text("hello world"),
        vec!["-s", "abc", "shell", "input", "text", "hello world"]
    );
    assert_eq!(
        adb.key_event("KEYCODE_HOME"),
        vec!["-s", "abc", "shell", "input", "keyevent", "KEYCODE_HOME"]
    );
    let (tap, select, delete) = connection(None).clear_element(&element());
    assert_eq!(tap, vec!["shell", "input", "tap", "20", "15"]);
    assert_eq!(select, vec!["shell", "input", "keyevent", "KEYCODE_CTRL_A"]);
    assert_eq!(delete, vec!["shell", "input", "keyevent", "KEYCODE_DEL"]);
}

#[test]
fn swipes_end_where_the_direction_leads() {
    let adb = connection(None);
    let swipe = |direction, distance| adb.swipe_element(&element(), direction, distance)[3..].to_vec();
    assert_eq!(swipe(SwipeDirection::Up, 100), vec!["20", "15", "20", "-85"]);
    assert_eq!(swipe(SwipeDirection::Down, 100), vec!["20", "15", "20", "115"]);
    assert_eq!(swipe(SwipeDirection::Left, 100), vec!["20", "15", "-80", "15"]);
    assert_eq!(swipe(SwipeDirection::Right, 100), vec!["20", "15", "120", "15"]);
    assert_eq!(swipe(SwipeDirection::Right, i32::MAX), vec!["20", "15", "2147483667", "15"]);
    assert_eq!(swipe(SwipeDirection::Up, i32::MIN), vec!["20", "15", "20", "2147483663"]);
}

#[test]
fn a_c_string_ends_at_the_first_zero_byte() {
    assert_eq!(MacOSConnection::cfstring_to_string(&b"Save\0\0\0\0".to_vec()), "Save");
    assert_eq!(MacOSConnection::cfstring_to_string(&b"Save\0as\0".to_vec()), "Save");
    assert_eq!(MacOSConnection::cfstring_to_string(&b"Save".to_vec()), "Save");
    assert_eq!(MacOSConnection::cfstring_to_string(&b"\0Save".to_vec()), "");
    assert_eq!(MacOSConnection::cfstring_to_string(&vec![]), "");
    assert_eq!(MacOSConnection::cfstring_to_string(&"Größe\0".as_bytes().to_vec()), "Größe");
    assert_eq!(MacOSConnection::cfstring_to_string(&vec![b'a', 0xff, b'b', 0, b'c']), "a\u{fffd}b");
}

#[test]
fn windows_has_no_swipes() {
    let windows = WindowsPlatform::new(Config::default()).unwrap();
    match windows.swipe_element() {
        Err(BryndzaError::PlatformNotSupported { platform }) => {
            assert_eq!(platform, "Swipe gestures not supported on Windows desktop")
        }
        _ => panic!("the swipe should have been refused"),
    }
}
