use keeb_os_probe::config::{Config, KeyboardConfig};
use keeb_os_probe::interface::{
    find_interface, find_interface_index, HidInterfaceDescriptor, HID_USAGE, HID_USAGE_PAGE,
};

fn ergo() -> KeyboardConfig {
    KeyboardConfig { vendor_id: 0x1234, product_id: 0x5678 }
}

fn interface(vendor_id: u16, product_id: u16, usage: u16, usage_page: u16, path: &str) -> HidInterfaceDescriptor {
    HidInterfaceDescriptor { vendor_id, product_id, usage, usage_page, path: path.as_bytes().to_vec() }
}

#[test]
fn protocol_constants() {
    assert_eq!(HID_USAGE, 0x61);
    assert_eq!(HID_USAGE_PAGE, 0xFF60);
}

#[test]
fn new_config_is_empty() {
    let config = Config::new();
    assert_eq!(config.len(), 0);
    assert!(config.is_empty());
    assert_eq!(config.match_index(0x1234, 0x5678), None);
    assert!(config.match_keyboard(0x1234, 0x5678).is_none());
    assert_eq!(config.get("ergo"), None);
    assert_eq!(config.position("ergo"), None);
}

#[test]
fn insert_appends_new_names_in_order() {
    let mut config = Config::new();
    assert_eq!(config.insert("ergo".to_string(), ergo()), None);
    assert_eq!(
        config.insert("numpad".to_string(), KeyboardConfig { vendor_id: 0xAAAA, product_id: 0xBBBB }),
        None
    );
    assert_eq!(config.len(), 2);
    assert!(!config.is_empty());
    assert_eq!(config.entry(0).name, "ergo");
    assert_eq!(config.entry(0).keyboard, ergo());
    assert_eq!(config.entry(1).name, "numpad");
    assert_eq!(config.entry(1).keyboard, KeyboardConfig { vendor_id: 0xAAAA, product_id: 0xBBBB });
    assert_eq!(config.position("ergo"), Some(0));
    assert_eq!(config.position("numpad"), Some(1));
    assert_eq!(config.position("other"), None);
}

#[test]
fn insert_replaces_a_configured_name_in_place() {
    let mut config = Config::new();
    config.insert("ergo".to_string(), ergo());
    config.insert("numpad".to_string(), KeyboardConfig { vendor_id: 1, product_id: 2 });
    let previous = config.insert("ergo".to_string(), KeyboardConfig { vendor_id: 7, product_id: 8 });
    assert_eq!(previous, Some(ergo()));
    assert_eq!(config.len(), 2);
    assert_eq!(config.position("ergo"), Some(0));
    assert_eq!(config.get("ergo"), Some(KeyboardConfig { vendor_id: 7, product_id: 8 }));
    assert_eq!(config.get("numpad"), Some(KeyboardConfig { vendor_id: 1, product_id: 2 }));
    assert_eq!(config.match_index(0x1234, 0x5678), None);
    assert_eq!(config.match_index(7, 8), Some(0));
}

#[test]
fn has_ids_needs_both_identifiers() {
    assert!(ergo().has_ids(0x1234, 0x5678));
    assert!(!ergo().has_ids(0x1234, 0x5679));
    assert!(!ergo().has_ids(0x1235, 0x5678));
    assert!(!ergo().has_ids(0x5678, 0x1234));
}

#[test]
fn match_keyboard_returns_name_and_identity() {
    let mut config = Config::new();
    config.insert("numpad".to_string(), KeyboardConfig { vendor_id: 1, product_id: 2 });
    config.insert("ergo".to_string(), ergo());
    let found = config.match_keyboard(0x1234, 0x5678).expect("configured");
    assert_eq!(found.name, "ergo");
    assert_eq!(found.keyboard, ergo());
    assert_eq!(config.match_index(0x1234, 0x5678), Some(1));
    assert!(config.match_keyboard(0x1234, 2).is_none());
    assert!(config.match_keyboard(1, 0x5678).is_none());
    assert_eq!(config.match_index(0, 0), None);
    assert_eq!(config.match_index(0xFFFF, 0xFFFF), None);
}

#[test]
fn first_configured_keyboard_wins_on_equal_identifiers() {
    let mut config = Config::new();
    config.insert("left".to_string(), ergo());
    config.insert("right".to_string(), ergo());
    assert_eq!(config.match_index(0x1234, 0x5678), Some(0));
    assert_eq!(config.match_keyboard(0x1234, 0x5678).expect("configured").name, "left");
}

#[test]
fn find_interface_returns_nothing_for_absent_device() {
    let interfaces = vec![
        interface(0x046D, 0xC52B, HID_USAGE, HID_USAGE_PAGE, "/dev/hidraw0"),
        interface(0x1234, 0x0001, HID_USAGE, HID_USAGE_PAGE, "/dev/hidraw1"),
        interface(0x0001, 0x5678, HID_USAGE, HID_USAGE_PAGE, "/dev/hidraw2"),
    ];
    assert_eq!(find_interface_index(&interfaces, 0x1234, 0x5678), None);
    assert!(find_interface(&interfaces, 0x1234, 0x5678).is_none());
    let nothing: Vec<HidInterfaceDescriptor> = Vec::new();
    assert_eq!(find_interface_index(&nothing, 0x1234, 0x5678), None);
    assert!(find_interface(&nothing, 0x1234, 0x5678).is_none());
}

#[test]
fn find_interface_excludes_other_usages() {
    let interfaces = vec![
        interface(0x1234, 0x5678, 0x06, 0x0001, "/dev/hidraw0"),
        interface(0x1234, 0x5678, 0x01, 0x000C, "/dev/hidraw1"),
        interface(0x1234, 0x5678, HID_USAGE, 0xFF31, "/dev/hidraw2"),
        interface(0x1234, 0x5678, 0x62, HID_USAGE_PAGE, "/dev/hidraw3"),
    ];
    assert_eq!(find_interface_index(&interfaces, 0x1234, 0x5678), None);
    assert!(find_interface(&interfaces, 0x1234, 0x5678).is_none());
}

#[test]
fn find_interface_picks_the_control_interface_among_others() {
    let interfaces = vec![
        interface(0x1234, 0x5678, 0x06, 0x0001, "/dev/hidraw0"),
        interface(0x1234, 0x5678, 0x01, 0x000C, "/dev/hidraw1"),
        interface(0x1234, 0x5678, 0x61, 0xFF60, "/dev/hidraw2"),
        interface(0x4321, 0x8765, 0x61, 0xFF60, "/dev/hidraw3"),
    ];
    assert_eq!(find_interface_index(&interfaces, 0x1234, 0x5678), Some(2));
    let found = find_interface(&interfaces, 0x1234, 0x5678).expect("present");
    assert_eq!(found.path, b"/dev/hidraw2".to_vec());
    assert_eq!(found.usage, 0x61);
    assert_eq!(found.usage_page, 0xFF60);
    assert_eq!(find_interface_index(&interfaces, 0x4321, 0x8765), Some(3));
}

#[test]
fn find_interface_picks_first_of_duplicates() {
    let interfaces = vec![
        interface(0x1234, 0x5678, 0x06, 0x0001, "/dev/hidraw0"),
        interface(0x1234, 0x5678, 0x61, 0xFF60, "/dev/hidraw1"),
        interface(0x1234, 0x5678, 0x61, 0xFF60, "/dev/hidraw2"),
    ];
    assert_eq!(find_interface_index(&interfaces, 0x1234, 0x5678), Some(1));
    assert_eq!(
        find_interface(&interfaces, 0x1234, 0x5678).expect("present").path,
        b"/dev/hidraw1".to_vec()
    );
}

#[test]
fn is_target_needs_all_four_fields() {
    let control = interface(0x1234, 0x5678, 0x61, 0xFF60, "a");
    assert!(control.is_target(0x1234, 0x5678));
    assert!(!control.is_target(0x1234, 0x5679));
    assert!(!control.is_target(0x1235, 0x5678));
    assert!(!interface(0x1234, 0x5678, 0x60, 0xFF60, "a").is_target(0x1234, 0x5678));
    assert!(!interface(0x1234, 0x5678, 0x61, 0xFF61, "a").is_target(0x1234, 0x5678));
    assert!(!interface(0x1234, 0x5678, 0xFF60, 0x61, "a").is_target(0x1234, 0x5678));
}

#[test]
fn config_round_trip() {
    let text = "[keyboards.ergo]\nvendor_id = 0x1234\nproduct_id = 0x5678\n";
    let document: toml::Table = toml::from_str(text).expect("valid TOML");
    let keyboards = document.get("keyboards").and_then(|v| v.as_table()).expect("a table");
    let mut config = Config::new();
    for (name, entry) in keyboards.iter() {
        let vendor_id = entry.get("vendor_id").and_then(|v| v.as_integer()).expect("an integer");
        let product_id = entry.get("product_id").and_then(|v| v.as_integer()).expect("an integer");
        let keyboard = KeyboardConfig {
            vendor_id: u16::try_from(vendor_id).expect("16 bits"),
            product_id: u16::try_from(product_id).expect("16 bits"),
        };
        assert_eq!(config.insert(name.clone(), keyboard), None);
    }
    assert_eq!(config.len(), 1);
    assert_eq!(config.entry(0).name, "ergo");
    assert_eq!(config.entry(0).keyboard.vendor_id, 0x1234);
    assert_eq!(config.entry(0).keyboard.product_id, 0x5678);
    let found = config.match_keyboard(0x1234, 0x5678).expect("configured");
    assert_eq!(found.name, "ergo");
    assert_eq!(found.keyboard, ergo());
    assert!(config.match_keyboard(0x1234, 0x5677).is_none());
    assert!(config.match_keyboard(0x1233, 0x5678).is_none());
    assert!(config.match_keyboard(0x5678, 0x1234).is_none());
    assert!(config.match_keyboard(0, 0).is_none());
}
