use multiseat::input::{find_usb_device_path, identified_device, input_device_name, is_activation, usb_device_names};
use multiseat::text::OsText;
use multiseat::udev::{DeviceNode, UdevDevice};

fn os(s: &str) -> OsText {
    OsText::from_bytes(s.as_bytes().to_vec())
}

fn node(name: &str, path: &str, subsystem: Option<&str>, devtype: Option<&str>, devnode: Option<&str>) -> DeviceNode {
    DeviceNode {
        sys_name: os(name),
        sys_path: os(path),
        subsystem: subsystem.map(os),
        devtype: devtype.map(os),
        devnode: devnode.map(os),
        properties: Vec::new(),
    }
}

fn keyboard() -> UdevDevice {
    UdevDevice {
        node: node("event5", "/sys/usb3/3-9/3-9:1.0/input/input7/event5", Some("input"), None, Some("/dev/input/event5")),
        ancestors: vec![
            node("input7", "/sys/usb3/3-9/3-9:1.0/input/input7", Some("input"), None, None),
            node("3-9:1.0", "/sys/usb3/3-9/3-9:1.0", Some("usb"), Some("usb_interface"), None),
            node("3-9", "/sys/usb3/3-9", Some("usb"), Some("usb_device"), None),
            node("usb3", "/sys/usb3", Some("usb"), Some("usb_device"), None),
        ],
    }
}

fn builtin() -> UdevDevice {
    UdevDevice {
        node: node("event0", "/sys/platform/i8042/input/input0/event0", Some("input"), None, Some("/dev/input/event0")),
        ancestors: vec![node("input0", "/sys/platform/i8042/input/input0", Some("input"), None, None)],
    }
}

#[test]
fn usb_parent_is_the_nearest_usb_device() {
    let (path, name) = usb_device_names(&keyboard());
    assert_eq!(path, "/sys/usb3/3-9");
    assert_eq!(name, "3-9");
}

#[test]
fn devices_without_usb_parent_report_themselves() {
    let (path, name) = usb_device_names(&builtin());
    assert_eq!(path, "/sys/platform/i8042/input/input0/event0");
    assert_eq!(name, "event0");
}

#[test]
fn event_path_selects_the_device() {
    let devices = vec![builtin(), keyboard()];
    assert_eq!(
        find_usb_device_path(&devices, &os("/dev/input/event5")),
        Some(("/sys/usb3/3-9".to_string(), "3-9".to_string()))
    );
    assert_eq!(
        find_usb_device_path(&devices, &os("/dev/input/event0")),
        Some(("/sys/platform/i8042/input/input0/event0".to_string(), "event0".to_string()))
    );
    assert_eq!(find_usb_device_path(&devices, &os("/dev/input/event9")), None);
}

#[test]
fn identified_device_fills_gaps() {
    let d = identified_device(None, None);
    assert_eq!(d.name, "Unknown Device");
    assert_eq!(d.usb_device_path, "");
    assert_eq!(d.usb_device_name, "");
    let d = identified_device(Some("Logitech K120"), Some(("/sys/usb3/3-9".to_string(), "3-9".to_string())));
    assert_eq!(d.name, "Logitech K120");
    assert_eq!(d.usb_device_path, "/sys/usb3/3-9");
    assert_eq!(d.usb_device_name, "3-9");
    assert_eq!(input_device_name(Some("Mouse")), "Mouse");
}

#[test]
fn only_key_presses_identify() {
    assert!(is_activation(true, 1));
    assert!(is_activation(true, 2));
    assert!(!is_activation(true, 0));
    assert!(!is_activation(false, 1));
}
