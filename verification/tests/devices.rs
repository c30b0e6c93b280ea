use multiseat::text::OsText;
use multiseat::udev::{get_device_seat, get_seat_devices, DeviceNode, Property, UdevDevice};
use multiseat::utils::{filter_devices, get_ancestor, DeviceVariant};

fn os(s: &str) -> OsText {
    OsText::from_bytes(s.as_bytes().to_vec())
}

fn node(name: &str, path: &str, subsystem: Option<&str>, props: &[(&str, &str)]) -> DeviceNode {
    DeviceNode {
        sys_name: os(name),
        sys_path: os(path),
        subsystem: subsystem.map(os),
        devtype: None,
        devnode: None,
        properties: props
            .iter()
            .map(|(k, v)| Property { name: os(k), value: os(v) })
            .collect(),
    }
}

fn device(node: DeviceNode, ancestors: Vec<DeviceNode>) -> UdevDevice {
    UdevDevice { node, ancestors }
}

const PCI: &str = "/sys/devices/pci0000:00/0000:00:02.0";

fn gpu_parent() -> DeviceNode {
    node(
        "0000:00:02.0",
        PCI,
        Some("pci"),
        &[("ID_VENDOR_FROM_DATABASE", "Intel Corporation"), ("ID_MODEL_FROM_DATABASE", "UHD Graphics 620")],
    )
}

#[test]
fn device_seat_defaults_to_seat0() {
    let tagged = node("card1", "/sys/x/card1", Some("drm"), &[("ID_SEAT", "seat1")]);
    assert_eq!(get_device_seat(&tagged), "seat1");
    let untagged = node("card0", "/sys/x/card0", Some("drm"), &[("TAGS", ":seat:")]);
    assert_eq!(get_device_seat(&untagged), "seat0");
    let mut invalid = node("card2", "/sys/x/card2", Some("drm"), &[]);
    invalid.properties.push(Property { name: os("ID_SEAT"), value: OsText::from_bytes(vec![0xff]) });
    assert_eq!(get_device_seat(&invalid), "seat0");
}

#[test]
fn first_property_of_a_name_counts() {
    let n = node("x", "/x", None, &[("ID_SEAT", "seat2"), ("ID_SEAT", "seat3")]);
    assert_eq!(get_device_seat(&n), "seat2");
    assert_eq!(n.property_value(&os("ID_SEAT")).map(|v| v.to_text()), Some("seat2".to_string()));
    assert!(n.property_value(&os("ID_PATH")).is_none());
}

#[test]
fn seat_devices_are_filtered_in_order() {
    let devices = vec![
        device(node("a", "/a", None, &[("ID_SEAT", "seat1")]), vec![]),
        device(node("b", "/b", None, &[]), vec![]),
        device(node("c", "/c", None, &[("ID_SEAT", "seat1")]), vec![]),
    ];
    let on_seat1 = get_seat_devices(devices, "seat1");
    let names: Vec<String> = on_seat1.iter().map(|d| d.node.sys_name.to_text()).collect();
    assert_eq!(names, vec!["a".to_string(), "c".to_string()]);

    let devices = vec![
        device(node("a", "/a", None, &[("ID_SEAT", "seat1")]), vec![]),
        device(node("b", "/b", None, &[]), vec![]),
    ];
    let on_seat0 = get_seat_devices(devices, "seat0");
    assert_eq!(on_seat0.len(), 1);
    assert_eq!(on_seat0[0].node.sys_name.to_text(), "b");
    assert!(get_seat_devices(Vec::new(), "seat0").is_empty());
}

#[test]
fn ancestors_are_counted_from_the_device() {
    let d = device(node("card0", "/c", Some("drm"), &[]), vec![gpu_parent(), node("pci0000:00", "/p", None, &[])]);
    assert_eq!(get_ancestor(&d, 0).unwrap().sys_name.to_text(), "card0");
    assert_eq!(get_ancestor(&d, 1).unwrap().sys_name.to_text(), "0000:00:02.0");
    assert_eq!(get_ancestor(&d, 2).unwrap().sys_name.to_text(), "pci0000:00");
    assert!(get_ancestor(&d, 3).is_none());
}

#[test]
fn graphics_cards_collect_their_ports() {
    let card_path = format!("{}/drm/card0", PCI);
    let hdmi_path = format!("{}/card0-HDMI-A-1", card_path);
    let dp_path = format!("{}/card0-DP-1", card_path);
    let devices = vec![
        device(node("card0", &card_path, Some("drm"), &[]), vec![gpu_parent()]),
        device(node("card0-HDMI-A-1", &hdmi_path, Some("drm"), &[]), vec![]),
        device(node("card0-DP-1", &dp_path, Some("drm"), &[]), vec![]),
    ];
    let (gpus, others) = filter_devices(devices);
    assert!(others.is_empty());
    assert_eq!(gpus.len(), 1);
    let gpu = &gpus[0];
    assert_eq!(gpu.variant, DeviceVariant::GraphicsCard);
    assert_eq!(gpu.sys_name, "card0");
    assert_eq!(gpu.path, card_path);
    assert_eq!(gpu.vendor, "Intel Corporation");
    assert_eq!(gpu.model, "UHD Graphics 620");
    let ports = gpu.ports.as_ref().unwrap();
    assert_eq!(ports.len(), 2);
    assert_eq!(ports[0].name, "HDMI-A-1");
    assert_eq!(ports[0].path, hdmi_path);
    assert_eq!(ports[1].name, "DP-1");
    assert_eq!(ports[1].path, dp_path);
}

#[test]
fn second_card_starts_a_new_entry() {
    let devices = vec![
        device(node("card0", "/sys/pci/a/drm/card0", Some("drm"), &[]), vec![]),
        device(node("card1", "/sys/pci/b/drm/card1", Some("drm"), &[]), vec![]),
        device(node("card1-eDP-1", "/sys/pci/b/drm/card1/card1-eDP-1", Some("drm"), &[]), vec![]),
    ];
    let (gpus, _) = filter_devices(devices);
    assert_eq!(gpus.len(), 2);
    assert_eq!(gpus[0].ports.as_ref().unwrap().len(), 0);
    assert_eq!(gpus[1].ports.as_ref().unwrap()[0].name, "eDP-1");
    // Without a parent the card's own (missing) properties are used, with no fallback.
    assert_eq!(gpus[0].vendor, "");
    assert_eq!(gpus[0].model, "");
}

#[test]
fn sound_and_generic_devices_use_the_grandparent() {
    let usb = node(
        "1-2",
        "/sys/usb/1-2",
        Some("usb"),
        &[("ID_VENDOR_FROM_DATABASE", "Logitech, Inc."), ("ID_MODEL_FROM_DATABASE", "Keyboard K120")],
    );
    let iface = node("1-2:1.0", "/sys/usb/1-2/1-2:1.0", Some("usb"), &[]);
    let devices = vec![
        device(node("input5", "/sys/usb/1-2/1-2:1.0/input/input5", Some("input"), &[]), vec![iface, usb]),
        device(node("card1", "/sys/sound/card1", Some("sound"), &[]), vec![]),
    ];
    let (gpus, others) = filter_devices(devices);
    assert!(gpus.is_empty());
    assert_eq!(others.len(), 2);
    assert_eq!(others[0].variant, DeviceVariant::GenericDevice);
    assert_eq!(others[0].vendor, "Logitech, Inc.");
    assert_eq!(others[0].model, "Keyboard K120");
    assert!(others[0].ports.is_none());
    assert_eq!(others[1].variant, DeviceVariant::SoundCard);
    assert_eq!(others[1].vendor, "Not available");
    assert_eq!(others[1].model, "Not available");
}

#[test]
fn devices_without_subsystem_are_generic() {
    let devices = vec![device(node("x", "/x", None, &[("ID_MODEL_FROM_DATABASE", "Thing")]), vec![])];
    let (_, others) = filter_devices(devices);
    assert_eq!(others[0].variant, DeviceVariant::GenericDevice);
    assert_eq!(others[0].vendor, "Not available");
    assert_eq!(others[0].model, "Thing");
}

#[test]
fn grouping_accounts_for_every_device() {
    let devices = vec![
        device(node("card0", "/g/card0", Some("drm"), &[]), vec![]),
        device(node("snd", "/s", Some("sound"), &[]), vec![]),
        device(node("card0-DP-1", "/g/card0/card0-DP-1", Some("drm"), &[]), vec![]),
        device(node("kbd", "/k", Some("input"), &[]), vec![]),
    ];
    let n = devices.len();
    let (gpus, others) = filter_devices(devices);
    let ports: usize = gpus.iter().map(|g| g.ports.as_ref().map_or(0, |p| p.len())).sum();
    assert_eq!(gpus.len() + ports + others.len(), n);
}
