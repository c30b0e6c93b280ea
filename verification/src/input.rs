//! Identifying an input device: which USB device an input event node
//! belongs to, and what is reported once a key is pressed on it.
use vstd::prelude::*;

use crate::text::{all_ascii, ascii_bytes, lossy_text, OsText};
use crate::udev::{same_bytes, DeviceNode, UdevDevice};

verus! {

/// An input device that was used while the manager listened.
pub struct IdentifiedDevice {
    /// The device name that the input layer reports.
    pub name: String,
    /// The sysfs path of the USB device it belongs to.
    pub usb_device_path: String,
    /// The system name of that USB device, such as `3-9`.
    pub usb_device_name: String,
}

/// The contents of an identified device.
pub struct IdentifiedDeviceView {
    pub name: Seq<char>,
    pub usb_device_path: Seq<char>,
    pub usb_device_name: Seq<char>,
}

impl View for IdentifiedDevice {
    type V = IdentifiedDeviceView;

    open spec fn view(&self) -> IdentifiedDeviceView {
        IdentifiedDeviceView {
            name: self.name@,
            usb_device_path: self.usb_device_path@,
            usb_device_name: self.usb_device_name@,
        }
    }
}

impl IdentifiedDevice {
    /// The same device in a new value.
    pub fn duplicate(&self) -> (r: IdentifiedDevice)
        ensures
            r@ == self@,
    {
        IdentifiedDevice {
            name: self.name.clone(),
            usb_device_path: self.usb_device_path.clone(),
            usb_device_name: self.usb_device_name.clone(),
        }
    }
}

/// The node is a whole USB device (subsystem `usb`, device type
/// `usb_device`), not one of its interfaces.
pub open spec fn is_usb_device(node: DeviceNode) -> bool {
    &&& node.subsystem matches Some(s) && s@ == ascii_bytes("usb"@)
    &&& node.devtype matches Some(t) && t@ == ascii_bytes("usb_device"@)
}

/// The device itself followed by its ancestors, nearest first.
pub open spec fn lineage(device: UdevDevice) -> Seq<DeviceNode> {
    seq![device.node] + device.ancestors@
}

/// The first USB device at or above position `i` of the lineage.
pub open spec fn usb_node_from(nodes: Seq<DeviceNode>, i: int) -> Option<DeviceNode>
    decreases nodes.len() - i,
{
    if i < 0 || i >= nodes.len() {
        None
    } else if is_usb_device(nodes[i]) {
        Some(nodes[i])
    } else {
        usb_node_from(nodes, i + 1)
    }
}

/// The path and name reported for an input device: those of the nearest USB
/// device at or above it, or its own when there is none.
pub open spec fn usb_names_of(device: UdevDevice) -> (Seq<char>, Seq<char>) {
    let node = match usb_node_from(lineage(device), 0) {
        Some(n) => n,
        None => device.node,
    };
    (lossy_text(node.sys_path@), lossy_text(node.sys_name@))
}

/// The first of the devices whose device node is the event path, from
/// position `i` on.
pub open spec fn device_with_node_from(devices: Seq<UdevDevice>, event_path: Seq<u8>, i: int) -> Option<UdevDevice>
    decreases devices.len() - i,
{
    if i < 0 || i >= devices.len() {
        None
    } else if devices[i].node.devnode matches Some(n) && n@ == event_path {
        Some(devices[i])
    } else {
        device_with_node_from(devices, event_path, i + 1)
    }
}

/// What `find_usb_device_path` reports for an event path.
pub open spec fn usb_device_of(devices: Seq<UdevDevice>, event_path: Seq<u8>) -> Option<(Seq<char>, Seq<char>)> {
    match device_with_node_from(devices, event_path, 0) {
        Some(d) => Some(usb_names_of(d)),
        None => None,
    }
}

/// The node is a whole USB device.
fn node_is_usb_device(node: &DeviceNode) -> (r: bool)
    ensures
        r == is_usb_device(*node),
{
    proof {
        reveal_strlit("usb");
        reveal_strlit("usb_device");
    }
    let usb = "usb";
    let usb_device = "usb_device";
    assert(all_ascii(usb@));
    assert(all_ascii(usb_device@));
    let subsystem_ok = match &node.subsystem {
        Some(s) => s.is_ascii_text(usb),
        None => false,
    };
    let devtype_ok = match &node.devtype {
        Some(t) => t.is_ascii_text(usb_device),
        None => false,
    };
    subsystem_ok && devtype_ok
}

/// The sysfs path and system name of the USB device an input device belongs
/// to: the nearest USB device at or above it, or the input device itself.
pub fn usb_device_names(device: &UdevDevice) -> (r: (String, String))
    ensures
        (r.0@, r.1@) == usb_names_of(*device),
{
    let ghost nodes = lineage(*device);
    if node_is_usb_device(&device.node) {
        return (device.node.sys_path.to_text_lossy(), device.node.sys_name.to_text_lossy());
    }
    let mut i: usize = 0;
    while i < device.ancestors.len()
        invariant
            i <= device.ancestors@.len(),
            nodes == lineage(*device),
            usb_node_from(nodes, 0) == usb_node_from(nodes, i + 1),
        decreases device.ancestors.len() - i,
    {
        let node = &device.ancestors[i];
        assert(nodes[i + 1] == *node);
        if node_is_usb_device(node) {
            return (node.sys_path.to_text_lossy(), node.sys_name.to_text_lossy());
        }
        i = i + 1;
    }
    assert(usb_node_from(nodes, i + 1) is None);
    (device.node.sys_path.to_text_lossy(), device.node.sys_name.to_text_lossy())
}

/// Of the input devices, finds the one whose device node is `event_path`
/// and reports the sysfs path and system name of the USB device it belongs
/// to (or its own when it belongs to none); `None` when no device has that
/// node.
pub fn find_usb_device_path(devices: &Vec<UdevDevice>, event_path: &OsText) -> (r: Option<(String, String)>)
    ensures
        r is Some <==> usb_device_of(devices@, event_path@) is Some,
        r matches Some(p) ==> usb_device_of(devices@, event_path@) == Some((p.0@, p.1@)),
{
    let mut i: usize = 0;
    while i < devices.len()
        invariant
            i <= devices@.len(),
            device_with_node_from(devices@, event_path@, 0) == device_with_node_from(
                devices@,
                event_path@,
                i as int,
            ),
        decreases devices.len() - i,
    {
        let device = &devices[i];
        let matches = match &device.node.devnode {
            Some(n) => same_bytes(n, event_path),
            None => false,
        };
        if matches {
            return Some(usb_device_names(device));
        }
        i = i + 1;
    }
    None
}

/// The name reported for an input device: its own, or "Unknown Device".
pub open spec fn input_name_of(name: Option<Seq<char>>) -> Seq<char> {
    match name {
        Some(n) => n,
        None => "Unknown Device"@,
    }
}

/// The name shown for an input device whose reported name may be missing.
pub fn input_device_name(name: Option<&str>) -> (r: String)
    ensures
        r@ == input_name_of(match name {
            Some(n) => Some(n@),
            None => None,
        }),
{
    match name {
        Some(n) => n.to_owned(),
        None => "Unknown Device".to_owned(),
    }
}

/// What is reported once a key is pressed on an input device: its name (or
/// "Unknown Device") and the USB device it belongs to (empty texts when that
/// could not be found).
pub fn identified_device(name: Option<&str>, usb: Option<(String, String)>) -> (r: IdentifiedDevice)
    ensures
        r.name@ == input_name_of(match name {
            Some(n) => Some(n@),
            None => None,
        }),
        usb matches Some(u) ==> r.usb_device_path@ == u.0@ && r.usb_device_name@ == u.1@,
        usb is None ==> r.usb_device_path@ == Seq::<char>::empty() && r.usb_device_name@
            == Seq::<char>::empty(),
{
    let device_name = input_device_name(name);
    let (usb_path, usb_name) = match usb {
        Some(u) => u,
        None => (String::new(), String::new()),
    };
    IdentifiedDevice { name: device_name, usb_device_path: usb_path, usb_device_name: usb_name }
}

/// An input event identifies its device when it is a key event with a
/// nonzero value (a press or a repeat, not a release).
pub fn is_activation(is_key_event: bool, value: i32) -> (r: bool)
    ensures
        r == (is_key_event && value != 0),
{
    is_key_event && value != 0
}

} // verus!
