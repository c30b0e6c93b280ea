//! What the seat logic reads of the udev device database: each device with
//! its name, path, subsystem and properties, and the chain of its parents.
use vstd::prelude::*;
use vstd::utf8::{decode_utf8, valid_utf8};

use crate::text::{all_ascii, ascii_bytes, ascii_key, OsText};
use crate::DEFAULT_SEAT;

verus! {

/// One property of a device (`udev_device_get_properties_list_entry`).
pub struct Property {
    pub name: OsText,
    pub value: OsText,
}

/// One node of the device tree as udev reports it.
pub struct DeviceNode {
    /// `Device::sysname`
    pub sys_name: OsText,
    /// `Device::syspath`
    pub sys_path: OsText,
    /// `Device::subsystem`
    pub subsystem: Option<OsText>,
    /// `Device::devtype`
    pub devtype: Option<OsText>,
    /// `Device::devnode`
    pub devnode: Option<OsText>,
    /// `Device::properties`, in the order udev lists them
    pub properties: Vec<Property>,
}

/// A device together with its parents: `ancestors[0]` is the device's
/// parent, `ancestors[1]` the parent's parent, up to the root of the tree.
pub struct UdevDevice {
    pub node: DeviceNode,
    pub ancestors: Vec<DeviceNode>,
}

/// The value of the first property named `key` at or after position `i`.
pub open spec fn property_from(props: Seq<Property>, key: Seq<u8>, i: int) -> Option<Seq<u8>>
    decreases props.len() - i,
{
    if i < 0 || i >= props.len() {
        None
    } else if props[i].name@ == key {
        Some(props[i].value@)
    } else {
        property_from(props, key, i + 1)
    }
}

/// The value of the property named `key` (`Device::property_value`).
pub open spec fn property_of(node: DeviceNode, key: Seq<u8>) -> Option<Seq<u8>> {
    property_from(node.properties@, key, 0)
}

/// The seat that udev assigns a device to: its `ID_SEAT` property when that
/// is valid UTF-8, the default seat otherwise.
pub open spec fn seat_of(node: DeviceNode) -> Seq<char> {
    match property_of(node, ascii_bytes("ID_SEAT"@)) {
        Some(v) => if valid_utf8(v) {
            decode_utf8(v)
        } else {
            DEFAULT_SEAT@
        },
        None => DEFAULT_SEAT@,
    }
}

/// The node `levels` steps up from the device (zero steps is the device
/// itself), if the tree is that deep.
pub open spec fn ancestor_of(device: UdevDevice, levels: nat) -> Option<DeviceNode> {
    if levels == 0 {
        Some(device.node)
    } else if levels <= device.ancestors@.len() {
        Some(device.ancestors@[levels - 1])
    } else {
        None
    }
}

/// The two byte strings are equal.
pub(crate) fn same_bytes(a: &OsText, b: &OsText) -> (r: bool)
    ensures
        r == (a@ == b@),
{
    if a.bytes.len() != b.bytes.len() {
        return false;
    }
    let mut i: usize = 0;
    while i < a.bytes.len()
        invariant
            a.bytes@.len() == b.bytes@.len(),
            i <= a.bytes@.len(),
            forall|j: int| 0 <= j < i ==> a.bytes@[j] == b.bytes@[j],
        decreases a.bytes.len() - i,
    {
        if a.bytes[i] != b.bytes[i] {
            return false;
        }
        i = i + 1;
    }
    assert(a.bytes@ =~= b.bytes@);
    true
}

/// `get_seat_devices` keeps a device when it belongs to this seat.
pub open spec fn on_seat(seat: Seq<char>) -> spec_fn(UdevDevice) -> bool {
    |d: UdevDevice| seat_of(d.node) == seat
}

impl DeviceNode {
    /// `Device::property_value`: the value of the first property named `key`.
    pub fn property_value(&self, key: &OsText) -> (r: Option<&OsText>)
        ensures
            r is Some <==> property_of(*self, key@) is Some,
            r matches Some(v) ==> property_of(*self, key@) == Some(v@),
    {
        let mut i: usize = 0;
        while i < self.properties.len()
            invariant
                i <= self.properties@.len(),
                property_of(*self, key@) == property_from(self.properties@, key@, i as int),
            decreases self.properties.len() - i,
        {
            if same_bytes(&self.properties[i].name, key) {
                return Some(&self.properties[i].value);
            }
            i = i + 1;
        }
        None
    }
}

/// The seat a device is assigned to: its `ID_SEAT` property, or the
/// default seat.
pub fn get_device_seat(device: &DeviceNode) -> (r: String)
    ensures
        r@ == seat_of(*device),
{
    proof {
        reveal_strlit("ID_SEAT");
    }
    let key = "ID_SEAT";
    assert(all_ascii(key@));
    match device.property_value(&ascii_key(key)) {
        Some(v) => match v.to_str() {
            Some(s) => s,
            None => DEFAULT_SEAT.to_owned(),
        },
        None => DEFAULT_SEAT.to_owned(),
    }
}

/// Of the devices that udev tags with `seat`, those assigned to
/// `target_seat`, in their order.
pub fn get_seat_devices(devices: Vec<UdevDevice>, target_seat: &str) -> (r: Vec<UdevDevice>)
    ensures
        r@ == devices@.filter(on_seat(target_seat@)),
{
    let ghost all = devices@;
    let total = devices.len();
    let mut rest = devices;
    let mut kept: Vec<UdevDevice> = Vec::new();
    let mut k: usize = 0;
    while rest.len() > 0
        invariant
            k + rest@.len() == all.len(),
            total == all.len(),
            rest@ == all.subrange(k as int, all.len() as int),
            kept@ == all.subrange(0, k as int).filter(on_seat(target_seat@)),
        decreases rest.len(),
    {
        let d = rest.remove(0);
        let seat = get_device_seat(&d.node);
        proof {
            reveal(Seq::filter);
            assert(all.subrange(0, k + 1).drop_last() =~= all.subrange(0, k as int));
            assert(all.subrange(0, k + 1).last() == d);
        }
        if crate::text::text_eq(seat.as_str(), target_seat) {
            kept.push(d);
        }
        k = k + 1;
        assert(rest@ =~= all.subrange(k as int, all.len() as int));
    }
    assert(all.subrange(0, k as int) =~= all);
    kept
}

} // verus!
