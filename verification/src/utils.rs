//! Seats and devices as the manager shows them: seat names and kinds, and
//! the grouping of a seat's devices into graphics cards (with their display
//! ports) and other devices.
use vstd::prelude::*;
use vstd::utf8::{decode_utf8, valid_utf8};

use crate::icons::{icon_text, GtkIcons};
use crate::text::{
    after_first, all_ascii, ascii_bytes, contains, contains_text, os_text, text_after_first,
    text_eq, title_case, title_case_text, OsText,
};
use crate::udev::{ancestor_of, property_of, DeviceNode, UdevDevice};
use crate::DEFAULT_SEAT;

verus! {

/// The default seat is primary; every other seat is secondary.
#[derive(Clone, Copy, Debug, PartialEq, Eq, Structural)]
pub enum SeatVariant {
    Primary,
    Secondary,
}

/// A seat as logind lists it: its label and its D-Bus object path.
pub struct SeatPath {
    pub id: String,
    pub path: String,
}

impl SeatPath {
    /// A seat with this label and object path.
    pub fn new(id: String, path: String) -> (r: SeatPath)
        ensures
            r.id@ == id@,
            r.path@ == path@,
    {
        SeatPath { id, path }
    }

    /// The seat label, such as `seat0`.
    pub fn id(&self) -> (r: &str)
        ensures
            r@ == self.id@,
    {
        self.id.as_str()
    }

    /// The same seat in a new value.
    pub fn duplicate(&self) -> (r: SeatPath)
        ensures
            r.id@ == self.id@,
            r.path@ == self.path@,
    {
        SeatPath { id: self.id.clone(), path: self.path.clone() }
    }
}

/// A seat with the name the manager shows for it.
pub struct Seat {
    pub path: SeatPath,
    pub name: String,
    pub variant: SeatVariant,
}

impl Seat {
    /// The same seat in a new value.
    pub fn duplicate(&self) -> (r: Seat)
        ensures
            r.path.id@ == self.path.id@,
            r.path.path@ == self.path.path@,
            r.name@ == self.name@,
            r.variant == self.variant,
    {
        Seat { path: self.path.duplicate(), name: self.name.clone(), variant: self.variant }
    }
}

/// The name shown for a seat: "Master" for the default seat, the label in
/// title case for the others.
pub open spec fn seat_name(id: Seq<char>) -> Seq<char> {
    if id == DEFAULT_SEAT@ {
        "Master"@
    } else {
        title_case_text(id)
    }
}

/// The kind of a seat.
pub open spec fn seat_variant(id: Seq<char>) -> SeatVariant {
    if id == DEFAULT_SEAT@ {
        SeatVariant::Primary
    } else {
        SeatVariant::Secondary
    }
}

/// `seats` describes the listed seat paths one for one, in their order.
pub open spec fn seats_describe(seats: Seq<Seat>, paths: Seq<SeatPath>) -> bool {
    &&& seats.len() == paths.len()
    &&& forall|i: int|
        0 <= i < seats.len() ==> {
            &&& (#[trigger] seats[i]).path.id@ == paths[i].id@
            &&& seats[i].path.path@ == paths[i].path@
            &&& seats[i].name@ == seat_name(paths[i].id@)
            &&& seats[i].variant == seat_variant(paths[i].id@)
        }
}

/// Names the seats that logind lists.
pub fn get_seats(paths: Vec<SeatPath>) -> (r: Vec<Seat>)
    ensures
        seats_describe(r@, paths@),
{
    let mut seats: Vec<Seat> = Vec::new();
    let mut i: usize = 0;
    while i < paths.len()
        invariant
            i <= paths@.len(),
            seats_describe(seats@, paths@.subrange(0, i as int)),
        decreases paths.len() - i,
    {
        let p = &paths[i];
        let primary = text_eq(p.id(), DEFAULT_SEAT);
        let name = if primary {
            "Master".to_owned()
        } else {
            title_case(p.id())
        };
        let variant = if primary {
            SeatVariant::Primary
        } else {
            SeatVariant::Secondary
        };
        seats.push(Seat { path: p.duplicate(), name, variant });
        i = i + 1;
        assert(seats_describe(seats@, paths@.subrange(0, i as int)));
    }
    assert(paths@.subrange(0, i as int) =~= paths@);
    seats
}

/// What a device is, for display.
#[derive(Clone, Copy, Debug, PartialEq, Eq, Structural)]
pub enum DeviceVariant {
    GraphicsCard,
    SoundCard,
    GenericDevice,
}

/// The icon shown for each kind of device.
pub open spec fn variant_icon(v: DeviceVariant) -> GtkIcons {
    match v {
        DeviceVariant::GraphicsCard => GtkIcons::GraphicsCard,
        DeviceVariant::SoundCard => GtkIcons::SoundCard,
        DeviceVariant::GenericDevice => GtkIcons::GenericDevice,
    }
}

impl DeviceVariant {
    /// The icon-theme name of the icon for this kind of device.
    pub fn icon_name(&self) -> (r: &'static str)
        ensures
            r@ == icon_text(variant_icon(*self)),
    {
        match self {
            DeviceVariant::GraphicsCard => GtkIcons::GraphicsCard.as_str(),
            DeviceVariant::SoundCard => GtkIcons::SoundCard.as_str(),
            DeviceVariant::GenericDevice => GtkIcons::GenericDevice.as_str(),
        }
    }
}

/// The icon key the device list of the window uses for each kind of device.
pub open spec fn item_icon_text(v: DeviceVariant) -> Seq<char> {
    match v {
        DeviceVariant::GraphicsCard => "gpu"@,
        DeviceVariant::SoundCard => "sound"@,
        DeviceVariant::GenericDevice => "generic"@,
    }
}

impl DeviceVariant {
    /// The icon key of this kind of device in the window's device list.
    pub fn item_icon(&self) -> (r: &'static str)
        ensures
            r@ == item_icon_text(*self),
    {
        match self {
            DeviceVariant::GraphicsCard => "gpu",
            DeviceVariant::SoundCard => "sound",
            DeviceVariant::GenericDevice => "generic",
        }
    }
}

/// A display output of a graphics card.
pub struct Port {
    pub name: String,
    pub path: String,
}

/// A device as the manager lists it.
pub struct Device {
    pub variant: DeviceVariant,
    pub sys_name: String,
    pub vendor: String,
    pub model: String,
    pub path: String,
    pub ports: Option<Vec<Port>>,
}

/// The contents of a port.
pub struct PortView {
    pub name: Seq<char>,
    pub path: Seq<char>,
}

/// The contents of a device.
pub struct DeviceView {
    pub variant: DeviceVariant,
    pub sys_name: Seq<char>,
    pub vendor: Seq<char>,
    pub model: Seq<char>,
    pub path: Seq<char>,
    pub ports: Option<Seq<PortView>>,
}

impl View for Port {
    type V = PortView;

    open spec fn view(&self) -> PortView {
        PortView { name: self.name@, path: self.path@ }
    }
}

/// The contents of a list of ports.
pub open spec fn ports_view(ports: Seq<Port>) -> Seq<PortView> {
    ports.map_values(|p: Port| p@)
}

impl View for Device {
    type V = DeviceView;

    open spec fn view(&self) -> DeviceView {
        DeviceView {
            variant: self.variant,
            sys_name: self.sys_name@,
            vendor: self.vendor@,
            model: self.model@,
            path: self.path@,
            ports: match self.ports {
                Some(p) => Some(ports_view(p@)),
                None => None,
            },
        }
    }
}

/// The contents of a list of devices.
pub open spec fn devices_view(devices: Seq<Device>) -> Seq<DeviceView> {
    devices.map_values(|d: Device| d@)
}

/// The text a device shows for a property: the property as text, or the
/// fallback (empty when there is none) when that text is empty.
pub open spec fn property_text(node: DeviceNode, key: Seq<char>, fallback: Option<Seq<char>>) -> Seq<char> {
    let value = match property_of(node, ascii_bytes(key)) {
        Some(b) => os_text(b),
        None => Seq::empty(),
    };
    if value.len() == 0 {
        match fallback {
            Some(f) => f,
            None => Seq::empty(),
        }
    } else {
        value
    }
}

/// A device described from its node and the node `level` steps above it
/// (the device itself when the tree is not that deep), which supplies the
/// vendor and model names (`extract_details`).
pub open spec fn details_of(
    device: UdevDevice,
    variant: DeviceVariant,
    level: nat,
    fallback: Option<Seq<char>>,
) -> DeviceView {
    let source = match ancestor_of(device, level) {
        Some(n) => n,
        None => device.node,
    };
    DeviceView {
        variant,
        sys_name: os_text(device.node.sys_name@),
        vendor: property_text(source, "ID_VENDOR_FROM_DATABASE"@, fallback),
        model: property_text(source, "ID_MODEL_FROM_DATABASE"@, fallback),
        path: os_text(device.node.sys_path@),
        ports: match variant {
            DeviceVariant::GraphicsCard => Some(Seq::empty()),
            _ => None,
        },
    }
}

/// How a device that is neither a graphics card nor one of its ports is
/// described: two levels up for vendor and model, "Not available" when
/// they are missing.
pub open spec fn generic_of(device: UdevDevice, variant: DeviceVariant) -> DeviceView {
    details_of(device, variant, 2, Some("Not available"@))
}

/// Adds a `drm` device to the graphics cards seen so far: a device whose
/// path holds the path of the last card is a port of that card, named by
/// its system name after the first `-`; any other is a new card.
pub open spec fn with_drm_device(cards: Seq<DeviceView>, device: UdevDevice) -> Seq<DeviceView> {
    let path = os_text(device.node.sys_path@);
    if cards.len() > 0 && contains_text(path, cards.last().path) {
        let gpu = cards.last();
        let port = PortView { name: after_first(os_text(device.node.sys_name@), '-'), path };
        let ports = match gpu.ports {
            Some(p) => p.push(port),
            None => seq![port],
        };
        cards.update(cards.len() - 1, DeviceView { ports: Some(ports), ..gpu })
    } else {
        cards.push(details_of(device, DeviceVariant::GraphicsCard, 1, None))
    }
}

/// The subsystem of a device as text; empty when it has none.
pub open spec fn subsystem_text(node: DeviceNode) -> Seq<char> {
    match node.subsystem {
        Some(s) => os_text(s@),
        None => Seq::empty(),
    }
}

/// The graphics cards and the other devices among `devices`, grouped in
/// their order: `drm` devices make up the cards and their ports, `sound`
/// devices are sound cards, the rest generic devices.
pub open spec fn grouped(devices: Seq<UdevDevice>) -> (Seq<DeviceView>, Seq<DeviceView>)
    decreases devices.len(),
{
    if devices.len() == 0 {
        (Seq::empty(), Seq::empty())
    } else {
        let (cards, others) = grouped(devices.drop_last());
        let d = devices.last();
        let subsystem = subsystem_text(d.node);
        if subsystem == "drm"@ {
            (with_drm_device(cards, d), others)
        } else if subsystem == "sound"@ {
            (cards, others.push(generic_of(d, DeviceVariant::SoundCard)))
        } else {
            (cards, others.push(generic_of(d, DeviceVariant::GenericDevice)))
        }
    }
}

/// The node `levels` steps up from a device: the device itself for zero,
/// its parent for one, and so on; `None` when the tree is not that deep.
pub fn get_ancestor(device: &UdevDevice, levels: usize) -> (r: Option<&DeviceNode>)
    ensures
        r is Some <==> ancestor_of(*device, levels as nat) is Some,
        r matches Some(n) ==> ancestor_of(*device, levels as nat) == Some(*n),
{
    if levels == 0 {
        Some(&device.node)
    } else if levels <= device.ancestors.len() {
        Some(&device.ancestors[levels - 1])
    } else {
        None
    }
}

/// The text of a property of a device, or the fallback when it is empty.
fn property_or(node: &DeviceNode, key: &str, fallback: Option<&str>) -> (r: String)
    requires
        all_ascii(key@),
    ensures
        r@ == property_text(*node, key@, match fallback {
            Some(f) => Some(f@),
            None => None,
        }),
{
    let val = match node.property_value(&crate::text::ascii_key(key)) {
        Some(v) => v.to_text(),
        None => String::new(),
    };
    if val.unicode_len() == 0 {
        match fallback {
            Some(f) => f.to_owned(),
            None => String::new(),
        }
    } else {
        val
    }
}

/// Describes a device; vendor and model come from the node `ancestor_level`
/// steps above it, or from the device itself when there is no such node.
fn extract_details(
    device: &UdevDevice,
    variant: DeviceVariant,
    ancestor_level: usize,
    fallback_text: Option<&str>,
) -> (r: Device)
    ensures
        r@ == details_of(*device, variant, ancestor_level as nat, match fallback_text {
            Some(f) => Some(f@),
            None => None,
        }),
{
    let sys_name = device.node.sys_name.to_text();
    let path = device.node.sys_path.to_text();
    let parent = match get_ancestor(device, ancestor_level) {
        Some(n) => n,
        None => &device.node,
    };
    proof {
        reveal_strlit("ID_VENDOR_FROM_DATABASE");
        reveal_strlit("ID_MODEL_FROM_DATABASE");
    }
    let vendor_key = "ID_VENDOR_FROM_DATABASE";
    let model_key = "ID_MODEL_FROM_DATABASE";
    assert(all_ascii(vendor_key@));
    assert(all_ascii(model_key@));
    let vendor = property_or(parent, vendor_key, fallback_text);
    let model = property_or(parent, model_key, fallback_text);
    let ports = match variant {
        DeviceVariant::GraphicsCard => Some(Vec::new()),
        _ => None,
    };
    let r = Device { sys_name, variant, vendor, model, path, ports };
    proof {
        if r.ports is Some {
            assert(ports_view(r.ports->0@) =~= Seq::<PortView>::empty());
        }
    }
    r
}

/// Describes a sound card or generic device.
fn create_generic_device(device: &UdevDevice, variant: DeviceVariant) -> (r: Device)
    ensures
        r@ == generic_of(*device, variant),
{
    extract_details(device, variant, 2, Some("Not available"))
}

/// Adds a `drm` device to the graphics cards: as a port of the last card
/// when its path lies under that card's path, as a new card otherwise.
fn handle_graphics_card(cards: &mut Vec<Device>, device: &UdevDevice)
    ensures
        devices_view(final(cards)@) == with_drm_device(devices_view(old(cards)@), *device),
{
    let path = device.node.sys_path.to_text();
    let ghost before = devices_view(cards@);
    if cards.len() > 0 {
        let last = cards.len() - 1;
        if contains(path.as_str(), cards[last].path.as_str()) {
            let name = device.node.sys_name.to_text();
            let clean_name = text_after_first(name.as_str(), '-');
            let gpu = cards.pop().unwrap();
            let Device { variant, sys_name, vendor, model, path: gpu_path, ports } = gpu;
            let ghost old_ports = ports;
            let mut new_ports = match ports {
                Some(p) => p,
                None => Vec::new(),
            };
            new_ports.push(Port { name: clean_name, path });
            proof {
                let pv = PortView { name: clean_name@, path: path@ };
                match old_ports {
                    Some(p) => {
                        assert(ports_view(new_ports@) =~= ports_view(p@).push(pv));
                    },
                    None => {
                        assert(ports_view(new_ports@) =~= seq![pv]);
                    },
                }
            }
            cards.push(
                Device { variant, sys_name, vendor, model, path: gpu_path, ports: Some(new_ports) },
            );
            assert(devices_view(cards@) =~= with_drm_device(before, *device));
            return;
        }
    }
    cards.push(extract_details(device, DeviceVariant::GraphicsCard, 1, None));
    assert(devices_view(cards@) =~= with_drm_device(before, *device));
}

/// Groups a seat's devices into graphics cards (each with its display
/// ports) and other devices, keeping their order.
pub fn filter_devices(devices: Vec<UdevDevice>) -> (r: (Vec<Device>, Vec<Device>))
    ensures
        (devices_view(r.0@), devices_view(r.1@)) == grouped(devices@),
{
    let mut graphics_cards: Vec<Device> = Vec::new();
    let mut other_devices: Vec<Device> = Vec::new();
    let mut i: usize = 0;
    proof {
        reveal_strlit("drm");
        reveal_strlit("sound");
    }
    while i < devices.len()
        invariant
            i <= devices@.len(),
            (devices_view(graphics_cards@), devices_view(other_devices@)) == grouped(
                devices@.subrange(0, i as int),
            ),
        decreases devices.len() - i,
    {
        let device = &devices[i];
        let subsystem = match &device.node.subsystem {
            Some(s) => s.to_text(),
            None => String::new(),
        };
        proof {
            assert(devices@.subrange(0, i + 1).drop_last() =~= devices@.subrange(0, i as int));
            assert(devices@.subrange(0, i + 1).last() == *device);
            assert(subsystem@ == subsystem_text(device.node)) by {
                if device.node.subsystem is None {
                    assert(subsystem@ =~= Seq::<char>::empty());
                }
            }
        }
        let ghost cards_before = devices_view(graphics_cards@);
        let ghost others_before = devices_view(other_devices@);
        if text_eq(subsystem.as_str(), "drm") {
            handle_graphics_card(&mut graphics_cards, device);
        } else if text_eq(subsystem.as_str(), "sound") {
            other_devices.push(create_generic_device(device, DeviceVariant::SoundCard));
            assert(devices_view(other_devices@) =~= others_before.push(
                generic_of(*device, DeviceVariant::SoundCard),
            ));
        } else {
            other_devices.push(create_generic_device(device, DeviceVariant::GenericDevice));
            assert(devices_view(other_devices@) =~= others_before.push(
                generic_of(*device, DeviceVariant::GenericDevice),
            ));
        }
        i = i + 1;
    }
    assert(devices@.subrange(0, i as int) =~= devices@);
    (graphics_cards, other_devices)
}

/// How many display ports the cards list in all.
pub open spec fn port_count(cards: Seq<DeviceView>) -> int
    decreases cards.len(),
{
    if cards.len() == 0 {
        0
    } else {
        port_count(cards.drop_last()) + match cards.last().ports {
            Some(p) => p.len() as int,
            None => 0,
        }
    }
}

/// Adding a `drm` device adds either one card or one port.
proof fn lemma_drm_device_counted(cards: Seq<DeviceView>, device: UdevDevice)
    ensures
        with_drm_device(cards, device).len() + port_count(with_drm_device(cards, device))
            == cards.len() + port_count(cards) + 1,
{
    let next = with_drm_device(cards, device);
    let path = os_text(device.node.sys_path@);
    if cards.len() > 0 && contains_text(path, cards.last().path) {
        assert(next.drop_last() =~= cards.drop_last());
    } else {
        assert(next.drop_last() =~= cards);
    }
}

/// Grouping loses no device and invents none: every device is a card, a
/// port of a card, or one of the other devices.
pub proof fn lemma_grouping_keeps_every_device(devices: Seq<UdevDevice>)
    ensures
        grouped(devices).0.len() + port_count(grouped(devices).0) + grouped(devices).1.len()
            == devices.len(),
    decreases devices.len(),
{
    if devices.len() > 0 {
        lemma_grouping_keeps_every_device(devices.drop_last());
        let (cards, _others) = grouped(devices.drop_last());
        let d = devices.last();
        if subsystem_text(d.node) == "drm"@ {
            lemma_drm_device_counted(cards, d);
        }
    }
}

/// The other devices are exactly the devices outside the `drm` subsystem,
/// in their order, each listed under its own system name and its own sysfs
/// path (the path that moving it to a seat uses), as a sound card when its
/// subsystem is `sound` and as a generic device otherwise, without ports.
pub proof fn lemma_other_devices_are_listed_as_themselves(devices: Seq<UdevDevice>)
    ensures
        ({
            let others = grouped(devices).1;
            let listed = devices.filter(|d: UdevDevice| subsystem_text(d.node) != "drm"@);
            &&& others.len() == listed.len()
            &&& forall|i: int|
                0 <= i < others.len() ==> {
                    &&& (#[trigger] others[i]).path == os_text(listed[i].node.sys_path@)
                    &&& others[i].sys_name == os_text(listed[i].node.sys_name@)
                    &&& others[i].variant == (if subsystem_text(listed[i].node) == "sound"@ {
                        DeviceVariant::SoundCard
                    } else {
                        DeviceVariant::GenericDevice
                    })
                    &&& others[i].ports is None
                }
        }),
    decreases devices.len(),
{
    reveal(Seq::filter);
    if devices.len() > 0 {
        lemma_other_devices_are_listed_as_themselves(devices.drop_last());
        let pred = |d: UdevDevice| subsystem_text(d.node) != "drm"@;
        let prev = grouped(devices.drop_last()).1;
        let prev_listed = devices.drop_last().filter(pred);
        let others = grouped(devices).1;
        let listed = devices.filter(pred);
        let d = devices.last();
        if subsystem_text(d.node) == "drm"@ {
            assert(others == prev);
            assert(listed == prev_listed);
        } else {
            assert(listed == prev_listed.push(d));
            assert forall|i: int| 0 <= i < others.len() implies {
                &&& (#[trigger] others[i]).path == os_text(listed[i].node.sys_path@)
                &&& others[i].sys_name == os_text(listed[i].node.sys_name@)
                &&& others[i].variant == (if subsystem_text(listed[i].node) == "sound"@ {
                    DeviceVariant::SoundCard
                } else {
                    DeviceVariant::GenericDevice
                })
                &&& others[i].ports is None
            } by {
                if i < prev.len() {
                    assert(others[i] == prev[i]);
                    assert(listed[i] == prev_listed[i]);
                } else {
                    assert(listed[i] == d);
                }
            }
        }
    }
}

/// The paths of a list of ports, in order.
pub open spec fn port_paths(ports: Option<Seq<PortView>>) -> Seq<Seq<char>> {
    match ports {
        Some(p) => p.map_values(|q: PortView| q.path),
        None => Seq::empty(),
    }
}

/// The paths the cards show, read from top to bottom: each card's path
/// followed by the paths of its ports.
pub open spec fn card_list_paths(cards: Seq<DeviceView>) -> Seq<Seq<char>>
    decreases cards.len(),
{
    if cards.len() == 0 {
        Seq::empty()
    } else {
        card_list_paths(cards.drop_last()) + seq![cards.last().path] + port_paths(cards.last().ports)
    }
}

/// Read from top to bottom, the graphics cards and their ports show the
/// sysfs paths of the `drm` devices, each its own, once, in their order.
pub proof fn lemma_cards_and_ports_are_the_drm_devices(devices: Seq<UdevDevice>)
    ensures
        card_list_paths(grouped(devices).0) == devices.filter(
            |d: UdevDevice| subsystem_text(d.node) == "drm"@,
        ).map_values(|d: UdevDevice| os_text(d.node.sys_path@)),
    decreases devices.len(),
{
    reveal(Seq::filter);
    if devices.len() > 0 {
        let rest = devices.drop_last();
        lemma_cards_and_ports_are_the_drm_devices(rest);
        let pred = |d: UdevDevice| subsystem_text(d.node) == "drm"@;
        let f = |d: UdevDevice| os_text(d.node.sys_path@);
        let cards = grouped(rest).0;
        let next = grouped(devices).0;
        let d = devices.last();
        if subsystem_text(d.node) == "drm"@ {
            let path = os_text(d.node.sys_path@);
            assert(devices.filter(pred) == rest.filter(pred).push(d));
            assert(devices.filter(pred).map_values(f) =~= rest.filter(pred).map_values(f).push(path));
            if cards.len() > 0 && contains_text(path, cards.last().path) {
                let gpu = cards.last();
                assert(next.drop_last() =~= cards.drop_last());
                assert(next.last().path == gpu.path);
                assert(port_paths(next.last().ports) =~= port_paths(gpu.ports).push(path));
                assert(card_list_paths(next) =~= card_list_paths(cards).push(path));
            } else {
                assert(next.drop_last() =~= cards);
                assert(port_paths(next.last().ports) =~= Seq::<Seq<char>>::empty());
                assert(card_list_paths(next) =~= card_list_paths(cards).push(path));
            }
        } else {
            assert(devices.filter(pred) == rest.filter(pred));
        }
    }
}

/// The kind of a seat as `SeatVariant` says it (`matches!(v, Primary)`).
pub open spec fn is_primary(v: SeatVariant) -> bool {
    v == SeatVariant::Primary
}

/// Every seat is primary or secondary, never both.
proof fn lemma_split_counts(seats: Seq<Seat>)
    ensures
        seats.filter(|s: Seat| is_primary(s.variant)).len() + seats.filter(
            |s: Seat| !is_primary(s.variant),
        ).len() == seats.len(),
    decreases seats.len(),
{
    reveal(Seq::filter);
    if seats.len() > 0 {
        lemma_split_counts(seats.drop_last());
    }
}

/// Splits the seats into primary and secondary ones, each in their order
/// (the two seat lists of the seat panel).
pub fn partition_seats(seats: &Vec<Seat>) -> (r: (Vec<Seat>, Vec<Seat>))
    ensures
        r.0@.len() == seats@.filter(|s: Seat| is_primary(s.variant)).len(),
        r.1@.len() == seats@.filter(|s: Seat| !is_primary(s.variant)).len(),
        r.0@.len() + r.1@.len() == seats@.len(),
        forall|i: int|
            0 <= i < r.0@.len() ==> (#[trigger] r.0@[i]).path.id@ == seats@.filter(
                |s: Seat| is_primary(s.variant),
            )[i].path.id@ && r.0@[i].path.path@ == seats@.filter(
                |s: Seat| is_primary(s.variant),
            )[i].path.path@ && r.0@[i].name@ == seats@.filter(|s: Seat| is_primary(s.variant))[i].name@
                && r.0@[i].variant == SeatVariant::Primary,
        forall|i: int|
            0 <= i < r.1@.len() ==> (#[trigger] r.1@[i]).path.id@ == seats@.filter(
                |s: Seat| !is_primary(s.variant),
            )[i].path.id@ && r.1@[i].path.path@ == seats@.filter(
                |s: Seat| !is_primary(s.variant),
            )[i].path.path@ && r.1@[i].name@ == seats@.filter(|s: Seat| !is_primary(s.variant))[i].name@
                && r.1@[i].variant == SeatVariant::Secondary,
{
    let mut primary: Vec<Seat> = Vec::new();
    let mut secondary: Vec<Seat> = Vec::new();
    let mut i: usize = 0;
    while i < seats.len()
        invariant
            i <= seats@.len(),
            primary@.len() == seats@.subrange(0, i as int).filter(|s: Seat| is_primary(s.variant)).len(),
            secondary@.len() == seats@.subrange(0, i as int).filter(|s: Seat| !is_primary(s.variant)).len(),
            forall|j: int|
                0 <= j < primary@.len() ==> (#[trigger] primary@[j]).path.id@ == seats@.subrange(
                    0,
                    i as int,
                ).filter(|s: Seat| is_primary(s.variant))[j].path.id@ && primary@[j].path.path@
                    == seats@.subrange(0, i as int).filter(|s: Seat| is_primary(s.variant))[j].path.path@
                    && primary@[j].name@ == seats@.subrange(0, i as int).filter(
                    |s: Seat| is_primary(s.variant),
                )[j].name@ && primary@[j].variant == SeatVariant::Primary,
            forall|j: int|
                0 <= j < secondary@.len() ==> (#[trigger] secondary@[j]).path.id@ == seats@.subrange(
                    0,
                    i as int,
                ).filter(|s: Seat| !is_primary(s.variant))[j].path.id@ && secondary@[j].path.path@
                    == seats@.subrange(0, i as int).filter(|s: Seat| !is_primary(s.variant))[j].path.path@
                    && secondary@[j].name@ == seats@.subrange(0, i as int).filter(
                    |s: Seat| !is_primary(s.variant),
                )[j].name@ && secondary@[j].variant == SeatVariant::Secondary,
        decreases seats.len() - i,
    {
        let seat = &seats[i];
        proof {
            reveal(Seq::filter);
            assert(seats@.subrange(0, i + 1).drop_last() =~= seats@.subrange(0, i as int));
            assert(seats@.subrange(0, i + 1).last() == *seat);
        }
        match seat.variant {
            SeatVariant::Primary => {
                primary.push(seat.duplicate());
            },
            SeatVariant::Secondary => {
                secondary.push(seat.duplicate());
            },
        }
        i = i + 1;
    }
    assert(seats@.subrange(0, i as int) =~= seats@);
    proof {
        lemma_split_counts(seats@);
    }
    (primary, secondary)
}

/// The next thing to do while a seat is deleted by moving its devices to
/// the default seat.
pub enum DeleteSeatStep {
    /// Attach the device at this path to this seat.
    Attach { sys_path: String, seat: String },
    /// Deleting is over: whether every device was moved.
    Finished(bool),
}

/// The contents of a step.
pub enum DeleteSeatStepView {
    Attach(Seq<char>, Seq<char>),
    Finished(bool),
}

impl View for DeleteSeatStep {
    type V = DeleteSeatStepView;

    open spec fn view(&self) -> DeleteSeatStepView {
        match self {
            DeleteSeatStep::Attach { sys_path, seat } => DeleteSeatStepView::Attach(sys_path@, seat@),
            DeleteSeatStep::Finished(b) => DeleteSeatStepView::Finished(*b),
        }
    }
}

/// The step after the first `outcomes.len()` devices were attached with
/// these outcomes: stop with failure after a failed attach, stop with
/// success when every device is moved, stop with failure at a device whose
/// path is not valid UTF-8, and otherwise attach the next device to the
/// default seat.
pub open spec fn delete_seat_step_of(sys_paths: Seq<OsText>, outcomes: Seq<bool>) -> DeleteSeatStepView {
    if exists|i: int| 0 <= i < outcomes.len() && !outcomes[i] {
        DeleteSeatStepView::Finished(false)
    } else if outcomes.len() >= sys_paths.len() {
        DeleteSeatStepView::Finished(true)
    } else if !valid_utf8(sys_paths[outcomes.len() as int]@) {
        DeleteSeatStepView::Finished(false)
    } else {
        DeleteSeatStepView::Attach(decode_utf8(sys_paths[outcomes.len() as int]@), DEFAULT_SEAT@)
    }
}

/// Decides the next step of deleting a seat, given the paths of the seat's
/// devices and the outcomes of the attachments made so far, in order.
pub fn delete_seat_step(sys_paths: &Vec<OsText>, outcomes: &Vec<bool>) -> (r: DeleteSeatStep)
    ensures
        r@ == delete_seat_step_of(sys_paths@, outcomes@),
{
    let mut i: usize = 0;
    while i < outcomes.len()
        invariant
            i <= outcomes@.len(),
            forall|j: int| 0 <= j < i ==> outcomes@[j],
        decreases outcomes.len() - i,
    {
        if !outcomes[i] {
            return DeleteSeatStep::Finished(false);
        }
        i = i + 1;
    }
    let k = outcomes.len();
    if k >= sys_paths.len() {
        return DeleteSeatStep::Finished(true);
    }
    match sys_paths[k].to_str() {
        Some(path) => DeleteSeatStep::Attach { sys_path: path, seat: DEFAULT_SEAT.to_owned() },
        None => DeleteSeatStep::Finished(false),
    }
}

/// The outcome of deleting a seat when the step function is driven from
/// the `j`-th attachment on, the `i`-th attachment giving `results[i]`.
pub open spec fn delete_seat_drive(sys_paths: Seq<OsText>, results: Seq<bool>, j: int) -> bool
    decreases results.len() - j,
{
    match delete_seat_step_of(sys_paths, results.subrange(0, j)) {
        DeleteSeatStepView::Finished(b) => b,
        DeleteSeatStepView::Attach(_, _) => if 0 <= j < results.len() {
            delete_seat_drive(sys_paths, results, j + 1)
        } else {
            false
        },
    }
}

/// After the first `k` devices were moved successfully, the next step moves
/// the `k`-th device, by its own decoded path, to `seat0`; once all of them
/// were moved, deleting is over and succeeded. So the devices are moved one
/// after the other, each exactly once, in their order.
pub proof fn lemma_delete_seat_moves_devices_in_order(sys_paths: Seq<OsText>, outcomes: Seq<bool>)
    requires
        outcomes.len() <= sys_paths.len(),
        forall|i: int| 0 <= i < outcomes.len() ==> #[trigger] outcomes[i],
    ensures
        outcomes.len() < sys_paths.len() && valid_utf8(sys_paths[outcomes.len() as int]@)
            ==> delete_seat_step_of(sys_paths, outcomes) == DeleteSeatStepView::Attach(
            decode_utf8(sys_paths[outcomes.len() as int]@),
            "seat0"@,
        ),
        outcomes.len() < sys_paths.len() && !valid_utf8(sys_paths[outcomes.len() as int]@)
            ==> delete_seat_step_of(sys_paths, outcomes) == DeleteSeatStepView::Finished(false),
        outcomes.len() == sys_paths.len() ==> delete_seat_step_of(sys_paths, outcomes)
            == DeleteSeatStepView::Finished(true),
{
    assert(!(exists|i: int| 0 <= i < outcomes.len() && !outcomes[i]));
}

/// A failed attachment ends the deletion with failure: nothing more is moved.
pub proof fn lemma_delete_seat_stops_at_failure(sys_paths: Seq<OsText>, outcomes: Seq<bool>, i: int)
    requires
        0 <= i < outcomes.len(),
        !outcomes[i],
    ensures
        delete_seat_step_of(sys_paths, outcomes) == DeleteSeatStepView::Finished(false),
{
}

/// The `i`-th device has a UTF-8 path and its attachment succeeded.
pub open spec fn device_moved(sys_paths: Seq<OsText>, results: Seq<bool>, i: int) -> bool {
    valid_utf8(sys_paths[i]@) && results[i]
}

/// Deleting a seat succeeds exactly when every device path is valid UTF-8
/// and every attachment succeeds, whatever the attachments answer.
pub proof fn lemma_delete_seat_outcome(sys_paths: Seq<OsText>, results: Seq<bool>)
    requires
        results.len() == sys_paths.len(),
    ensures
        delete_seat_drive(sys_paths, results, 0) == (forall|i: int|
            0 <= i < sys_paths.len() ==> #[trigger] device_moved(sys_paths, results, i)),
{
    lemma_delete_seat_drive_from(sys_paths, results, 0);
}

proof fn lemma_delete_seat_drive_from(sys_paths: Seq<OsText>, results: Seq<bool>, j: int)
    requires
        results.len() == sys_paths.len(),
        0 <= j <= results.len(),
        forall|i: int| 0 <= i < j ==> #[trigger] device_moved(sys_paths, results, i),
    ensures
        delete_seat_drive(sys_paths, results, j) == (forall|i: int|
            j <= i < sys_paths.len() ==> #[trigger] device_moved(sys_paths, results, i)),
    decreases results.len() - j,
{
    let done = results.subrange(0, j);
    assert forall|i: int| 0 <= i < done.len() implies done[i] by {
        assert(device_moved(sys_paths, results, i));
    }
    assert(!(exists|i: int| 0 <= i < done.len() && !done[i]));
    if j == results.len() {
        assert(delete_seat_step_of(sys_paths, done) == DeleteSeatStepView::Finished(true));
    } else if !valid_utf8(sys_paths[j]@) {
        assert(delete_seat_step_of(sys_paths, done) == DeleteSeatStepView::Finished(false));
        assert(!device_moved(sys_paths, results, j));
    } else {
        assert(delete_seat_step_of(sys_paths, done) is Attach);
        if results[j] {
            assert forall|i: int| 0 <= i < j + 1 implies device_moved(sys_paths, results, i) by {
                if i < j {
                    assert(device_moved(sys_paths, results, i));
                }
            }
            lemma_delete_seat_drive_from(sys_paths, results, j + 1);
            assert(delete_seat_drive(sys_paths, results, j) == delete_seat_drive(
                sys_paths,
                results,
                j + 1,
            ));
            assert(device_moved(sys_paths, results, j));
            assert forall|i: int| j <= i < sys_paths.len() && (forall|k: int|
                j + 1 <= k < sys_paths.len() ==> #[trigger] device_moved(sys_paths, results, k))
                implies device_moved(sys_paths, results, i) by {
                if i > j {
                    assert(device_moved(sys_paths, results, i));
                }
            }
        } else {
            let next = results.subrange(0, j + 1);
            assert(!next[j]);
            assert(delete_seat_step_of(sys_paths, next) == DeleteSeatStepView::Finished(false));
            assert(delete_seat_drive(sys_paths, results, j + 1) == false);
            assert(!device_moved(sys_paths, results, j));
        }
    }
}

} // verus!
