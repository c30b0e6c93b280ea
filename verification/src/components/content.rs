//! The device pane: the graphics cards and other devices of the selected
//! seat, the dialog that picks a seat for a device, and how the pane reacts
//! to its messages.
use vstd::prelude::*;

use crate::components::identify::IdentifyOutput;
use crate::options::{build_seat_options, highest_number, options_describe, SeatOption};
use crate::udev::UdevDevice;
use crate::utils::{
    devices_view, filter_devices, grouped, ports_view, Device, DeviceView, Port, PortView, Seat,
};

verus! {

/// What a device card is told: its switch button was pressed.
pub enum DeviceCardInput {
    AttachDevice,
}

/// What a device card reports: the path of the device to move.
pub enum DeviceCardOutput {
    AttachDevice(String),
}

/// One device of the pane, with the display ports it lists.
pub struct DeviceCard {
    pub device: Device,
    pub ports: Vec<Port>,
}

/// The contents of a device card.
pub struct DeviceCardView {
    pub device: DeviceView,
    pub ports: Seq<PortView>,
}

impl View for DeviceCard {
    type V = DeviceCardView;

    open spec fn view(&self) -> DeviceCardView {
        DeviceCardView { device: self.device@, ports: ports_view(self.ports@) }
    }
}

/// The card for a device: it lists the device's ports, or none.
pub open spec fn card_for(device: DeviceView) -> DeviceCardView {
    DeviceCardView {
        device,
        ports: match device.ports {
            Some(p) => p,
            None => Seq::empty(),
        },
    }
}

/// The contents of a list of cards.
pub open spec fn cards_view(cards: Seq<DeviceCard>) -> Seq<DeviceCardView> {
    cards.map_values(|c: DeviceCard| c@)
}

/// A copy of a list of ports.
fn copy_ports(ports: &Vec<Port>) -> (r: Vec<Port>)
    ensures
        ports_view(r@) == ports_view(ports@),
{
    let mut out: Vec<Port> = Vec::new();
    let mut i: usize = 0;
    while i < ports.len()
        invariant
            i <= ports@.len(),
            out@.len() == i,
            forall|j: int| 0 <= j < i ==> #[trigger] out@[j]@ == ports@[j]@,
        decreases ports.len() - i,
    {
        out.push(Port { name: ports[i].name.clone(), path: ports[i].path.clone() });
        i = i + 1;
    }
    assert(ports_view(out@) =~= ports_view(ports@));
    out
}

impl DeviceCard {
    /// The card for a device.
    pub fn new(device: Device) -> (r: DeviceCard)
        ensures
            r@ == card_for(device@),
    {
        let ports = match &device.ports {
            Some(p) => copy_ports(p),
            None => Vec::new(),
        };
        proof {
            if device.ports is None {
                assert(ports_view(ports@) =~= Seq::<PortView>::empty());
            }
        }
        DeviceCard { device, ports }
    }

    /// Answers the switch button: the device's path is reported.
    pub fn update(&self, msg: DeviceCardInput) -> (r: DeviceCardOutput)
        ensures
            r matches DeviceCardOutput::AttachDevice(p) && p@ == self.device.path@,
    {
        match msg {
            DeviceCardInput::AttachDevice => DeviceCardOutput::AttachDevice(self.device.path.clone()),
        }
    }

    /// The port row is shown for devices that have ports (graphics cards).
    pub fn shows_ports(&self) -> (r: bool)
        ensures
            r == self.device.ports is Some,
    {
        self.device.ports.is_some()
    }
}

/// Makes a card for each device, in order.
fn cards_for(devices: Vec<Device>) -> (r: Vec<DeviceCard>)
    ensures
        cards_view(r@) == devices_view(devices@).map_values(|d: DeviceView| card_for(d)),
{
    let ghost all = devices@;
    let total = devices.len();
    let mut rest = devices;
    let mut cards: Vec<DeviceCard> = Vec::new();
    let mut k: usize = 0;
    while rest.len() > 0
        invariant
            k + rest@.len() == all.len(),
            total == all.len(),
            cards@.len() == k,
            rest@ == all.subrange(k as int, all.len() as int),
            cards_view(cards@) == devices_view(all.subrange(0, k as int)).map_values(
                |d: DeviceView| card_for(d),
            ),
        decreases rest.len(),
    {
        let device = rest.remove(0);
        assert(device == all[k as int]);
        let ghost prev = cards@;
        let card = DeviceCard::new(device);
        cards.push(card);
        assert forall|j: int| 0 <= j < k + 1 implies #[trigger] cards_view(cards@)[j] == devices_view(
            all.subrange(0, k + 1),
        ).map_values(|d: DeviceView| card_for(d))[j] by {
            if j < k {
                assert(cards@[j] == prev[j]);
                assert(cards_view(prev)[j] == devices_view(all.subrange(0, k as int)).map_values(
                    |d: DeviceView| card_for(d),
                )[j]);
            }
        }
        assert(cards_view(cards@) =~= devices_view(all.subrange(0, k + 1)).map_values(
            |d: DeviceView| card_for(d),
        ));
        k = k + 1;
        assert(rest@ =~= all.subrange(k as int, all.len() as int));
    }
    assert(all.subrange(0, k as int) =~= all);
    cards
}

/// What the device pane is told.
pub enum ContentInput {
    CollapseSidebar,
    ListSeatDevices(String),
    AttachDevice(String),
    RefreshContent,
    AttachDeviceToSeat(String, String),
    OpenIdentifyDialog,
}

/// What the device pane tells the window.
pub enum ContentOutput {
    CollapseSidebar,
    RefreshSeats,
    DeviceSwitched(bool, String),
}

/// What the device pane asks its surroundings to do.
pub enum ContentEffect {
    /// Tell the window.
    Output(ContentOutput),
    /// List the devices of this seat and hand them to `devices_listed`.
    FetchSeatDevices(String),
    /// Open the seat dialog for the device at this path.
    ShowSeatDialog(String),
    /// Attach the device at this path to this seat, then report with
    /// `device_attached`.
    AttachDevice(String, String),
    /// Send `ListSeatDevices` for this seat to the pane itself.
    ListSeatDevices(String),
    /// Show the dialog that identifies input devices.
    PresentIdentifyDialog,
}

/// The contents of an effect.
pub enum ContentEffectView {
    CollapseSidebar,
    RefreshSeats,
    DeviceSwitched(bool, Seq<char>),
    FetchSeatDevices(Seq<char>),
    ShowSeatDialog(Seq<char>),
    AttachDevice(Seq<char>, Seq<char>),
    ListSeatDevices(Seq<char>),
    PresentIdentifyDialog,
}

impl View for ContentEffect {
    type V = ContentEffectView;

    open spec fn view(&self) -> ContentEffectView {
        match self {
            ContentEffect::Output(ContentOutput::CollapseSidebar) => ContentEffectView::CollapseSidebar,
            ContentEffect::Output(ContentOutput::RefreshSeats) => ContentEffectView::RefreshSeats,
            ContentEffect::Output(ContentOutput::DeviceSwitched(ok, s)) => ContentEffectView::DeviceSwitched(*ok, s@),
            ContentEffect::FetchSeatDevices(s) => ContentEffectView::FetchSeatDevices(s@),
            ContentEffect::ShowSeatDialog(p) => ContentEffectView::ShowSeatDialog(p@),
            ContentEffect::AttachDevice(p, s) => ContentEffectView::AttachDevice(p@, s@),
            ContentEffect::ListSeatDevices(s) => ContentEffectView::ListSeatDevices(s@),
            ContentEffect::PresentIdentifyDialog => ContentEffectView::PresentIdentifyDialog,
        }
    }
}

/// The contents of a list of effects.
pub open spec fn content_effects_view(effects: Seq<ContentEffect>) -> Seq<ContentEffectView> {
    effects.map_values(|e: ContentEffect| e@)
}

/// The device pane.
pub struct ContentModel {
    pub selected_seat: String,
    pub graphics_cards: Vec<DeviceCard>,
    pub other_devices: Vec<DeviceCard>,
}

/// The contents of the device pane.
pub struct ContentView {
    pub selected_seat: Seq<char>,
    pub graphics_cards: Seq<DeviceCardView>,
    pub other_devices: Seq<DeviceCardView>,
}

impl View for ContentModel {
    type V = ContentView;

    open spec fn view(&self) -> ContentView {
        ContentView {
            selected_seat: self.selected_seat@,
            graphics_cards: cards_view(self.graphics_cards@),
            other_devices: cards_view(self.other_devices@),
        }
    }
}

/// How the pane answers a message: its next contents and the effects.
pub open spec fn content_step(pane: ContentView, msg: ContentInput) -> (ContentView, Seq<ContentEffectView>) {
    match msg {
        ContentInput::CollapseSidebar => (pane, seq![ContentEffectView::CollapseSidebar]),
        ContentInput::ListSeatDevices(seat) => (pane, seq![ContentEffectView::FetchSeatDevices(seat@)]),
        ContentInput::AttachDevice(path) => (pane, seq![ContentEffectView::ShowSeatDialog(path@)]),
        ContentInput::RefreshContent => (
            pane,
            seq![ContentEffectView::ListSeatDevices(pane.selected_seat)],
        ),
        ContentInput::AttachDeviceToSeat(path, seat) => (
            pane,
            seq![ContentEffectView::AttachDevice(path@, seat@)],
        ),
        ContentInput::OpenIdentifyDialog => (pane, seq![ContentEffectView::PresentIdentifyDialog]),
    }
}

/// The pane for a seat and its devices: graphics cards and other devices as
/// `filter_devices` groups them.
pub open spec fn listed_pane(seat: Seq<char>, devices: Seq<UdevDevice>) -> ContentView {
    ContentView {
        selected_seat: seat,
        graphics_cards: grouped(devices).0.map_values(|d: DeviceView| card_for(d)),
        other_devices: grouped(devices).1.map_values(|d: DeviceView| card_for(d)),
    }
}

impl ContentModel {
    /// The pane for a seat and the devices listed for it.
    pub fn init(selected_seat: String, devices: Vec<UdevDevice>) -> (r: ContentModel)
        ensures
            r@ == listed_pane(selected_seat@, devices@),
    {
        let (graphics_cards, other_devices) = filter_devices(devices);
        ContentModel {
            selected_seat,
            graphics_cards: cards_for(graphics_cards),
            other_devices: cards_for(other_devices),
        }
    }

    /// Answers a message.
    pub fn update(&self, msg: ContentInput) -> (r: Vec<ContentEffect>)
        ensures
            (self@, content_effects_view(r@)) == content_step(self@, msg),
    {
        let ghost m = msg;
        let mut effects: Vec<ContentEffect> = Vec::new();
        match msg {
            ContentInput::CollapseSidebar => {
                effects.push(ContentEffect::Output(ContentOutput::CollapseSidebar));
            },
            ContentInput::ListSeatDevices(target_seat) => {
                effects.push(ContentEffect::FetchSeatDevices(target_seat));
            },
            ContentInput::AttachDevice(device_path) => {
                effects.push(ContentEffect::ShowSeatDialog(device_path));
            },
            ContentInput::AttachDeviceToSeat(device_path, seat_id) => {
                effects.push(ContentEffect::AttachDevice(device_path, seat_id));
            },
            ContentInput::RefreshContent => {
                effects.push(ContentEffect::ListSeatDevices(self.selected_seat.clone()));
            },
            ContentInput::OpenIdentifyDialog => {
                effects.push(ContentEffect::PresentIdentifyDialog);
            },
        }
        assert(content_effects_view(effects@) =~= content_step(self@, m).1);
        effects
    }

    /// Shows the devices listed for a seat, which becomes the selected seat.
    pub fn devices_listed(&mut self, target_seat: String, devices: Vec<UdevDevice>)
        ensures
            final(self)@ == listed_pane(target_seat@, devices@),
    {
        let (graphics_cards, other_devices) = filter_devices(devices);
        self.graphics_cards = cards_for(graphics_cards);
        self.other_devices = cards_for(other_devices);
        self.selected_seat = target_seat;
    }

    /// Answers the outcome of moving a device: the selected seat's devices
    /// are listed again and the outcome is reported.
    pub fn device_attached(&self, success: bool, seat_id: String) -> (r: Vec<ContentEffect>)
        ensures
            content_effects_view(r@) == seq![
                ContentEffectView::ListSeatDevices(self.selected_seat@),
                ContentEffectView::DeviceSwitched(success, seat_id@),
            ],
    {
        let ghost id = seat_id@;
        let mut effects: Vec<ContentEffect> = Vec::new();
        effects.push(ContentEffect::ListSeatDevices(self.selected_seat.clone()));
        effects.push(ContentEffect::Output(ContentOutput::DeviceSwitched(success, seat_id)));
        assert(content_effects_view(effects@) =~= seq![
            ContentEffectView::ListSeatDevices(self.selected_seat@),
            ContentEffectView::DeviceSwitched(success, id),
        ]);
        effects
    }
}

/// No message changes the pane by itself, and every listing of devices the
/// pane asks for itself is for its selected seat; refreshing asks for
/// exactly that listing.
pub proof fn lemma_refresh_lists_the_selected_seat(pane: ContentView, msg: ContentInput)
    ensures
        ({
            let (next, effects) = content_step(pane, msg);
            &&& next == pane
            &&& forall|i: int|
                0 <= i < effects.len() ==> ((#[trigger] effects[i]) matches ContentEffectView::ListSeatDevices(s)
                    ==> s == pane.selected_seat)
        }),
        msg is RefreshContent ==> content_step(pane, msg).1 == seq![
            ContentEffectView::ListSeatDevices(pane.selected_seat),
        ],
{
}

impl ContentInput {
    /// A device card asks to move its device.
    pub fn from_card(output: DeviceCardOutput) -> (r: ContentInput)
        ensures
            output matches DeviceCardOutput::AttachDevice(p) ==> (r matches ContentInput::AttachDevice(
                q,
            ) && q@ == p@),
    {
        match output {
            DeviceCardOutput::AttachDevice(device_path) => ContentInput::AttachDevice(device_path),
        }
    }

    /// The seat dialog asks to move a device to a seat.
    pub fn from_seat_dialog(output: SeatDialogOutput) -> (r: ContentInput)
        ensures
            output matches SeatDialogOutput::AttachDeviceToSeat(d, s) ==> (
            r matches ContentInput::AttachDeviceToSeat(d2, s2) && d2@ == d@ && s2@ == s@),
    {
        match output {
            SeatDialogOutput::AttachDeviceToSeat(device, seat) => ContentInput::AttachDeviceToSeat(
                device,
                seat,
            ),
        }
    }

    /// The identify dialog found a device (the pane is refreshed) or asks to
    /// move one (the seat dialog is opened for it).
    pub fn from_identify(output: IdentifyOutput) -> (r: ContentInput)
        ensures
            output is DeviceIdentified ==> r is RefreshContent,
            output matches IdentifyOutput::SwitchDevice(p) ==> (r matches ContentInput::AttachDevice(
                q,
            ) && q@ == p@),
    {
        match output {
            IdentifyOutput::DeviceIdentified(_usb_path) => ContentInput::RefreshContent,
            IdentifyOutput::SwitchDevice(usb_path) => ContentInput::AttachDevice(usb_path),
        }
    }
}

/// What the seat dialog is told.
pub enum SeatDialogInput {
    ShowForDevice(String),
    SeatSelected(String),
    Cancel,
}

/// What the seat dialog reports: move this device to this seat.
pub enum SeatDialogOutput {
    AttachDeviceToSeat(String, String),
}

/// What a seat choice is told: it was clicked.
pub enum SeatOptionInput {
    Select,
}

/// What the seat dialog asks its surroundings to do.
pub enum SeatDialogEffect {
    /// List the seats and hand them to `seats_listed`.
    FetchSeats,
    /// Show the dialog.
    Present,
    /// Close the dialog.
    Close,
    /// Tell the device pane.
    Output(SeatDialogOutput),
}

/// The contents of an effect.
pub enum SeatDialogEffectView {
    FetchSeats,
    Present,
    Close,
    AttachDeviceToSeat(Seq<char>, Seq<char>),
}

impl View for SeatDialogEffect {
    type V = SeatDialogEffectView;

    open spec fn view(&self) -> SeatDialogEffectView {
        match self {
            SeatDialogEffect::FetchSeats => SeatDialogEffectView::FetchSeats,
            SeatDialogEffect::Present => SeatDialogEffectView::Present,
            SeatDialogEffect::Close => SeatDialogEffectView::Close,
            SeatDialogEffect::Output(SeatDialogOutput::AttachDeviceToSeat(d, s)) => SeatDialogEffectView::AttachDeviceToSeat(d@, s@),
        }
    }
}

/// The contents of a list of effects.
pub open spec fn dialog_effects_view(effects: Seq<SeatDialogEffect>) -> Seq<SeatDialogEffectView> {
    effects.map_values(|e: SeatDialogEffect| e@)
}

/// The dialog that picks the seat a device moves to.
pub struct SeatSelectionDialog {
    pub target_device: String,
    pub options: Vec<SeatOption>,
}

/// How the seat dialog answers a message: the device it is for afterwards
/// and the effects.
pub open spec fn dialog_step(target: Seq<char>, msg: SeatDialogInput) -> (Seq<char>, Seq<SeatDialogEffectView>) {
    match msg {
        SeatDialogInput::ShowForDevice(device) => (device@, seq![SeatDialogEffectView::FetchSeats]),
        SeatDialogInput::SeatSelected(seat) => (
            target,
            seq![
                SeatDialogEffectView::Close,
                SeatDialogEffectView::AttachDeviceToSeat(target, seat@),
            ],
        ),
        SeatDialogInput::Cancel => (target, seq![SeatDialogEffectView::Close]),
    }
}

impl SeatSelectionDialog {
    /// A dialog for no device yet, with no choices.
    pub fn new() -> (r: SeatSelectionDialog)
        ensures
            r.target_device@ == Seq::<char>::empty(),
            r.options@.len() == 0,
    {
        SeatSelectionDialog { target_device: String::new(), options: Vec::new() }
    }

    /// Answers a message.
    pub fn update(&mut self, msg: SeatDialogInput) -> (r: Vec<SeatDialogEffect>)
        ensures
            (final(self).target_device@, dialog_effects_view(r@)) == dialog_step(
                old(self).target_device@,
                msg,
            ),
            final(self).options@ == old(self).options@,
    {
        let ghost target = self.target_device@;
        let ghost m = msg;
        let mut effects: Vec<SeatDialogEffect> = Vec::new();
        match msg {
            SeatDialogInput::ShowForDevice(device) => {
                self.target_device = device;
                effects.push(SeatDialogEffect::FetchSeats);
            },
            SeatDialogInput::SeatSelected(seat_id) => {
                effects.push(SeatDialogEffect::Close);
                effects.push(
                    SeatDialogEffect::Output(
                        SeatDialogOutput::AttachDeviceToSeat(self.target_device.clone(), seat_id),
                    ),
                );
            },
            SeatDialogInput::Cancel => {
                effects.push(SeatDialogEffect::Close);
            },
        }
        assert(dialog_effects_view(effects@) =~= dialog_step(target, m).1);
        effects
    }

    /// Fills the choices from the listed seats and shows the dialog.
    pub fn seats_listed(&mut self, seats: &Vec<Seat>) -> (r: Vec<SeatDialogEffect>)
        requires
            highest_number(seats@) < i32::MAX,
        ensures
            options_describe(final(self).options@, seats@),
            final(self).target_device@ == old(self).target_device@,
            dialog_effects_view(r@) == seq![SeatDialogEffectView::Present],
    {
        self.options = build_seat_options(seats);
        let mut effects: Vec<SeatDialogEffect> = Vec::new();
        effects.push(SeatDialogEffect::Present);
        assert(dialog_effects_view(effects@) =~= seq![SeatDialogEffectView::Present]);
        effects
    }
}

impl SeatOption {
    /// Answers a click: the seat label is reported.
    pub fn update(&self, msg: SeatOptionInput) -> (r: String)
        ensures
            r@ == self.id@,
    {
        match msg {
            SeatOptionInput::Select => self.id.clone(),
        }
    }
}

} // verus!
