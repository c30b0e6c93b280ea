//! The manager window's controller: which seat is selected, which device is
//! about to be moved, and what each user request or finished background job
//! leads to.
use vstd::prelude::*;

use crate::input::IdentifiedDevice;
use crate::DEFAULT_SEAT;

verus! {

/// What the controller remembers between events.
pub struct ManagerState {
    pub selected_seat: String,
    pub pending_device_path: String,
    pub identify_usb_path: String,
}

/// The contents of the controller's memory.
pub struct ManagerView {
    pub selected_seat: Seq<char>,
    pub pending_device_path: Seq<char>,
    pub identify_usb_path: Seq<char>,
}

impl View for ManagerState {
    type V = ManagerView;

    open spec fn view(&self) -> ManagerView {
        ManagerView {
            selected_seat: self.selected_seat@,
            pending_device_path: self.pending_device_path@,
            identify_usb_path: self.identify_usb_path@,
        }
    }
}

/// What happens in the window, or what a background job reports.
pub enum ManagerEvent {
    SelectSeat(String),
    RefreshAll,
    DeleteSeatConfirmed(String),
    /// Deleting this seat finished, successfully or not.
    SeatDeleted(String, bool),
    FlushDevices,
    /// Resetting every device assignment finished.
    DevicesFlushed(bool),
    SwitchDevice(String),
    AssignToSeat(String, String),
    /// Moving a device to this seat finished.
    DeviceAssigned(String, bool),
    OpenIdentifyDialog,
    IdentifyStartListening,
    /// Listening for input ended with this device, or with nothing.
    IdentifyFinished(Option<IdentifiedDevice>),
    IdentifySwitchToSeat,
}

/// What the controller asks the window and the system to do, in order.
pub enum ManagerAction {
    /// Mark this seat as selected in the window.
    ShowSelectedSeat(String),
    /// List the seats again.
    RefreshSeats,
    /// List the devices of this seat again.
    RefreshDevices(String),
    /// Delete this seat, then report `SeatDeleted`.
    DeleteSeat(String),
    /// Reset every device assignment, then report `DevicesFlushed`.
    FlushDevices,
    /// Show this message for a few seconds.
    Toast(String),
    /// Give udev and logind this many milliseconds to settle.
    Wait(u64),
    /// Offer the seat choices for the device at this path.
    OpenAssignDialog(String),
    /// Move the device at this path to this seat, then report
    /// `DeviceAssigned`.
    AttachDevice(String, String),
    /// Show this stage of the identify dialog: ready, listening, found,
    /// failed.
    SetIdentifyStage(i32),
    /// Show the identify dialog.
    ShowIdentifyDialog,
    /// Listen for input for this many milliseconds, then report
    /// `IdentifyFinished`.
    StartIdentify(u64),
    /// Show the identified device's name and USB name.
    ShowIdentified(String, String),
    /// Show why identifying failed.
    ShowIdentifyError(String),
}

/// The contents of an action.
pub enum ManagerActionView {
    ShowSelectedSeat(Seq<char>),
    RefreshSeats,
    RefreshDevices(Seq<char>),
    DeleteSeat(Seq<char>),
    FlushDevices,
    Toast(Seq<char>),
    Wait(u64),
    OpenAssignDialog(Seq<char>),
    AttachDevice(Seq<char>, Seq<char>),
    SetIdentifyStage(i32),
    ShowIdentifyDialog,
    StartIdentify(u64),
    ShowIdentified(Seq<char>, Seq<char>),
    ShowIdentifyError(Seq<char>),
}

impl View for ManagerAction {
    type V = ManagerActionView;

    open spec fn view(&self) -> ManagerActionView {
        match self {
            ManagerAction::ShowSelectedSeat(s) => ManagerActionView::ShowSelectedSeat(s@),
            ManagerAction::RefreshSeats => ManagerActionView::RefreshSeats,
            ManagerAction::RefreshDevices(s) => ManagerActionView::RefreshDevices(s@),
            ManagerAction::DeleteSeat(s) => ManagerActionView::DeleteSeat(s@),
            ManagerAction::FlushDevices => ManagerActionView::FlushDevices,
            ManagerAction::Toast(m) => ManagerActionView::Toast(m@),
            ManagerAction::Wait(ms) => ManagerActionView::Wait(*ms),
            ManagerAction::OpenAssignDialog(p) => ManagerActionView::OpenAssignDialog(p@),
            ManagerAction::AttachDevice(p, s) => ManagerActionView::AttachDevice(p@, s@),
            ManagerAction::SetIdentifyStage(n) => ManagerActionView::SetIdentifyStage(*n),
            ManagerAction::ShowIdentifyDialog => ManagerActionView::ShowIdentifyDialog,
            ManagerAction::StartIdentify(ms) => ManagerActionView::StartIdentify(*ms),
            ManagerAction::ShowIdentified(n, u) => ManagerActionView::ShowIdentified(n@, u@),
            ManagerAction::ShowIdentifyError(e) => ManagerActionView::ShowIdentifyError(e@),
        }
    }
}

/// The contents of a list of actions.
pub open spec fn actions_view(actions: Seq<ManagerAction>) -> Seq<ManagerActionView> {
    actions.map_values(|a: ManagerAction| a@)
}

/// What the window does to go back to the default seat after the seats
/// changed: select it, list the seats, list its devices.
pub open spec fn back_to_default() -> Seq<ManagerActionView> {
    seq![
        ManagerActionView::ShowSelectedSeat(DEFAULT_SEAT@),
        ManagerActionView::RefreshSeats,
        ManagerActionView::RefreshDevices(DEFAULT_SEAT@),
    ]
}

/// The message shown once deleting a seat finished.
pub open spec fn delete_message(id: Seq<char>, success: bool) -> Seq<char> {
    if success {
        "Seat "@ + id + " deleted"@
    } else {
        "Failed to delete seat "@ + id
    }
}

/// The message shown once resetting the assignments finished.
pub open spec fn flush_message(success: bool) -> Seq<char> {
    if success {
        "Device assignments reset to system defaults"@
    } else {
        "Failed to reset device assignments"@
    }
}

/// The message shown once moving a device finished.
pub open spec fn assign_message(seat: Seq<char>, success: bool) -> Seq<char> {
    if success {
        "Device moved to "@ + seat
    } else {
        "Failed to move device to "@ + seat
    }
}

/// How the controller answers an event: its next memory and the actions.
pub open spec fn manager_step(state: ManagerView, event: ManagerEvent) -> (ManagerView, Seq<ManagerActionView>) {
    let to_default = ManagerView { selected_seat: DEFAULT_SEAT@, ..state };
    match event {
        ManagerEvent::SelectSeat(id) => (
            ManagerView { selected_seat: id@, ..state },
            seq![ManagerActionView::ShowSelectedSeat(id@), ManagerActionView::RefreshDevices(id@)],
        ),
        ManagerEvent::RefreshAll => (
            state,
            seq![
                ManagerActionView::RefreshSeats,
                ManagerActionView::RefreshDevices(state.selected_seat),
            ],
        ),
        ManagerEvent::DeleteSeatConfirmed(id) => (state, seq![ManagerActionView::DeleteSeat(id@)]),
        ManagerEvent::SeatDeleted(id, success) => if success {
            (
                to_default,
                seq![ManagerActionView::Toast(delete_message(id@, true))] + back_to_default(),
            )
        } else {
            (state, seq![ManagerActionView::Toast(delete_message(id@, false))])
        },
        ManagerEvent::FlushDevices => (state, seq![ManagerActionView::FlushDevices]),
        ManagerEvent::DevicesFlushed(success) => if success {
            (
                to_default,
                seq![
                    ManagerActionView::Toast(flush_message(true)),
                    ManagerActionView::Wait(100),
                ] + back_to_default(),
            )
        } else {
            (state, seq![ManagerActionView::Toast(flush_message(false))])
        },
        ManagerEvent::SwitchDevice(path) => (
            ManagerView { pending_device_path: path@, ..state },
            seq![ManagerActionView::OpenAssignDialog(path@)],
        ),
        ManagerEvent::AssignToSeat(path, seat) => (
            state,
            seq![ManagerActionView::AttachDevice(path@, seat@)],
        ),
        ManagerEvent::DeviceAssigned(seat, success) => if success {
            (
                to_default,
                seq![
                    ManagerActionView::Wait(150),
                    ManagerActionView::Toast(assign_message(seat@, true)),
                    ManagerActionView::RefreshSeats,
                    ManagerActionView::RefreshDevices(DEFAULT_SEAT@),
                    ManagerActionView::ShowSelectedSeat(DEFAULT_SEAT@),
                ],
            )
        } else {
            (state, seq![ManagerActionView::Toast(assign_message(seat@, false))])
        },
        ManagerEvent::OpenIdentifyDialog => (
            state,
            seq![ManagerActionView::SetIdentifyStage(0), ManagerActionView::ShowIdentifyDialog],
        ),
        ManagerEvent::IdentifyStartListening => (
            state,
            seq![ManagerActionView::SetIdentifyStage(1), ManagerActionView::StartIdentify(10000)],
        ),
        ManagerEvent::IdentifyFinished(found) => match found {
            Some(d) => (
                ManagerView { identify_usb_path: d.usb_device_path@, ..state },
                seq![
                    ManagerActionView::ShowIdentified(d.name@, d.usb_device_name@),
                    ManagerActionView::SetIdentifyStage(2),
                ],
            ),
            None => (
                state,
                seq![
                    ManagerActionView::ShowIdentifyError("No input detected within 10 seconds"@),
                    ManagerActionView::SetIdentifyStage(3),
                ],
            ),
        },
        ManagerEvent::IdentifySwitchToSeat => (
            ManagerView { pending_device_path: state.identify_usb_path, ..state },
            seq![ManagerActionView::OpenAssignDialog(state.identify_usb_path)],
        ),
    }
}

/// Appends the actions that go back to the default seat.
fn push_back_to_default(actions: &mut Vec<ManagerAction>)
    ensures
        actions_view(final(actions)@) == actions_view(old(actions)@) + back_to_default(),
{
    let ghost before = actions_view(actions@);
    actions.push(ManagerAction::ShowSelectedSeat(DEFAULT_SEAT.to_owned()));
    actions.push(ManagerAction::RefreshSeats);
    actions.push(ManagerAction::RefreshDevices(DEFAULT_SEAT.to_owned()));
    assert(actions_view(actions@) =~= before + back_to_default());
}

impl ManagerState {
    /// The controller when the window opens, with the actions that fill the
    /// window: the seats, the default seat's devices, and its selection.
    pub fn start() -> (r: (ManagerState, Vec<ManagerAction>))
        ensures
            r.0@ == (ManagerView {
                selected_seat: DEFAULT_SEAT@,
                pending_device_path: Seq::empty(),
                identify_usb_path: Seq::empty(),
            }),
            actions_view(r.1@) == seq![
                ManagerActionView::RefreshSeats,
                ManagerActionView::RefreshDevices(DEFAULT_SEAT@),
                ManagerActionView::ShowSelectedSeat(DEFAULT_SEAT@),
            ],
    {
        let mut actions: Vec<ManagerAction> = Vec::new();
        actions.push(ManagerAction::RefreshSeats);
        actions.push(ManagerAction::RefreshDevices(DEFAULT_SEAT.to_owned()));
        actions.push(ManagerAction::ShowSelectedSeat(DEFAULT_SEAT.to_owned()));
        let state = ManagerState {
            selected_seat: DEFAULT_SEAT.to_owned(),
            pending_device_path: String::new(),
            identify_usb_path: String::new(),
        };
        assert(actions_view(actions@) =~= seq![
            ManagerActionView::RefreshSeats,
            ManagerActionView::RefreshDevices(DEFAULT_SEAT@),
            ManagerActionView::ShowSelectedSeat(DEFAULT_SEAT@),
        ]);
        (state, actions)
    }

    /// Answers an event.
    pub fn handle(&mut self, event: ManagerEvent) -> (r: Vec<ManagerAction>)
        ensures
            (final(self)@, actions_view(r@)) == manager_step(old(self)@, event),
    {
        let ghost before = self@;
        let ghost ev = event;
        let mut actions: Vec<ManagerAction> = Vec::new();
        match event {
            ManagerEvent::SelectSeat(id) => {
                self.selected_seat = id.clone();
                actions.push(ManagerAction::ShowSelectedSeat(id.clone()));
                actions.push(ManagerAction::RefreshDevices(id));
            },
            ManagerEvent::RefreshAll => {
                actions.push(ManagerAction::RefreshSeats);
                actions.push(ManagerAction::RefreshDevices(self.selected_seat.clone()));
            },
            ManagerEvent::DeleteSeatConfirmed(id) => {
                actions.push(ManagerAction::DeleteSeat(id));
            },
            ManagerEvent::SeatDeleted(id, success) => {
                let msg = if success {
                    "Seat ".to_owned().concat(id.as_str()).concat(" deleted")
                } else {
                    "Failed to delete seat ".to_owned().concat(id.as_str())
                };
                actions.push(ManagerAction::Toast(msg));
                if success {
                    self.selected_seat = DEFAULT_SEAT.to_owned();
                    push_back_to_default(&mut actions);
                }
            },
            ManagerEvent::FlushDevices => {
                actions.push(ManagerAction::FlushDevices);
            },
            ManagerEvent::DevicesFlushed(success) => {
                let msg = if success {
                    "Device assignments reset to system defaults"
                } else {
                    "Failed to reset device assignments"
                };
                actions.push(ManagerAction::Toast(msg.to_owned()));
                if success {
                    actions.push(ManagerAction::Wait(100));
                    self.selected_seat = DEFAULT_SEAT.to_owned();
                    push_back_to_default(&mut actions);
                }
            },
            ManagerEvent::SwitchDevice(path) => {
                self.pending_device_path = path.clone();
                actions.push(ManagerAction::OpenAssignDialog(path));
            },
            ManagerEvent::AssignToSeat(path, seat) => {
                actions.push(ManagerAction::AttachDevice(path, seat));
            },
            ManagerEvent::DeviceAssigned(seat, success) => {
                if success {
                    actions.push(ManagerAction::Wait(150));
                    actions.push(
                        ManagerAction::Toast("Device moved to ".to_owned().concat(seat.as_str())),
                    );
                    self.selected_seat = DEFAULT_SEAT.to_owned();
                    actions.push(ManagerAction::RefreshSeats);
                    actions.push(ManagerAction::RefreshDevices(DEFAULT_SEAT.to_owned()));
                    actions.push(ManagerAction::ShowSelectedSeat(DEFAULT_SEAT.to_owned()));
                } else {
                    actions.push(
                        ManagerAction::Toast(
                            "Failed to move device to ".to_owned().concat(seat.as_str()),
                        ),
                    );
                }
            },
            ManagerEvent::OpenIdentifyDialog => {
                actions.push(ManagerAction::SetIdentifyStage(0));
                actions.push(ManagerAction::ShowIdentifyDialog);
            },
            ManagerEvent::IdentifyStartListening => {
                actions.push(ManagerAction::SetIdentifyStage(1));
                actions.push(ManagerAction::StartIdentify(10000));
            },
            ManagerEvent::IdentifyFinished(found) => {
                match found {
                    Some(device) => {
                        self.identify_usb_path = device.usb_device_path.clone();
                        actions.push(
                            ManagerAction::ShowIdentified(device.name, device.usb_device_name),
                        );
                        actions.push(ManagerAction::SetIdentifyStage(2));
                    },
                    None => {
                        actions.push(
                            ManagerAction::ShowIdentifyError(
                                "No input detected within 10 seconds".to_owned(),
                            ),
                        );
                        actions.push(ManagerAction::SetIdentifyStage(3));
                    },
                }
            },
            ManagerEvent::IdentifySwitchToSeat => {
                let usb_path = self.identify_usb_path.clone();
                self.pending_device_path = usb_path.clone();
                actions.push(ManagerAction::OpenAssignDialog(usb_path));
            },
        }
        assert(actions_view(actions@) =~= manager_step(before, ev).1);
        actions
    }
}

/// Whatever the event, every device listing the controller asks for and
/// every seat it marks as selected is the seat it now holds as selected;
/// selecting a seat makes it the selected seat, marks it and lists its
/// devices.
pub proof fn lemma_listed_devices_are_the_selected_seats(state: ManagerView, event: ManagerEvent)
    ensures
        ({
            let (next, actions) = manager_step(state, event);
            &&& forall|i: int|
                0 <= i < actions.len() ==> ((#[trigger] actions[i]) matches ManagerActionView::RefreshDevices(s)
                    ==> s == next.selected_seat)
            &&& forall|i: int|
                0 <= i < actions.len() ==> ((#[trigger] actions[i]) matches ManagerActionView::ShowSelectedSeat(s)
                    ==> s == next.selected_seat)
        }),
        event matches ManagerEvent::SelectSeat(id) ==> ({
            let (next, actions) = manager_step(state, event);
            &&& next.selected_seat == id@
            &&& actions.contains(ManagerActionView::ShowSelectedSeat(id@))
            &&& actions.contains(ManagerActionView::RefreshDevices(id@))
        }),
{
    let (next, actions) = manager_step(state, event);
    match event {
        ManagerEvent::SelectSeat(id) => {
            assert(actions[0] == ManagerActionView::ShowSelectedSeat(id@));
            assert(actions[1] == ManagerActionView::RefreshDevices(id@));
        },
        _ => {},
    }
}

/// Whenever deleting a seat, resetting the assignments or moving a device
/// succeeds, the default seat becomes the selected seat.
pub proof fn lemma_success_returns_to_default(state: ManagerView, id: String)
    ensures
        manager_step(state, ManagerEvent::SeatDeleted(id, true)).0.selected_seat == DEFAULT_SEAT@,
        manager_step(state, ManagerEvent::DevicesFlushed(true)).0.selected_seat == DEFAULT_SEAT@,
        manager_step(state, ManagerEvent::DeviceAssigned(id, true)).0.selected_seat
            == DEFAULT_SEAT@,
        manager_step(state, ManagerEvent::SeatDeleted(id, false)).0 == state,
        manager_step(state, ManagerEvent::DevicesFlushed(false)).0 == state,
        manager_step(state, ManagerEvent::DeviceAssigned(id, false)).0 == state,
{
}

/// Once a device is identified, asking to move it opens the seat choice
/// for that device's USB path, which becomes the device about to be moved.
pub proof fn lemma_identified_device_is_offered(state: ManagerView, device: IdentifiedDevice)
    ensures
        ({
            let s1 = manager_step(state, ManagerEvent::IdentifyFinished(Some(device))).0;
            let (s2, actions) = manager_step(s1, ManagerEvent::IdentifySwitchToSeat);
            &&& actions == seq![ManagerActionView::OpenAssignDialog(device.usb_device_path@)]
            &&& s2.pending_device_path == device.usb_device_path@
        }),
{
}

} // verus!
