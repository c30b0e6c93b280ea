use multiseat::components::app::{AboutDialog, AppEffect, AppInput, App};
use multiseat::components::content::{
    ContentEffect, ContentInput, ContentModel, ContentOutput, DeviceCard, DeviceCardInput,
    DeviceCardOutput, SeatDialogEffect, SeatDialogInput, SeatDialogOutput, SeatSelectionDialog,
};
use multiseat::components::identify::{
    IdentifyEffect, IdentifyInput, IdentifyOutput, IdentifyState, IdentifyWorkerOutput,
    InputIdentifyDialog,
};
use multiseat::components::list_item::{ListItemInput, ListItemModel, ListItemOutput};
use multiseat::components::seat_dialog::{
    ListDialogComponent, ListDialogEffect, ListDialogInput, ListDialogMode, ListDialogOutput,
};
use multiseat::components::sidebar::{SidebarEffect, SidebarInput, SidebarModel, SidebarOutput};
use multiseat::input::identified_device;
use multiseat::text::OsText;
use multiseat::udev::{DeviceNode, UdevDevice};
use multiseat::utils::{get_seats, Seat, SeatPath, SeatVariant};

fn seats(ids: &[&str]) -> Vec<Seat> {
    get_seats(ids.iter().map(|id| SeatPath::new(id.to_string(), format!("/seat/{}", id))).collect())
}

fn found() -> multiseat::input::IdentifiedDevice {
    identified_device(Some("Keyboard"), Some(("/sys/usb3/3-9".to_string(), "3-9".to_string())))
}

#[test]
fn identify_dialog_flow() {
    let mut dialog = InputIdentifyDialog::new();
    assert!(matches!(dialog.state, IdentifyState::Ready));
    assert!(dialog.can_close());
    let effects = dialog.update(IdentifyInput::StartListening);
    assert!(matches!(dialog.state, IdentifyState::Listening));
    assert!(!dialog.can_close());
    assert!(matches!(effects.as_slice(), [IdentifyEffect::StartWorker]));

    let msg = dialog.update_cmd(IdentifyWorkerOutput::Found(found()));
    let effects = dialog.update(msg);
    match &dialog.state {
        IdentifyState::Found(d) => assert_eq!(d.usb_device_name, "3-9"),
        _ => panic!("expected found"),
    }
    match effects.as_slice() {
        [IdentifyEffect::Output(IdentifyOutput::DeviceIdentified(p))] => assert_eq!(p, "/sys/usb3/3-9"),
        _ => panic!("unexpected effects"),
    }

    let effects = dialog.update(IdentifyInput::SwitchToSeat);
    assert!(matches!(dialog.state, IdentifyState::Ready));
    match effects.as_slice() {
        [IdentifyEffect::CloseWindow, IdentifyEffect::Output(IdentifyOutput::SwitchDevice(p))] => {
            assert_eq!(p, "/sys/usb3/3-9")
        }
        _ => panic!("unexpected effects"),
    }
}

#[test]
fn identify_timeout_and_switch_without_device() {
    let mut dialog = InputIdentifyDialog::new();
    let msg = dialog.update_cmd(IdentifyWorkerOutput::Timeout);
    match &msg {
        IdentifyInput::IdentificationFailed(e) => assert_eq!(e, "Timeout: No input detected within 10 seconds"),
        _ => panic!("expected failure"),
    }
    dialog.update(msg);
    match &dialog.state {
        IdentifyState::Error(e) => assert_eq!(e, "Timeout: No input detected within 10 seconds"),
        _ => panic!("expected error"),
    }
    assert!(dialog.update(IdentifyInput::SwitchToSeat).is_empty());
    assert!(matches!(dialog.state, IdentifyState::Error(_)));
    assert!(dialog.update(IdentifyInput::Reset).is_empty());
    assert!(matches!(dialog.state, IdentifyState::Ready));
    let msg = dialog.update_cmd(IdentifyWorkerOutput::Error("Thread panicked".to_string()));
    dialog.update(msg);
    let effects = dialog.update(IdentifyInput::Close);
    assert!(matches!(dialog.state, IdentifyState::Ready));
    assert!(matches!(effects.as_slice(), [IdentifyEffect::CloseWindow]));
}

#[test]
fn list_item_selection() {
    let s = seats(&["seat0", "seat1"]);
    let mut it = s.into_iter();
    let mut master = ListItemModel::new(it.next().unwrap());
    let mut second = ListItemModel::new(it.next().unwrap());
    assert!(master.is_selected);
    assert!(!second.is_selected);
    assert!(!master.has_delete_menu());
    assert!(second.has_delete_menu());
    assert!(master.delete_confirmed().is_none());
    assert!(matches!(second.delete_confirmed(), Some(ListItemOutput::DeleteSeat(ref id)) if id == "seat1"));
    master.update(ListItemInput::UpdateSelection("seat1".to_string()));
    second.update(ListItemInput::UpdateSelection("seat1".to_string()));
    assert!(!master.is_selected);
    assert!(second.is_selected);
    assert!(matches!(second.clicked(), ListItemOutput::SelectSeat(ref id, SeatVariant::Secondary) if id == "seat1"));
}

#[test]
fn sidebar_selects_and_deletes() {
    let mut panel = SidebarModel::init(seats(&["seat0", "seat1", "seat2"]));
    assert_eq!(panel.selected_seat_id, "seat0");
    assert!(panel.has_secondary_seats);
    assert_eq!(panel.primary_seats.len(), 1);
    assert_eq!(panel.secondary_seats.len(), 2);
    assert!(panel.primary_seats[0].is_selected);

    let effects = panel.update(SidebarInput::SelectSeat("seat2".to_string(), SeatVariant::Secondary));
    assert_eq!(panel.selected_seat_id, "seat2");
    assert!(!panel.primary_seats[0].is_selected);
    assert!(!panel.secondary_seats[0].is_selected);
    assert!(panel.secondary_seats[1].is_selected);
    assert!(matches!(effects.as_slice(), [SidebarEffect::Output(SidebarOutput::SelectSeat(ref s))] if s == "seat2"));

    let effects = panel.update(SidebarInput::DeleteSeat("seat2".to_string()));
    assert!(matches!(effects.as_slice(), [SidebarEffect::DeleteSeat(ref s)] if s == "seat2"));
    let effects = panel.seat_deleted(false, "seat2".to_string());
    assert_eq!(panel.selected_seat_id, "seat2");
    assert!(matches!(effects.as_slice(), [SidebarEffect::Output(SidebarOutput::SeatDeleted(false, ref s))] if s == "seat2"));
    let effects = panel.seat_deleted(true, "seat2".to_string());
    assert_eq!(panel.selected_seat_id, "seat0");
    assert!(panel.primary_seats[0].is_selected);
    assert_eq!(effects.len(), 3);
    assert!(matches!(effects[2], SidebarEffect::RefreshSeats));

    panel.seats_listed(seats(&["seat0", "seat1"]));
    assert_eq!(panel.secondary_seats.len(), 1);
    assert!(panel.has_secondary_seats);
    panel.seats_listed(seats(&["seat0"]));
    assert!(panel.secondary_seats.is_empty());
    assert!(!panel.has_secondary_seats);
}

#[test]
fn sidebar_reset_waits_then_refreshes() {
    let mut panel = SidebarModel::init(seats(&["seat0", "seat1"]));
    panel.update(SidebarInput::SelectSeat("seat1".to_string(), SeatVariant::Secondary));
    let effects = panel.update(SidebarInput::ResetToDefault);
    assert_eq!(panel.selected_seat_id, "seat0");
    assert_eq!(effects.len(), 3);
    assert!(matches!(effects[1], SidebarEffect::Wait(100)));
    assert!(matches!(effects[2], SidebarEffect::RefreshSeats));
    assert!(matches!(panel.update(SidebarInput::RefreshSeats).as_slice(), [SidebarEffect::ListSeats]));
    assert!(matches!(
        panel.update(SidebarInput::OpenIdentifyDialog).as_slice(),
        [SidebarEffect::Output(SidebarOutput::OpenIdentifyDialog)]
    ));
}

fn os(s: &str) -> OsText {
    OsText::from_bytes(s.as_bytes().to_vec())
}

fn dev(name: &str, path: &str, subsystem: &str) -> UdevDevice {
    UdevDevice {
        node: DeviceNode {
            sys_name: os(name),
            sys_path: os(path),
            subsystem: Some(os(subsystem)),
            devtype: None,
            devnode: None,
            properties: Vec::new(),
        },
        ancestors: Vec::new(),
    }
}

#[test]
fn content_pane_lists_and_moves_devices() {
    let mut pane = ContentModel::init(
        "seat0".to_string(),
        vec![dev("card0", "/g/card0", "drm"), dev("card0-DP-1", "/g/card0/card0-DP-1", "drm"), dev("c", "/s", "sound")],
    );
    assert_eq!(pane.selected_seat, "seat0");
    assert_eq!(pane.graphics_cards.len(), 1);
    assert_eq!(pane.graphics_cards[0].ports.len(), 1);
    assert!(pane.graphics_cards[0].shows_ports());
    assert_eq!(pane.other_devices.len(), 1);
    assert!(!pane.other_devices[0].shows_ports());

    let out = pane.graphics_cards[0].update(DeviceCardInput::AttachDevice);
    let msg = ContentInput::from_card(out);
    assert!(matches!(pane.update(msg).as_slice(), [ContentEffect::ShowSeatDialog(ref p)] if p == "/g/card0"));
    assert!(matches!(
        pane.update(ContentInput::AttachDeviceToSeat("/g/card0".to_string(), "seat1".to_string())).as_slice(),
        [ContentEffect::AttachDevice(ref p, ref s)] if p == "/g/card0" && s == "seat1"
    ));
    let effects = pane.device_attached(true, "seat1".to_string());
    assert!(matches!(effects[0], ContentEffect::ListSeatDevices(ref s) if s == "seat0"));
    assert!(matches!(effects[1], ContentEffect::Output(ContentOutput::DeviceSwitched(true, ref s)) if s == "seat1"));
    assert!(matches!(pane.update(ContentInput::RefreshContent).as_slice(), [ContentEffect::ListSeatDevices(ref s)] if s == "seat0"));
    assert!(matches!(pane.update(ContentInput::ListSeatDevices("seat1".to_string())).as_slice(), [ContentEffect::FetchSeatDevices(ref s)] if s == "seat1"));
    pane.devices_listed("seat1".to_string(), Vec::new());
    assert_eq!(pane.selected_seat, "seat1");
    assert!(pane.graphics_cards.is_empty());
    assert!(pane.other_devices.is_empty());
    assert!(matches!(pane.update(ContentInput::OpenIdentifyDialog).as_slice(), [ContentEffect::PresentIdentifyDialog]));
    assert!(matches!(
        pane.update(ContentInput::CollapseSidebar).as_slice(),
        [ContentEffect::Output(ContentOutput::CollapseSidebar)]
    ));
    assert!(matches!(ContentInput::from_identify(IdentifyOutput::DeviceIdentified("/x".to_string())), ContentInput::RefreshContent));
    assert!(matches!(ContentInput::from_identify(IdentifyOutput::SwitchDevice("/x".to_string())), ContentInput::AttachDevice(ref p) if p == "/x"));
}

#[test]
fn device_card_reports_its_path() {
    let (gpus, _) = multiseat::utils::filter_devices(vec![dev("card0", "/g/card0", "drm")]);
    let card = DeviceCard::new(gpus.into_iter().next().unwrap());
    assert!(matches!(card.update(DeviceCardInput::AttachDevice), DeviceCardOutput::AttachDevice(ref p) if p == "/g/card0"));
}

#[test]
fn seat_dialog_assigns_the_target_device() {
    let mut dialog = SeatSelectionDialog::new();
    assert!(matches!(
        dialog.update(SeatDialogInput::ShowForDevice("/sys/usb3/3-9".to_string())).as_slice(),
        [SeatDialogEffect::FetchSeats]
    ));
    assert_eq!(dialog.target_device, "/sys/usb3/3-9");
    let effects = dialog.seats_listed(&seats(&["seat0", "seat1"]));
    assert!(matches!(effects.as_slice(), [SeatDialogEffect::Present]));
    assert_eq!(dialog.options.len(), 3);
    assert_eq!(dialog.options[0].id, "seat2");
    let effects = dialog.update(SeatDialogInput::SeatSelected("seat2".to_string()));
    match effects.as_slice() {
        [SeatDialogEffect::Close, SeatDialogEffect::Output(SeatDialogOutput::AttachDeviceToSeat(d, s))] => {
            assert_eq!(d, "/sys/usb3/3-9");
            assert_eq!(s, "seat2");
        }
        _ => panic!("unexpected effects"),
    }
    assert!(matches!(dialog.update(SeatDialogInput::Cancel).as_slice(), [SeatDialogEffect::Close]));
    let msg = ContentInput::from_seat_dialog(SeatDialogOutput::AttachDeviceToSeat("/d".to_string(), "seat3".to_string()));
    assert!(matches!(msg, ContentInput::AttachDeviceToSeat(ref d, ref s) if d == "/d" && s == "seat3"));
}

#[test]
fn naming_dialog_modes() {
    let rename = ListDialogComponent::init(Some("Office".to_string()));
    assert_eq!(rename.mode, ListDialogMode::Edit);
    assert_eq!(rename.label, "Rename");
    assert_eq!(rename.name, "Office");
    assert_eq!(rename.heading(), "You're about to rename this seat.");
    let effects = rename.update(ListDialogInput::HandleEntry, "Lab".to_string());
    assert!(matches!(effects[0], ListDialogEffect::Output(ListDialogOutput::RenameSeat(ref n)) if n == "Lab"));
    assert!(matches!(effects[1], ListDialogEffect::Close));

    let add = ListDialogComponent::init(None);
    assert_eq!(add.mode, ListDialogMode::New);
    assert_eq!(add.label, "Add seat");
    assert_eq!(add.name, "");
    assert_eq!(add.heading(), "You're about to add a seat.");
    let effects = add.update(ListDialogInput::HandleEntry, "Guest".to_string());
    assert!(matches!(effects[0], ListDialogEffect::Output(ListDialogOutput::AddSeatToSidebar(ref n)) if n == "Guest"));
}

#[test]
fn main_window_toggles_sidebar() {
    let mut app = App::new();
    assert!(!app.collapsed);
    assert!(app.update(AppInput::CollapseSidebar).is_none());
    assert!(app.collapsed);
    assert!(app.update(AppInput::CollapseSidebar).is_none());
    assert!(!app.collapsed);
    assert!(matches!(app.update(AppInput::Quit), Some(AppEffect::Quit)));
    assert!(!app.collapsed);
    assert!(matches!(AppInput::from_content(ContentOutput::CollapseSidebar), Some(AppInput::CollapseSidebar)));
    assert!(AppInput::from_content(ContentOutput::RefreshSeats).is_none());
    assert_eq!(AboutDialog {}.icon(), "org.gnome.Settings-multitasking-symbolic");
}
