use multiseat::input::identified_device;
use multiseat::manager::{ManagerAction, ManagerEvent, ManagerState};

fn toast(actions: &[ManagerAction]) -> String {
    actions
        .iter()
        .find_map(|a| match a {
            ManagerAction::Toast(m) => Some(m.clone()),
            _ => None,
        })
        .expect("a toast")
}

#[test]
fn start_selects_default_seat() {
    let (state, actions) = ManagerState::start();
    assert_eq!(state.selected_seat, "seat0");
    assert_eq!(state.pending_device_path, "");
    assert_eq!(actions.len(), 3);
    assert!(matches!(actions[0], ManagerAction::RefreshSeats));
    assert!(matches!(actions[1], ManagerAction::RefreshDevices(ref s) if s == "seat0"));
    assert!(matches!(actions[2], ManagerAction::ShowSelectedSeat(ref s) if s == "seat0"));
}

#[test]
fn delete_messages_and_selection() {
    let (mut state, _) = ManagerState::start();
    state.handle(ManagerEvent::SelectSeat("seat1".to_string()));
    assert_eq!(state.selected_seat, "seat1");
    let actions = state.handle(ManagerEvent::SeatDeleted("seat1".to_string(), false));
    assert_eq!(toast(&actions), "Failed to delete seat seat1");
    assert_eq!(state.selected_seat, "seat1");
    assert_eq!(actions.len(), 1);
    let actions = state.handle(ManagerEvent::SeatDeleted("seat1".to_string(), true));
    assert_eq!(toast(&actions), "Seat seat1 deleted");
    assert_eq!(state.selected_seat, "seat0");
    assert_eq!(actions.len(), 4);
    assert!(matches!(actions[3], ManagerAction::RefreshDevices(ref s) if s == "seat0"));
    let actions = state.handle(ManagerEvent::RefreshAll);
    assert!(matches!(actions[1], ManagerAction::RefreshDevices(ref s) if s == "seat0"));
    assert!(matches!(state.handle(ManagerEvent::DeleteSeatConfirmed("seat2".to_string()))[0], ManagerAction::DeleteSeat(ref s) if s == "seat2"));
}

#[test]
fn flush_and_assign_messages() {
    let (mut state, _) = ManagerState::start();
    assert!(matches!(state.handle(ManagerEvent::FlushDevices)[0], ManagerAction::FlushDevices));
    let actions = state.handle(ManagerEvent::DevicesFlushed(true));
    assert_eq!(toast(&actions), "Device assignments reset to system defaults");
    assert!(matches!(actions[1], ManagerAction::Wait(100)));
    let actions = state.handle(ManagerEvent::DevicesFlushed(false));
    assert_eq!(toast(&actions), "Failed to reset device assignments");
    let actions = state.handle(ManagerEvent::AssignToSeat("/sys/a".to_string(), "seat2".to_string()));
    assert!(matches!(actions[0], ManagerAction::AttachDevice(ref p, ref s) if p == "/sys/a" && s == "seat2"));
    state.handle(ManagerEvent::SelectSeat("seat2".to_string()));
    let actions = state.handle(ManagerEvent::DeviceAssigned("seat2".to_string(), true));
    assert!(matches!(actions[0], ManagerAction::Wait(150)));
    assert_eq!(toast(&actions), "Device moved to seat2");
    assert_eq!(state.selected_seat, "seat0");
    let actions = state.handle(ManagerEvent::DeviceAssigned("seat2".to_string(), false));
    assert_eq!(toast(&actions), "Failed to move device to seat2");
}

#[test]
fn identified_device_is_offered_for_assignment() {
    let (mut state, _) = ManagerState::start();
    let actions = state.handle(ManagerEvent::OpenIdentifyDialog);
    assert!(matches!(actions[0], ManagerAction::SetIdentifyStage(0)));
    let actions = state.handle(ManagerEvent::IdentifyStartListening);
    assert!(matches!(actions[1], ManagerAction::StartIdentify(10000)));
    let actions = state.handle(ManagerEvent::IdentifyFinished(None));
    assert!(matches!(actions[0], ManagerAction::ShowIdentifyError(ref e) if e == "No input detected within 10 seconds"));
    assert!(matches!(actions[1], ManagerAction::SetIdentifyStage(3)));
    let d = identified_device(Some("Keyboard"), Some(("/sys/usb3/3-9".to_string(), "3-9".to_string())));
    let actions = state.handle(ManagerEvent::IdentifyFinished(Some(d)));
    assert!(matches!(actions[0], ManagerAction::ShowIdentified(ref n, ref u) if n == "Keyboard" && u == "3-9"));
    let actions = state.handle(ManagerEvent::IdentifySwitchToSeat);
    assert!(matches!(actions[0], ManagerAction::OpenAssignDialog(ref p) if p == "/sys/usb3/3-9"));
    assert_eq!(state.pending_device_path, "/sys/usb3/3-9");
    let actions = state.handle(ManagerEvent::SwitchDevice("/sys/b".to_string()));
    assert!(matches!(actions[0], ManagerAction::OpenAssignDialog(ref p) if p == "/sys/b"));
    assert_eq!(state.pending_device_path, "/sys/b");
}
