use multiseat::options::{build_seat_options, highest_seat_number, seat_number_of};
use multiseat::utils::{get_seats, partition_seats, Seat, SeatPath, SeatVariant};
use multiseat::DEFAULT_SEAT;

fn path(id: &str) -> SeatPath {
    SeatPath::new(id.to_string(), format!("/org/freedesktop/login1/seat/{}", id))
}

fn seats(ids: &[&str]) -> Vec<Seat> {
    get_seats(ids.iter().map(|id| path(id)).collect())
}

#[test]
fn default_seat_is_seat0() {
    assert_eq!(DEFAULT_SEAT, "seat0");
}

#[test]
fn seats_are_named_by_kind() {
    let s = seats(&["seat0", "seat1", "seat_gaming"]);
    assert_eq!(s.len(), 3);
    assert_eq!(s[0].name, "Master");
    assert_eq!(s[0].variant, SeatVariant::Primary);
    assert_eq!(s[0].path.id(), "seat0");
    assert_eq!(s[0].path.path, "/org/freedesktop/login1/seat/seat0");
    assert_eq!(s[1].name, "Seat 1");
    assert_eq!(s[1].variant, SeatVariant::Secondary);
    assert_eq!(s[2].name, "Seat Gaming");
    assert_eq!(s[2].variant, SeatVariant::Secondary);
}

#[test]
fn seats_split_into_primary_and_secondary() {
    let s = seats(&["seat1", "seat0", "seat2"]);
    let (primary, secondary) = partition_seats(&s);
    assert_eq!(primary.len(), 1);
    assert_eq!(primary[0].path.id(), "seat0");
    let ids: Vec<&str> = secondary.iter().map(|s| s.path.id()).collect();
    assert_eq!(ids, vec!["seat1", "seat2"]);
}

#[test]
fn seat_numbers() {
    assert_eq!(seat_number_of("seat12"), Some(12));
    assert_eq!(seat_number_of("seat0"), Some(0));
    assert_eq!(seat_number_of("seat+7"), Some(7));
    assert_eq!(seat_number_of("seat-3"), Some(-3));
    assert_eq!(seat_number_of("seat"), None);
    assert_eq!(seat_number_of("seatx"), None);
    assert_eq!(seat_number_of("seat1a"), None);
    assert_eq!(seat_number_of("myseat1"), None);
    assert_eq!(seat_number_of("seat99999999999"), None);
}

#[test]
fn new_seat_is_numbered_after_the_highest() {
    let s = seats(&["seat0", "seat3", "seat1"]);
    assert_eq!(highest_seat_number(&s), 3);
    let options = build_seat_options(&s);
    assert_eq!(options.len(), 4);
    assert_eq!(options[0].id, "seat4");
    assert_eq!(options[0].name, "Create new seat");
    assert!(options[0].is_new);
    assert_eq!(options[1].id, "seat0");
    assert_eq!(options[1].name, "Master");
    assert!(!options[1].is_new);
    assert_eq!(options[2].id, "seat3");
    assert_eq!(options[3].id, "seat1");
}

#[test]
fn new_seat_without_numbered_seats_is_seat1() {
    let s = seats(&["main"]);
    assert_eq!(highest_seat_number(&s), 0);
    assert_eq!(build_seat_options(&s)[0].id, "seat1");
    assert_eq!(build_seat_options(&Vec::new())[0].id, "seat1");
}

#[test]
fn new_seat_after_negative_numbers() {
    let s = seats(&["seat-5"]);
    assert_eq!(highest_seat_number(&s), -5);
    assert_eq!(build_seat_options(&s)[0].id, "seat-4");
}

#[test]
fn new_seat_label_is_never_taken() {
    let s = seats(&["seat0", "seat06", "seat+2", "seat7x"]);
    let options = build_seat_options(&s);
    assert_eq!(options[0].id, "seat7");
    for seat in &s {
        assert_ne!(seat.path.id(), options[0].id);
    }
}

#[test]
fn seat_option_reports_its_label() {
    let s = seats(&["seat0"]);
    let options = build_seat_options(&s);
    assert_eq!(options[0].update(multiseat::components::content::SeatOptionInput::Select), "seat1");
}
