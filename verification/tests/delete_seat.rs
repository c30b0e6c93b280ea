use multiseat::text::OsText;
use multiseat::utils::{delete_seat_step, DeleteSeatStep};

fn paths(ps: &[&[u8]]) -> Vec<OsText> {
    ps.iter().map(|p| OsText::from_bytes(p.to_vec())).collect()
}

fn attach_path(step: DeleteSeatStep) -> String {
    match step {
        DeleteSeatStep::Attach { sys_path, seat } => {
            assert_eq!(seat, "seat0");
            sys_path
        }
        DeleteSeatStep::Finished(_) => panic!("expected an attach step"),
    }
}

fn finished(step: DeleteSeatStep) -> bool {
    match step {
        DeleteSeatStep::Finished(b) => b,
        DeleteSeatStep::Attach { .. } => panic!("expected the end"),
    }
}

#[test]
fn every_device_is_moved_in_order() {
    let p = paths(&[b"/sys/a", b"/sys/b"]);
    assert_eq!(attach_path(delete_seat_step(&p, &vec![])), "/sys/a");
    assert_eq!(attach_path(delete_seat_step(&p, &vec![true])), "/sys/b");
    assert!(finished(delete_seat_step(&p, &vec![true, true])));
}

#[test]
fn a_failed_attach_stops_with_failure() {
    let p = paths(&[b"/sys/a", b"/sys/b"]);
    assert!(!finished(delete_seat_step(&p, &vec![false])));
}

#[test]
fn a_non_utf8_path_stops_with_failure() {
    let p = paths(&[b"/sys/a", &[0x2f, 0xff]]);
    assert!(!finished(delete_seat_step(&p, &vec![true])));
}

#[test]
fn an_empty_seat_is_deleted_at_once() {
    let p = paths(&[]);
    assert!(finished(delete_seat_step(&p, &vec![])));
}
