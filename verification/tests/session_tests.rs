use crossfs::{CrossFs, Mode, TickAction, INTERPOLATION_TIME_NANOS, SEND_PRIMARY_INTERVAL_NANOS};

const MS: u64 = 1_000_000;

#[test]
fn mode_texts() {
    assert_eq!(Mode::Off.to_string(), "Disconnected");
    assert_eq!(Mode::Master.to_string(), "Master");
    assert_eq!(Mode::Slave.to_string(), "Slave");
    assert_eq!(Mode::default(), Mode::Off);
}

#[test]
fn constants() {
    assert_eq!(SEND_PRIMARY_INTERVAL_NANOS, 200 * MS);
    assert_eq!(INTERPOLATION_TIME_NANOS, 250 * MS);
}

#[test]
fn master_starts_as_master() {
    let s = CrossFs::<u32>::new(true, 0);
    assert_eq!(s.startup_mode(), Some(Mode::Master));
    let s = CrossFs::<u32>::new(false, 0);
    assert_eq!(s.startup_mode(), None);
}

#[test]
fn master_sends_every_interval() {
    let mut s = CrossFs::<u32>::new(true, 0);
    assert_eq!(s.tick(100 * MS), TickAction::Wait);
    assert_eq!(s.tick(200 * MS), TickAction::Wait);
    assert_eq!(s.tick(200 * MS + 1), TickAction::SendPrimary);
    s.record_send(201 * MS);
    assert_eq!(s.tick(300 * MS), TickAction::Wait);
    assert_eq!(s.tick(402 * MS), TickAction::SendPrimary);
    // A clock reading before the last send counts as no time.
    assert_eq!(s.tick(0), TickAction::Wait);
}

#[test]
fn follower_sets_aircraft_from_first_report_on() {
    let mut s = CrossFs::<u32>::new(false, 0);
    assert_eq!(s.tick(10_000 * MS), TickAction::Follow);
    // Before any report the aircraft is left alone.
    assert!(!s.shows_aircraft());
    assert_eq!(s.current_primary(), None);
    // The tick whose packets bring the first report sets the aircraft.
    s.receive_primary(5, None, 10_000 * MS);
    assert!(s.shows_aircraft());
    assert_eq!(s.current_primary(), Some(&5));
    // The first report is shown as it is, with no glide from a placeholder.
    assert_eq!(s.previous_primary(), None);
}

#[test]
fn slave_mode_set_once_after_interpolation_time() {
    let mut s = CrossFs::<u32>::new(false, 0);
    assert!(!s.receive_primary(1, Some(99), 1000 * MS));
    assert_eq!(s.previous_primary(), None);
    assert!(!s.receive_primary(2, Some(1), 1200 * MS));
    assert!(!s.receive_primary(3, Some(2), 1250 * MS));
    assert!(s.receive_primary(4, Some(3), 1250 * MS + 1));
    assert!(!s.receive_primary(5, Some(4), 5000 * MS));
    assert_eq!(s.current_primary(), Some(&5));
    assert_eq!(s.previous_primary(), Some(&4));
}

#[test]
fn interpolation_progress_clamped() {
    let mut s = CrossFs::<u32>::new(false, 0);
    s.receive_primary(1, None, 1000 * MS);
    assert_eq!(s.interpolation_progress(1000 * MS), 0);
    assert_eq!(s.interpolation_progress(1100 * MS), 100 * MS);
    assert_eq!(s.interpolation_progress(1250 * MS), INTERPOLATION_TIME_NANOS);
    assert_eq!(s.interpolation_progress(9000 * MS), INTERPOLATION_TIME_NANOS);
    assert_eq!(s.interpolation_progress(10 * MS), 0);
}
