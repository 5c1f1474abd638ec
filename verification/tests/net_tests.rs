use crossfs::net::{
    encode_frame, frame_header, read_frame_size, AuthDecision, FromServerPacket, ServerState,
    ToServerPacket, MAX_PACKET_SIZE,
};
use crossfs::Error;

#[test]
fn frame_of_short_body() {
    let bytes = encode_frame(&[7u8, 8, 9]);
    assert_eq!(bytes, vec![3u8, 0, 0, 0, 7, 8, 9]);
}

#[test]
fn frame_of_empty_body() {
    assert_eq!(encode_frame(&[]), vec![0u8, 0, 0, 0]);
}

#[test]
fn frame_header_is_little_endian() {
    assert_eq!(frame_header(0x0102_0304), [4u8, 3, 2, 1]);
    assert_eq!(frame_header(1024), [0u8, 4, 0, 0]);
}

#[test]
fn frame_round_trip() {
    let body: Vec<u8> = (0..1024u32).map(|i| (i % 251) as u8).collect();
    let bytes = encode_frame(&body);
    let header = [bytes[0], bytes[1], bytes[2], bytes[3]];
    assert_eq!(read_frame_size(header).unwrap(), 1024);
    assert_eq!(&bytes[4..], &body[..]);
}

#[test]
fn size_at_limit_accepted() {
    assert_eq!(read_frame_size([0, 4, 0, 0]).unwrap(), MAX_PACKET_SIZE);
    assert_eq!(read_frame_size([5, 0, 0, 0]).unwrap(), 5);
}

#[test]
fn size_above_limit_refused() {
    assert!(matches!(read_frame_size([1, 4, 0, 0]), Err(Error::PacketTooLarge)));
    assert!(matches!(read_frame_size([255, 255, 255, 255]), Err(Error::PacketTooLarge)));
}

#[test]
fn auth_answers() {
    assert!(FromServerPacket::<u8>::AuthOk.auth_result().is_ok());
    assert!(matches!(
        FromServerPacket::<u8>::AuthFail.auth_result(),
        Err(Error::WrongPassword)
    ));
    assert!(matches!(
        FromServerPacket::<u8>::DifferentMasterAlreadyConnected.auth_result(),
        Err(Error::DifferentMasterAlreadyConnected)
    ));
}

fn auth(password: u64, master: bool) -> ToServerPacket<u8> {
    ToServerPacket::Auth { password, master }
}

#[test]
fn wrong_password_refused() {
    let mut state: ServerState<&str> = ServerState::new();
    let a = state.accept_connection(&auth(1, true), 2, "pilot");
    assert_eq!(a.decision, AuthDecision::WrongPassword);
    assert_eq!(a.id, None);
    assert_eq!(state.client_count(), 0);
    assert!(matches!(a.decision.response::<u8>(), Some(FromServerPacket::AuthFail)));
    // A refused master does not take the master's place.
    let a = state.accept_connection(&auth(2, true), 2, "pilot");
    assert_eq!(a.decision, AuthDecision::Accepted { is_master: true });
    assert_eq!(a.id, Some(0));
}

#[test]
fn second_master_refused_while_first_connected() {
    let mut state: ServerState<&str> = ServerState::new();
    let a = state.accept_connection(&auth(42, true), 42, "pilot");
    assert_eq!(a.decision, AuthDecision::Accepted { is_master: true });
    let b = state.accept_connection(&auth(42, true), 42, "other pilot");
    assert_eq!(b.decision, AuthDecision::MasterTaken);
    assert_eq!(b.id, None);
    assert!(matches!(
        b.decision.response::<u8>(),
        Some(FromServerPacket::DifferentMasterAlreadyConnected)
    ));
    let c = state.accept_connection(&auth(42, false), 42, "viewer");
    assert_eq!(c.decision, AuthDecision::Accepted { is_master: false });
    assert!(matches!(c.decision.response::<u8>(), Some(FromServerPacket::AuthOk)));
    assert_eq!(state.client_count(), 2);
}

#[test]
fn master_slot_freed_when_master_leaves() {
    let mut state: ServerState<&str> = ServerState::new();
    let a = state.accept_connection(&auth(7, true), 7, "pilot");
    let viewer = state.accept_connection(&auth(7, false), 7, "viewer");
    // A follower leaving keeps the master.
    state.remove_client(viewer.id.unwrap());
    let b = state.accept_connection(&auth(7, true), 7, "other pilot");
    assert_eq!(b.decision, AuthDecision::MasterTaken);
    // The master leaving frees the place for a new one.
    state.remove_client(a.id.unwrap());
    let c = state.accept_connection(&auth(7, true), 7, "other pilot");
    assert_eq!(c.decision, AuthDecision::Accepted { is_master: true });
    assert_eq!(c.id, Some(2));
}

#[test]
fn first_packet_not_auth_is_invalid() {
    let mut state: ServerState<&str> = ServerState::new();
    let a = state.accept_connection(&ToServerPacket::Primary(5u8), 1, "x");
    assert_eq!(a.decision, AuthDecision::InvalidPacket);
    assert!(a.decision.response::<u8>().is_none());
    assert_eq!(state.client_count(), 0);
}

#[test]
fn ids_are_handed_out_in_order() {
    let mut state: ServerState<&str> = ServerState::new();
    assert_eq!(state.accept_connection(&auth(1, true), 1, "a").id, Some(0));
    assert_eq!(state.accept_connection(&auth(1, false), 1, "b").id, Some(1));
    assert_eq!(state.accept_connection(&auth(1, false), 1, "c").id, Some(2));
    assert_eq!(state.next_client_id(), 3);
    assert_eq!(state.client_count(), 3);
    state.remove_client(1);
    assert_eq!(state.client_count(), 2);
    assert_eq!(state.accept_connection(&auth(1, false), 1, "d").id, Some(3));
}

#[test]
fn reports_go_to_followers_only() {
    let mut state: ServerState<&str> = ServerState::new();
    state.accept_connection(&auth(1, false), 1, "viewer1");
    state.accept_connection(&auth(1, true), 1, "pilot");
    state.accept_connection(&auth(1, false), 1, "viewer2");
    let r = state.recipients();
    assert_eq!(r, vec![0usize, 2]);
    let names: Vec<&str> = r.iter().map(|i| *state.sender(*i)).collect();
    assert_eq!(names, vec!["viewer1", "viewer2"]);
}

#[test]
fn removed_client_no_longer_reached() {
    let mut state: ServerState<&str> = ServerState::new();
    state.accept_connection(&auth(1, false), 1, "viewer1");
    state.accept_connection(&auth(1, false), 1, "viewer2");
    state.accept_connection(&auth(1, false), 1, "viewer3");
    state.remove_client(1);
    let names: Vec<&str> = state.recipients().iter().map(|i| *state.sender(*i)).collect();
    assert_eq!(names, vec!["viewer1", "viewer3"]);
    state.remove_client(17);
    assert_eq!(state.client_count(), 2);
}

#[test]
fn only_reports_are_relayed() {
    assert_eq!(ToServerPacket::Primary(9u8).relayed(), Some(9u8));
    assert_eq!(ToServerPacket::<u8>::Auth { password: 1, master: false }.relayed(), None);
}
