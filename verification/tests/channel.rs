use p2p_channel::connection::Connection;
use p2p_channel::engine::{Command, Delivery, EventKind, Failure, SdpType, Signal, Step};
use p2p_channel::protocol::Phase;

type Conn = Connection<u32, u32>;

fn teardown() -> Vec<Command> {
    vec![
        Command::ClearHandler(EventKind::Open),
        Command::ClearHandler(EventKind::Message),
        Command::ClearHandler(EventKind::Close),
        Command::CloseChannel,
        Command::CloseSession,
    ]
}

fn violation() -> Step {
    Step::Done(Err(Failure::ProtocolInvariantViolation))
}

#[test]
fn a_new_connection_is_unconnected_and_empty() {
    let conn = Conn::new();
    assert_eq!(conn.phase(), Phase::Created);
    assert!(!conn.is_listening());
    assert!(!conn.in_flight());
    assert!(!conn.is_released());
    assert_eq!(conn.open_handler(), None);
    assert_eq!(conn.message_handler(), None);
    assert_eq!(conn.close_handler(), None);
}

#[test]
fn close_tears_down_in_order() {
    let mut conn = Conn::new();
    conn.set_onopen(1);
    conn.set_onmessage(2);
    conn.set_onclose(3);
    assert_eq!(conn.close(), teardown());
    assert_eq!(conn.phase(), Phase::Closed);
    assert!(conn.is_released());
    assert_eq!(conn.open_handler(), None);
    assert_eq!(conn.message_handler(), None);
    assert_eq!(conn.close_handler(), None);
}

#[test]
fn a_second_close_does_nothing() {
    let mut conn = Conn::new();
    conn.set_onopen(1);
    conn.notify(Signal::Opened);
    assert_eq!(conn.close(), teardown());
    assert_eq!(conn.close(), Vec::<Command>::new());
    assert_eq!(conn.phase(), Phase::Closed);
    assert!(conn.is_released());
    assert!(!conn.is_listening());
    assert!(!conn.in_flight());
    assert_eq!(conn.open_handler(), None);
    assert_eq!(conn.message_handler(), None);
    assert_eq!(conn.close_handler(), None);
}

#[test]
fn close_after_the_peer_closed_still_tears_down_once() {
    let mut conn = Conn::new();
    conn.set_onclose(3);
    conn.notify(Signal::Opened);
    assert_eq!(conn.notify(Signal::Closed), Delivery::Close);
    assert_eq!(conn.phase(), Phase::Closed);
    assert!(!conn.is_released());
    assert_eq!(conn.close_handler(), Some(&3));
    assert_eq!(conn.close(), teardown());
    assert!(conn.is_released());
    assert_eq!(conn.close_handler(), None);
    assert_eq!(conn.close(), Vec::<Command>::new());
}

#[test]
fn close_ends_the_round_in_flight_and_the_subscription() {
    let mut conn = Conn::new();
    assert_eq!(
        conn.prepare(SdpType::Offer, Some("v=0".to_string()), Vec::new()),
        Step::Request(p2p_channel::engine::Request::Listen)
    );
    conn.resume(p2p_channel::engine::Completion::Listening);
    assert!(conn.in_flight());
    assert!(conn.is_listening());
    assert_eq!(conn.close(), teardown());
    assert!(!conn.in_flight());
    assert!(!conn.is_listening());
    assert_eq!(
        conn.resume(p2p_channel::engine::Completion::LocalDescriptionSet(Ok(()))),
        violation()
    );
}

#[test]
fn send_hands_the_packet_to_the_engine_whatever_the_phase() {
    let mut conn = Conn::new();
    assert_eq!(conn.phase(), Phase::Created);
    assert_eq!(conn.send(vec![1, 2, 3]), Command::Transmit(vec![1, 2, 3]));
    conn.set_remote(SdpType::Answer, "v=0".to_string());
    assert_eq!(conn.phase(), Phase::Negotiating);
    assert_eq!(conn.send(vec![4, 5]), Command::Transmit(vec![4, 5]));
    assert!(conn.in_flight());
    conn.notify(Signal::Opened);
    assert_eq!(conn.send(vec![0, 255]), Command::Transmit(vec![0, 255]));
    assert_eq!(conn.send(Vec::new()), Command::Transmit(Vec::new()));
    conn.notify(Signal::Closed);
    assert_eq!(conn.phase(), Phase::Closed);
    assert_eq!(conn.send(vec![6]), Command::Transmit(vec![6]));
    conn.close();
    assert_eq!(conn.send(vec![7]), Command::Transmit(vec![7]));
    assert!(conn.is_released());
}

#[test]
fn send_leaves_the_connection_as_it_is() {
    let mut conn = Conn::new();
    conn.set_onopen(1);
    conn.set_onmessage(2);
    conn.set_onclose(3);
    conn.send(vec![9, 9]);
    assert_eq!(conn.phase(), Phase::Created);
    assert!(!conn.in_flight());
    assert!(!conn.is_listening());
    assert_eq!(conn.open_handler(), Some(&1));
    assert_eq!(conn.message_handler(), Some(&2));
    assert_eq!(conn.close_handler(), Some(&3));
}

#[test]
fn registering_replaces_and_hands_back_the_handler_before() {
    let mut conn = Conn::new();
    assert_eq!(conn.set_onopen(10), None);
    assert_eq!(conn.set_onopen(11), Some(10));
    assert_eq!(conn.open_handler(), Some(&11));
    assert_eq!(conn.set_onmessage(20), None);
    assert_eq!(conn.set_onmessage(21), Some(20));
    assert_eq!(conn.message_handler(), Some(&21));
    assert_eq!(conn.set_onclose(30), None);
    assert_eq!(conn.set_onclose(31), Some(30));
    assert_eq!(conn.close_handler(), Some(&31));
    assert_eq!(conn.open_handler(), Some(&11));
    assert_eq!(conn.message_handler(), Some(&21));
}

#[test]
fn a_closed_connection_takes_no_handler() {
    let mut conn = Conn::new();
    conn.close();
    assert_eq!(conn.set_onopen(1), Some(1));
    assert_eq!(conn.set_onmessage(2), Some(2));
    assert_eq!(conn.set_onclose(3), Some(3));
    assert_eq!(conn.open_handler(), None);
    assert_eq!(conn.message_handler(), None);
    assert_eq!(conn.close_handler(), None);

    let mut gone = Conn::new();
    gone.set_onopen(7);
    gone.notify(Signal::Closed);
    assert_eq!(gone.set_onopen(8), Some(8));
    assert_eq!(gone.open_handler(), Some(&7));
}

#[test]
fn signals_reach_the_registered_handler() {
    let mut conn = Conn::new();
    conn.set_onopen(1);
    conn.set_onmessage(2);
    conn.set_onclose(3);
    assert_eq!(conn.notify(Signal::Opened), Delivery::Open);
    assert_eq!(conn.phase(), Phase::Open);
    assert_eq!(conn.notify(Signal::Message(vec![0, 255, 7])), Delivery::Message(vec![0, 255, 7]));
    assert_eq!(conn.notify(Signal::Message(Vec::new())), Delivery::Message(Vec::new()));
    assert_eq!(conn.phase(), Phase::Open);
    assert_eq!(conn.notify(Signal::Closed), Delivery::Close);
    assert_eq!(conn.phase(), Phase::Closed);
}

#[test]
fn signals_without_a_handler_only_move_the_phase() {
    let mut conn = Conn::new();
    assert_eq!(conn.notify(Signal::Opened), Delivery::Nothing);
    assert_eq!(conn.phase(), Phase::Open);
    assert_eq!(conn.notify(Signal::Message(vec![1])), Delivery::Nothing);
    assert_eq!(conn.notify(Signal::Closed), Delivery::Nothing);
    assert_eq!(conn.phase(), Phase::Closed);
}

#[test]
fn a_closed_connection_ignores_every_signal() {
    let mut conn = Conn::new();
    conn.set_onopen(1);
    conn.set_onmessage(2);
    conn.set_onclose(3);
    conn.notify(Signal::Opened);
    assert_eq!(conn.notify(Signal::Closed), Delivery::Close);
    assert_eq!(conn.notify(Signal::Closed), Delivery::Nothing);
    assert_eq!(conn.notify(Signal::Opened), Delivery::Nothing);
    assert_eq!(conn.notify(Signal::Message(vec![9])), Delivery::Nothing);
    assert_eq!(conn.phase(), Phase::Closed);
}

#[test]
fn a_closed_connection_starts_no_round() {
    let mut conn = Conn::new();
    conn.close();
    assert_eq!(conn.prepare(SdpType::Offer, None, Vec::new()), violation());
    assert_eq!(conn.create_answer("v=0".to_string()), violation());
    assert_eq!(conn.set_remote(SdpType::Answer, "v=0".to_string()), violation());
    assert_eq!(conn.add_ice_candidates(Vec::new()), violation());
    assert!(!conn.in_flight());
    assert_eq!(conn.phase(), Phase::Closed);

    let mut gone = Conn::new();
    gone.notify(Signal::Closed);
    assert_eq!(gone.prepare(SdpType::Offer, None, Vec::new()), violation());
    assert!(!gone.in_flight());
}

#[test]
fn the_peer_closing_fails_the_round_in_flight() {
    let mut conn = Conn::new();
    conn.set_remote(SdpType::Answer, "v=0".to_string());
    assert!(conn.in_flight());
    conn.notify(Signal::Closed);
    assert_eq!(
        conn.resume(p2p_channel::engine::Completion::RemoteDescriptionSet(Ok(()))),
        violation()
    );
    assert!(!conn.in_flight());
}
