use futures_channel::mpsc::TryRecvError;
use p2p_channel::candidate::Candidate;
use p2p_channel::collector::{listen_ice_candidates, settle, Refusal, BUFFER};
use p2p_channel::engine::Failure;

fn candidate(n: u16) -> Candidate {
    Candidate {
        descriptor: format!("candidate:{}", n),
        media_id: None,
        media_line_index: Some(n),
    }
}

#[test]
fn the_queue_hands_notifications_over_in_order() {
    let (mut sink, mut receiver) = listen_ice_candidates();
    assert!(!sink.is_finished());
    assert_eq!(receiver.try_recv(), Err(TryRecvError::Empty));
    assert_eq!(sink.forward(Some(candidate(1))), Ok(()));
    assert_eq!(receiver.try_recv(), Ok(Some(candidate(1))));
    assert_eq!(sink.forward(Some(candidate(2))), Ok(()));
    assert_eq!(receiver.try_recv(), Ok(Some(candidate(2))));
    assert_eq!(sink.forward(None), Ok(()));
    assert!(sink.is_finished());
    assert_eq!(receiver.try_recv(), Ok(None));
    assert_eq!(receiver.try_recv(), Err(TryRecvError::Empty));
}

#[test]
fn nothing_passes_after_the_sentinel() {
    let (mut sink, mut receiver) = listen_ice_candidates();
    assert_eq!(sink.forward(None), Ok(()));
    assert!(sink.is_finished());
    assert_eq!(sink.forward(None), Err(Failure::ProtocolInvariantViolation));
    assert_eq!(sink.forward(Some(candidate(1))), Err(Failure::ProtocolInvariantViolation));
    assert!(sink.is_finished());
    assert_eq!(receiver.try_recv(), Ok(None));
    assert_eq!(receiver.try_recv(), Err(TryRecvError::Empty));
}

#[test]
fn a_second_notification_is_refused_while_one_is_unread() {
    let (mut sink, mut receiver) = listen_ice_candidates();
    assert_eq!(BUFFER, 0);
    assert_eq!(sink.forward(Some(candidate(1))), Ok(()));
    assert_eq!(sink.forward(Some(candidate(2))), Err(Failure::ProtocolInvariantViolation));
    assert_eq!(sink.forward(None), Err(Failure::ProtocolInvariantViolation));
    assert!(!sink.is_finished());
    assert_eq!(receiver.try_recv(), Ok(Some(candidate(1))));
    assert_eq!(receiver.try_recv(), Err(TryRecvError::Empty));
    assert_eq!(sink.forward(None), Ok(()));
    assert!(sink.is_finished());
    assert_eq!(receiver.try_recv(), Ok(None));
}

#[test]
fn an_unread_queue_takes_one_notification() {
    let (mut sink, mut receiver) = listen_ice_candidates();
    let mut taken: usize = 0;
    while sink.forward(Some(candidate(taken as u16))).is_ok() {
        taken += 1;
        assert!(taken <= 16);
    }
    assert_eq!(taken, BUFFER + 1);
    assert_eq!(taken, 1);
    for n in 0..taken {
        assert_eq!(receiver.try_recv(), Ok(Some(candidate(n as u16))));
    }
    assert_eq!(receiver.try_recv(), Err(TryRecvError::Empty));
}

#[test]
fn a_queue_without_reader_refuses() {
    let (mut sink, receiver) = listen_ice_candidates();
    drop(receiver);
    assert_eq!(sink.forward(Some(candidate(1))), Err(Failure::ProtocolInvariantViolation));
    assert_eq!(sink.forward(None), Err(Failure::ProtocolInvariantViolation));
    assert!(!sink.is_finished());
}

#[test]
fn dropping_the_sink_ends_the_stream() {
    let (mut sink, mut receiver) = listen_ice_candidates();
    assert_eq!(sink.forward(Some(candidate(5))), Ok(()));
    drop(sink);
    assert_eq!(receiver.try_recv(), Ok(Some(candidate(5))));
    assert_eq!(receiver.try_recv(), Err(TryRecvError::Closed));
}

#[test]
fn settling_follows_the_queue() {
    assert_eq!(settle(true, Ok(())), (true, Ok(())));
    assert_eq!(settle(false, Ok(())), (false, Ok(())));
    assert_eq!(settle(true, Err(Refusal::Full)), (false, Err(Failure::ProtocolInvariantViolation)));
    assert_eq!(
        settle(false, Err(Refusal::Disconnected)),
        (false, Err(Failure::ProtocolInvariantViolation))
    );
}
