use guilible::flag::ReadyFlag;
use guilible::handoff::{Handoff, RecvOutcome, SendOutcome};

#[test]
fn flag_taken_once_until_released() {
    let f = ReadyFlag::new_ready();
    let other = f.clone();
    assert!(f.is_ready());
    assert!(f.try_acquire());
    assert!(!other.try_acquire());
    assert!(!f.is_ready());
    other.release();
    assert!(f.is_ready());
    assert!(other.try_acquire());
}

#[test]
fn held_flag_starts_taken() {
    let f = ReadyFlag::new_held();
    assert!(!f.is_ready());
    assert!(!f.try_acquire());
    f.release();
    assert!(f.try_acquire());
}

#[test]
fn flag_parity_after_many_frames() {
    let f = ReadyFlag::new_ready();
    let (mut acquired, mut released) = (0u32, 0u32);
    for frame in 0..50 {
        if f.try_acquire() {
            acquired += 1;
        }
        // a second taker in the same frame always loses
        assert!(!f.try_acquire());
        if frame % 3 != 2 {
            f.release();
            released += 1;
        }
        if frame % 3 == 2 {
            // held across a frame: nobody else gets it
            assert!(!f.is_ready());
            f.release();
            released += 1;
        }
    }
    assert_eq!(acquired, 50);
    assert_eq!(released, acquired);
    assert!(f.is_ready());
}

#[test]
fn handoff_delivers_into_empty_slot() {
    let mut h: Handoff<u32> = Handoff::new();
    assert!(matches!(h.try_send(1), SendOutcome::Delivered));
    assert!(matches!(h.try_recv(), RecvOutcome::Received(1)));
    assert!(matches!(h.try_recv(), RecvOutcome::Empty));
}

#[test]
fn handoff_back_pressure() {
    let mut h: Handoff<u32> = Handoff::new();
    assert!(matches!(h.try_send(1), SendOutcome::Delivered));
    for k in 2..10 {
        match h.try_send(k) {
            SendOutcome::Full(back) => assert_eq!(back, k),
            _ => panic!("slot should be full"),
        }
    }
    // after the stall the receiver gets exactly one message, the first one
    assert!(matches!(h.try_recv(), RecvOutcome::Received(1)));
    assert!(matches!(h.try_recv(), RecvOutcome::Empty));
}

#[test]
fn handoff_keeps_order() {
    let mut h: Handoff<u32> = Handoff::new();
    let mut got = Vec::new();
    for k in 0..5 {
        assert!(matches!(h.try_send(k), SendOutcome::Delivered));
        if let RecvOutcome::Received(m) = h.try_recv() {
            got.push(m);
        }
    }
    assert_eq!(got, vec![0, 1, 2, 3, 4]);
}

#[test]
fn handoff_closed_for_sender_without_receiver() {
    let mut h: Handoff<u32> = Handoff::new();
    assert!(matches!(h.try_send(1), SendOutcome::Delivered));
    assert_eq!(h.drop_receiver(), Some(1));
    match h.try_send(2) {
        SendOutcome::Closed(back) => assert_eq!(back, 2),
        _ => panic!("receiver is gone"),
    }
    assert_eq!(h.drop_receiver(), None);
}

#[test]
fn handoff_closed_for_receiver_without_senders() {
    let mut h: Handoff<u32> = Handoff::new();
    h.add_sender();
    assert!(matches!(h.try_send(5), SendOutcome::Delivered));
    h.drop_sender();
    assert!(!h.is_closed_for_receiver());
    h.drop_sender();
    // the message already in the slot still arrives
    assert!(!h.is_closed_for_receiver());
    assert!(matches!(h.try_recv(), RecvOutcome::Received(5)));
    assert!(h.is_closed_for_receiver());
    assert!(matches!(h.try_recv(), RecvOutcome::Closed));
}
