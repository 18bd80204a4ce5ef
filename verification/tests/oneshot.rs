use sync_toolkit::oneshot::{channel, Channel};

#[test]
fn cell_send_then_receive_yields_the_sent_value() {
    let mut cell = Channel::new();
    assert!(!cell.is_ready());
    cell.send(7u64);
    assert!(cell.is_ready());
    assert_eq!(cell.receive(), 7);
    assert!(!cell.is_ready());
}

#[test]
fn cell_carries_a_non_copy_message() {
    let mut cell = Channel::new();
    cell.send(String::from("one message"));
    assert_eq!(cell.receive(), "one message");
}

#[test]
fn pair_sends_through_the_receiver_cell() {
    let (sender, mut receiver) = channel::<u64>();
    assert!(!receiver.is_ready());
    sender.send(&mut receiver, 9);
    assert!(receiver.is_ready());
    assert_eq!(receiver.receive(), 9);
}

#[test]
fn split_resets_the_cell_before_handing_out_capabilities() {
    let mut cell = Channel::new();
    cell.send(String::from("discarded with the old life"));
    let (sender, mut receiver) = cell.split();
    assert!(!receiver.is_ready());
    sender.send(&mut receiver, String::from("fresh"));
    assert_eq!(receiver.receive(), "fresh");
}

#[test]
fn unused_pair_drops_without_a_payload() {
    // A pair where no send ever happens holds no message; dropping both
    // capabilities touches no uninitialized payload.
    let (sender, receiver) = channel::<String>();
    assert!(!receiver.is_ready());
    drop(sender);
    drop(receiver);
}

#[test]
fn sent_but_unreceived_message_is_dropped_with_the_cell() {
    // After a send with no receive, the cell still holds the message;
    // dropping the receiver destroys that one message and nothing else.
    let (sender, mut receiver) = channel::<String>();
    sender.send(&mut receiver, String::from("never read"));
    assert!(receiver.is_ready());
    drop(receiver);
}
