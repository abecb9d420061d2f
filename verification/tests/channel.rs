use sync_primitives::channel::Channel;

#[test]
fn channel_delivers_exactly_once() {
    let mut ch = Channel::new();
    assert!(!ch.is_ready());
    assert!(ch.can_send());

    ch.send("hello world!");
    assert!(ch.is_ready());
    // A second send is refused: the channel is used up for senders.
    assert!(!ch.can_send());

    // The one receive returns exactly what was sent.
    assert_eq!(ch.receive(), "hello world!");
    // A second receive is refused: nothing is published any more.
    assert!(!ch.is_ready());
    assert!(ch.try_receive().is_none());
    // And the channel stays used up: still no second send.
    assert!(!ch.can_send());
}

#[test]
fn channel_try_receive_before_send_fails_fast() {
    let mut ch: Channel<u8> = Channel::new();
    // Receiving before anything is ready yields nothing, never garbage.
    assert!(ch.try_receive().is_none());
    ch.send(1);
    assert_eq!(ch.try_receive(), Some(1));
    assert!(ch.try_receive().is_none());
}

#[test]
fn channel_split_halves_are_single_use() {
    let mut ch = Channel::new();
    let (s, r) = ch.split();
    assert!(!ch.is_ready());
    // The sending half is consumed by its one send.
    s.send(&mut ch, 42u64);
    assert!(ch.is_ready());
    // The receiving half is consumed by its one receive.
    assert_eq!(r.receive(&mut ch), 42);
    assert!(!ch.is_ready());
}

#[test]
fn channel_split_resets_state() {
    let mut ch = Channel::new();
    ch.send(5u8);
    assert!(ch.is_ready());
    assert!(!ch.can_send());
    // Splitting resets the slot: the old, unreceived message is dropped
    // and the channel is fresh for the new halves.
    let (s, r) = ch.split();
    assert!(!ch.is_ready());
    assert!(ch.can_send());
    s.send(&mut ch, 6);
    assert_eq!(r.receive(&mut ch), 6);
}

#[test]
fn channel_teardown_releases_unreceived_message() {
    let mut ch = Channel::new();
    ch.send(String::from("kept"));
    // Torn down with a written-but-unreceived message: the message is
    // handed back rather than leaked.
    assert_eq!(ch.into_message(), Some(String::from("kept")));

    let empty: Channel<String> = Channel::new();
    assert_eq!(empty.into_message(), None);
}
