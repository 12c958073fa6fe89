use jormungandr::mailbox::Mailbox;

#[test]
fn new_mailbox_is_empty() {
    let mailbox: Mailbox<u32> = Mailbox::new(32);
    assert_eq!(mailbox.capacity(), 32);
    assert_eq!(mailbox.len(), 0);
    assert!(mailbox.is_empty());
    assert!(!mailbox.is_full());
}

#[test]
fn capacity_sends_fit_and_the_next_waits() {
    for capacity in [1usize, 2, 5, 32] {
        let mut mailbox: Mailbox<usize> = Mailbox::new(capacity);
        for n in 0..capacity {
            assert!(!mailbox.is_full());
            assert_eq!(mailbox.try_send(n), Ok(()));
        }
        assert!(mailbox.is_full());
        assert_eq!(mailbox.len(), capacity);
        // the message that does not fit comes back, and nothing is lost
        assert_eq!(mailbox.try_send(1000), Err(1000));
        assert_eq!(mailbox.try_send(1000), Err(1000));
        assert_eq!(mailbox.len(), capacity);
        // one message received makes room for one
        assert_eq!(mailbox.try_recv(), Some(0));
        assert_eq!(mailbox.try_send(1000), Ok(()));
        assert_eq!(mailbox.try_send(1001), Err(1001));
        for n in 1..capacity {
            assert_eq!(mailbox.try_recv(), Some(n));
        }
        assert_eq!(mailbox.try_recv(), Some(1000));
        assert_eq!(mailbox.try_recv(), None);
    }
}

#[test]
fn mailbox_without_room_takes_nothing() {
    let mut mailbox: Mailbox<&str> = Mailbox::new(0);
    assert!(mailbox.is_full());
    assert!(mailbox.is_empty());
    assert_eq!(mailbox.try_send("a"), Err("a"));
    assert_eq!(mailbox.try_recv(), None);
}

#[test]
fn messages_leave_in_the_order_they_came() {
    let mut mailbox: Mailbox<String> = Mailbox::new(3);
    assert!(mailbox.try_send("first".to_string()).is_ok());
    assert!(mailbox.try_send("second".to_string()).is_ok());
    assert_eq!(mailbox.try_recv().as_deref(), Some("first"));
    assert!(mailbox.try_send("third".to_string()).is_ok());
    assert_eq!(mailbox.try_recv().as_deref(), Some("second"));
    assert_eq!(mailbox.try_recv().as_deref(), Some("third"));
    assert_eq!(mailbox.try_recv(), None);
    assert_eq!(mailbox.try_recv(), None);
}
