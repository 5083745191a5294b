use chai_framework::escape::{clear_all, enter_alt_screen, hide_cursor};
use chai_framework::terminal::{ChannelClosed, Delivery, TerminalHandle};

#[test]
fn write_gathers_bytes_and_reports_their_length() {
    let (mut handle, _receiver) = TerminalHandle::open(4);
    assert_eq!(handle.pending(), &[] as &[u8]);
    assert_eq!(handle.write(b"ab"), 2);
    assert_eq!(handle.write(b""), 0);
    assert_eq!(handle.write(b"cde"), 3);
    assert_eq!(handle.pending(), b"abcde");
}

#[test]
fn flush_sends_everything_written_as_one_frame() {
    let (mut handle, mut receiver) = TerminalHandle::open(4);
    handle.write(b"ab");
    handle.write(b"cd");
    assert_eq!(handle.flush(), Ok(Delivery::Sent));
    assert_eq!(handle.pending(), &[] as &[u8]);
    assert_eq!(receiver.try_recv().unwrap(), b"abcd".to_vec());
    handle.write(b"e");
    assert_eq!(handle.flush(), Ok(Delivery::Sent));
    assert_eq!(receiver.try_recv().unwrap(), b"e".to_vec());
    assert!(receiver.try_recv().is_err());
}

#[test]
fn flush_of_nothing_sends_an_empty_frame() {
    let (mut handle, mut receiver) = TerminalHandle::open(1);
    assert_eq!(handle.flush(), Ok(Delivery::Sent));
    assert_eq!(receiver.try_recv().unwrap(), Vec::<u8>::new());
}

#[test]
fn full_channel_drops_the_frame() {
    let (mut handle, mut receiver) = TerminalHandle::open(2);
    handle.write(b"one");
    assert_eq!(handle.flush(), Ok(Delivery::Sent));
    handle.write(b"two");
    assert_eq!(handle.flush(), Ok(Delivery::Sent));
    handle.write(b"three");
    assert_eq!(handle.flush(), Ok(Delivery::Full));
    assert_eq!(handle.pending(), &[] as &[u8]);
    assert_eq!(receiver.try_recv().unwrap(), b"one".to_vec());
    assert_eq!(receiver.try_recv().unwrap(), b"two".to_vec());
    assert!(receiver.try_recv().is_err());
    handle.write(b"four");
    assert_eq!(handle.flush(), Ok(Delivery::Sent));
    assert_eq!(receiver.try_recv().unwrap(), b"four".to_vec());
}

#[test]
fn closed_channel_keeps_pending_bytes() {
    let (mut handle, receiver) = TerminalHandle::open(1);
    drop(receiver);
    handle.write(b"xy");
    assert_eq!(handle.flush(), Err(ChannelClosed::Closed));
    assert_eq!(handle.pending(), b"xy");
    handle.write(b"z");
    assert_eq!(handle.flush(), Err(ChannelClosed::Closed));
    assert_eq!(handle.pending(), b"xyz");
}

#[test]
fn settle_follows_each_delivery() {
    let (mut handle, _receiver) = TerminalHandle::open(1);
    handle.write(b"abc");
    assert_eq!(handle.settle(Delivery::Closed), Err(ChannelClosed::Closed));
    assert_eq!(handle.pending(), b"abc");
    assert_eq!(handle.settle(Delivery::Full), Ok(Delivery::Full));
    assert_eq!(handle.pending(), &[] as &[u8]);
    handle.write(b"d");
    assert_eq!(handle.settle(Delivery::Sent), Ok(Delivery::Sent));
    assert_eq!(handle.pending(), &[] as &[u8]);
}

#[test]
fn begin_session_sends_setup_in_one_frame() {
    let (mut handle, mut receiver) = TerminalHandle::open(1);
    handle.write(b"q");
    assert_eq!(handle.begin_session(), Ok(Delivery::Sent));
    let mut expected = b"q".to_vec();
    expected.extend_from_slice(b"\x1b[?1049h\x1b[?25l");
    assert_eq!(receiver.try_recv().unwrap(), expected);
    assert_eq!(handle.pending(), &[] as &[u8]);
}

#[test]
fn begin_session_on_closed_channel_keeps_setup_pending() {
    let (mut handle, receiver) = TerminalHandle::open(1);
    drop(receiver);
    assert_eq!(handle.begin_session(), Err(ChannelClosed::Closed));
    let mut expected = enter_alt_screen();
    expected.extend(hide_cursor());
    assert_eq!(handle.pending(), expected.as_slice());
}

#[test]
fn queued_clear_leaves_with_next_frame() {
    let (mut handle, mut receiver) = TerminalHandle::open(1);
    handle.queue_clear();
    assert_eq!(handle.pending(), clear_all().as_slice());
    assert!(receiver.try_recv().is_err());
    handle.write(b"frame");
    assert_eq!(handle.flush(), Ok(Delivery::Sent));
    assert_eq!(receiver.try_recv().unwrap(), b"\x1b[2Jframe".to_vec());
}

#[test]
fn channel_holds_exactly_the_configured_number_of_frames() {
    let (mut handle, mut receiver) = TerminalHandle::open(3);
    for _ in 0..3 {
        handle.write(b"f");
        assert_eq!(handle.flush(), Ok(Delivery::Sent));
    }
    handle.write(b"g");
    assert_eq!(handle.flush(), Ok(Delivery::Full));
    assert_eq!(receiver.try_recv().unwrap(), b"f".to_vec());
    handle.write(b"h");
    assert_eq!(handle.flush(), Ok(Delivery::Sent));
}
