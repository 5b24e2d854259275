use std::cell::Cell;
use std::sync::mpsc::{sync_channel, TrySendError};

use cffi_channel::bridge::{acknowledge, handed_on, relay, relay_to_channel};
use cffi_channel::error::LibraryError;

#[test]
fn acknowledge_full_length_or_zero() {
    assert_eq!(acknowledge(28, &Ok(())), 28);
    assert_eq!(acknowledge(28, &Err(LibraryError::CallbackChannel)), 0);
    assert_eq!(acknowledge(28, &Err(LibraryError::NotLoaded)), 0);
    assert_eq!(acknowledge(usize::MAX, &Ok(())), usize::MAX);
}

#[test]
fn acknowledge_empty_payload() {
    assert_eq!(acknowledge(0, &Ok(())), 0);
    assert_eq!(acknowledge(0, &Err(LibraryError::CallbackChannel)), 0);
}

#[test]
fn relay_delivers_text_and_accepts_all() {
    let (tx, rx) = sync_channel::<String>(100);
    let payload = b"this is a processed response";
    let accepted = relay(payload, |text| tx.send(text).map_err(|_| LibraryError::CallbackChannel));
    assert_eq!(accepted, payload.len());
    assert_eq!(accepted, 28);
    assert_eq!(rx.recv().unwrap(), "this is a processed response");
}

#[test]
fn relay_rejects_when_receiver_is_gone() {
    let (tx, rx) = sync_channel::<String>(100);
    drop(rx);
    let accepted = relay(b"this is a processed response", |text| {
        tx.send(text).map_err(|_| LibraryError::CallbackChannel)
    });
    assert_eq!(accepted, 0);
}

#[test]
fn relay_reads_no_terminator() {
    let seen = Cell::new(String::new());
    let accepted = relay(b"a\0b", |text| {
        seen.set(text);
        Ok(())
    });
    assert_eq!(accepted, 3);
    assert_eq!(seen.take(), "a\0b");
}

#[test]
fn relay_decodes_multibyte_text() {
    let seen = Cell::new(String::new());
    let payload = [0x67u8, 0x72, 0xc3, 0xbc, 0xc3, 0x9f];
    let accepted = relay(&payload, |text| {
        seen.set(text);
        Ok(())
    });
    assert_eq!(accepted, 6);
    let text = seen.take();
    assert_eq!(text.chars().count(), 4);
    assert_eq!(text, "gr\u{fc}\u{df}");
}

#[test]
fn relay_replaces_malformed_bytes() {
    let seen = Cell::new(String::new());
    let payload = [0x6fu8, 0x6b, 0xff, 0x21];
    let accepted = relay(&payload, |text| {
        seen.set(text);
        Ok(())
    });
    assert_eq!(accepted, 4);
    assert_eq!(seen.take(), "ok\u{fffd}!");
}

#[test]
fn relay_of_empty_payload() {
    let seen = Cell::new(String::from("unset"));
    let accepted = relay(&[], |text| {
        seen.set(text);
        Ok(())
    });
    assert_eq!(accepted, 0);
    assert_eq!(seen.take(), "");
}

#[test]
fn channel_answers() {
    assert_eq!(handed_on(Ok(())), Ok(()));
    assert_eq!(
        handed_on(Err(TrySendError::Full(String::from("late")))),
        Err(LibraryError::CallbackChannel)
    );
    assert_eq!(
        handed_on(Err(TrySendError::Disconnected(String::from("lost")))),
        Err(LibraryError::CallbackChannel)
    );
}

#[test]
fn channel_bridge_delivers_text() {
    let (tx, rx) = sync_channel::<String>(100);
    let accepted = relay_to_channel(b"this is a processed response", &tx);
    assert_eq!(accepted, 28);
    assert_eq!(rx.recv().unwrap(), "this is a processed response");
}

#[test]
fn channel_bridge_replaces_malformed_bytes() {
    let (tx, rx) = sync_channel::<String>(1);
    let accepted = relay_to_channel(&[0x6fu8, 0x6b, 0xff, 0x21], &tx);
    assert_eq!(accepted, 4);
    assert_eq!(rx.recv().unwrap(), "ok\u{fffd}!");
}

#[test]
fn channel_bridge_rejects_when_receiver_is_gone() {
    let (tx, rx) = sync_channel::<String>(100);
    drop(rx);
    assert_eq!(relay_to_channel(b"this is a processed response", &tx), 0);
}

#[test]
fn channel_bridge_rejects_when_full_and_does_not_wait() {
    let (tx, rx) = sync_channel::<String>(1);
    assert_eq!(relay_to_channel(b"first", &tx), 5);
    assert_eq!(relay_to_channel(b"second", &tx), 0);
    assert_eq!(rx.recv().unwrap(), "first");
    assert_eq!(relay_to_channel(b"third", &tx), 5);
    assert_eq!(rx.recv().unwrap(), "third");
}
