use sdnotify::Error;
use sdnotify::Message;

#[test]
fn ready_encodes_exactly() {
    let datagram = Message::ready().encode();
    assert_eq!(datagram.len(), 7);
    assert_eq!(datagram, b"READY=1".to_vec());
}

#[test]
fn watchdog_encodes_exactly() {
    assert_eq!(Message::watchdog().encode(), b"WATCHDOG=1".to_vec());
}

#[test]
fn status_encodes_prefix_then_text() {
    let message = Message::status(String::from("Processing request 42")).unwrap();
    assert_eq!(message.encode(), b"STATUS=Processing request 42".to_vec());
}

#[test]
fn status_accepts_empty_text() {
    let message = Message::status(String::new()).unwrap();
    assert_eq!(message.encode(), b"STATUS=".to_vec());
}

#[test]
fn status_keeps_unicode_text_verbatim() {
    let text = "h\u{e9}llo \u{2713} w\u{f6}rld";
    let message = Message::status(String::from(text)).unwrap();
    let mut expect = b"STATUS=".to_vec();
    for byte in text.as_bytes() {
        expect.push(*byte);
    }
    assert_eq!(message.encode(), expect);
}

#[test]
fn status_rejects_line_feed() {
    let err = Message::status(String::from("a\nb")).unwrap_err();
    assert_eq!(err, Error::InvalidPayload);
    assert_eq!(Message::status(String::from("\n")).unwrap_err(), Error::InvalidPayload);
    assert_eq!(Message::status(String::from("trailing\n")).unwrap_err(), Error::InvalidPayload);
}

#[test]
fn repeated_ready_datagrams_are_identical() {
    let first = Message::ready().encode();
    let second = Message::ready().encode();
    assert_eq!(first, second);
    assert_eq!(first, b"READY=1".to_vec());
}
