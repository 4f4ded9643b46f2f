use ekkyo::connection::Connection;
use ekkyo::error::DecodeFailure;
use ekkyo::packet::message::Message;
use ekkyo::types::{ASNum, Ipv4Addr};

fn stream() -> (Vec<u8>, Vec<Message>) {
    let msgs = vec![
        Message::new_open(ASNum::from(64512), Ipv4Addr::new(127, 0, 0, 1)),
        Message::new_open(ASNum::from(64513), Ipv4Addr::new(127, 0, 0, 2)),
        Message::new_open(ASNum::from(7), Ipv4Addr::new(192, 0, 2, 9)),
    ];
    let mut bytes = Vec::new();
    for m in &msgs {
        bytes.extend_from_slice(&m.encode());
    }
    (bytes, msgs)
}

fn drain(c: &mut Connection, out: &mut Vec<Message>) {
    while let Some(m) = c.get_message() {
        out.push(m);
    }
}

#[test]
fn whole_stream_yields_every_message() {
    let (bytes, msgs) = stream();
    let mut c = Connection::new();
    assert!(c.extend_from_slice(&bytes));
    let mut got = Vec::new();
    drain(&mut c, &mut got);
    assert_eq!(got, msgs);
}

#[test]
fn chunked_stream_yields_the_same_messages() {
    let (bytes, msgs) = stream();
    for chunk in [1usize, 2, 5, 18, 19, 20, 28, 29, 30, 57, 87] {
        let mut c = Connection::new();
        let mut got = Vec::new();
        for piece in bytes.chunks(chunk) {
            assert!(c.extend_from_slice(piece));
            drain(&mut c, &mut got);
        }
        assert_eq!(got, msgs, "chunk size {}", chunk);
    }
}

#[test]
fn partial_message_stays_buffered() {
    let (bytes, msgs) = stream();
    let mut c = Connection::new();
    assert!(c.extend_from_slice(&bytes[..28]));
    assert_eq!(c.get_message(), None);
    assert_eq!(c.get_message(), None);
    assert!(c.extend_from_slice(&bytes[28..29]));
    assert_eq!(c.get_message(), Some(msgs[0].clone()));
    assert_eq!(c.get_message(), None);
}

#[test]
fn short_header_yields_nothing() {
    let mut c = Connection::new();
    assert!(c.extend_from_slice(&[0xff; 18]));
    assert_eq!(c.get_message(), None);
}

#[test]
fn undecodable_frame_is_dropped() {
    let (bytes, msgs) = stream();
    let mut bad = vec![0xff; 16];
    bad.extend_from_slice(&19u16.to_be_bytes());
    bad.push(4);
    let mut c = Connection::new();
    assert!(c.extend_from_slice(&bad));
    assert!(c.extend_from_slice(&bytes));
    assert_eq!(c.get_message(), None);
    assert_eq!(c.get_message(), Some(msgs[0].clone()));
}

#[test]
fn take_message_reports_why_a_frame_does_not_decode() {
    let (bytes, msgs) = stream();
    let mut bad = bytes[..29].to_vec();
    bad[19] = 9;
    let mut c = Connection::new();
    assert!(c.extend_from_slice(&bad));
    assert!(c.extend_from_slice(&bytes[29..58]));
    assert_eq!(c.take_message().unwrap().unwrap_err().reason, DecodeFailure::BadVersion);
    assert_eq!(c.take_message().unwrap().unwrap(), msgs[1]);
    assert!(c.take_message().is_none());
}
