use ekkyo::config::{Config, Mode};
use ekkyo::packet::message::Message;
use ekkyo::error::DecodeFailure;
use ekkyo::peer::{Action, Inbound, Peer};
use ekkyo::state::State;
use ekkyo::types::{ASNum, Ipv4Addr};
use std::str::FromStr;

fn connected_peer(config: Config) -> Peer {
    let mut peer = Peer::new(config);
    peer.start();
    match peer.step() {
        Action::Connect(mode) => assert_eq!(mode, config.mode),
        other => panic!("expected a connect, got {:?}", other),
    }
    peer.connect_result(true);
    peer
}

fn sent_open(peer: &mut Peer) -> Message {
    match peer.step() {
        Action::Send(m) => m,
        other => panic!("expected a send, got {:?}", other),
    }
}

#[test]
fn connect_transition() {
    let peer = connected_peer(Config::default());
    assert_eq!(peer.state(), State::Connect);
    assert!(peer.has_connection());
}

#[test]
fn open_sent_transition() {
    let mut peer = connected_peer(Config::default());
    let msg = sent_open(&mut peer);
    assert_eq!(msg, Message::new_open(ASNum::from(64512), Ipv4Addr::new(127, 0, 0, 1)));
    assert_eq!(peer.state(), State::OpenSent);
}

#[test]
fn open_confirm_transition() {
    let mut peer = connected_peer(Config::default());
    let open = sent_open(&mut peer).encode();

    let remote_config = Config::from_str("64513 127.0.0.2 64512 127.0.0.1 passive").unwrap();
    let mut remote_peer = connected_peer(remote_config);
    let _ = sent_open(&mut remote_peer);
    assert_eq!(remote_peer.state(), State::OpenSent);

    assert!(remote_peer.receive(&open));
    assert_eq!(remote_peer.poll_inbound(), Inbound::Queued);
    assert!(matches!(remote_peer.step(), Action::Done));
    assert_eq!(remote_peer.state(), State::OpenConfirm);
}

#[test]
fn failed_connect_returns_to_idle_and_retries() {
    let mut peer = Peer::new(Config::default());
    peer.start();
    assert!(matches!(peer.step(), Action::Connect(Mode::Active)));
    peer.connect_result(false);
    assert_eq!(peer.state(), State::Idle);
    assert!(!peer.has_connection());
    assert!(matches!(peer.step(), Action::Connect(Mode::Active)));
}

#[test]
fn empty_queue_and_unhandled_events() {
    let mut peer = Peer::new(Config::default());
    assert!(matches!(peer.step(), Action::NoEvent));
    peer.start();
    peer.start();
    assert!(matches!(peer.step(), Action::Connect(_)));
    assert!(matches!(peer.step(), Action::Unhandled));
    assert_eq!(peer.state(), State::Connect);
}

#[test]
fn inbound_needs_a_transport_and_a_whole_message() {
    let mut peer = Peer::new(Config::default());
    let open = Message::new_open(ASNum::from(1), Ipv4Addr::new(1, 1, 1, 1)).encode();
    assert!(!peer.receive(&open));
    assert_eq!(peer.poll_inbound(), Inbound::Nothing);

    let mut peer = connected_peer(Config::default());
    assert!(peer.receive(&open[..20]));
    assert_eq!(peer.poll_inbound(), Inbound::Nothing);
    assert!(peer.receive(&open[20..]));
    assert_eq!(peer.poll_inbound(), Inbound::Queued);
    assert_eq!(peer.poll_inbound(), Inbound::Nothing);
}

#[test]
fn open_arriving_early_waits_in_the_queue() {
    let mut peer = connected_peer(Config::default());
    let open = Message::new_open(ASNum::from(64513), Ipv4Addr::new(127, 0, 0, 2)).encode();
    assert!(peer.receive(&open));
    assert_eq!(peer.poll_inbound(), Inbound::Queued);
    let _ = sent_open(&mut peer);
    assert_eq!(peer.state(), State::OpenSent);
    assert!(matches!(peer.step(), Action::Done));
    assert_eq!(peer.state(), State::OpenConfirm);
    peer.start();
    assert!(matches!(peer.step(), Action::Unhandled));
    assert_eq!(peer.state(), State::OpenConfirm);
}

#[test]
fn malformed_inbound_message_is_reported_and_dropped() {
    let mut peer = connected_peer(Config::default());
    let mut keepalive = vec![0xff; 16];
    keepalive.extend_from_slice(&19u16.to_be_bytes());
    keepalive.push(4);
    let open = Message::new_open(ASNum::from(2), Ipv4Addr::new(2, 2, 2, 2)).encode();
    assert!(peer.receive(&keepalive));
    assert!(peer.receive(&open));
    match peer.poll_inbound() {
        Inbound::Malformed(e) => assert!(matches!(e.reason, DecodeFailure::Unsupported(_))),
        other => panic!("expected a malformed message, got {:?}", other),
    }
    assert_eq!(peer.poll_inbound(), Inbound::Queued);
    assert_eq!(peer.state(), State::Connect);
}
