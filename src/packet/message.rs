use vstd::prelude::*;
use crate::constants::HEADER_LEN;
use crate::error::{ConvertBytesErr, ConvertMessageErr, DecodeFailure};
use crate::packet::hdr::{parse_header, Header, MessageType};
use crate::packet::open::{open_bytes, open_failure, open_new, parse_open, OpenMessage, OpenView};
use crate::types::{ASNum, Ipv4Addr};

verus! {

/// A decoded message as plain values.
pub enum MessageView {
    Open(OpenView),
}

/// The wire form of a message.
pub open spec fn message_bytes(m: MessageView) -> Seq<u8> {
    match m {
        MessageView::Open(o) => open_bytes(o),
    }
}

/// The message at the front of `b`, if `b` holds one this peer can decode:
/// the header's type selects the decoder, and only OPEN has one.
pub open spec fn parse_message(b: Seq<u8>) -> Option<MessageView> {
    match parse_header(b) {
        Some(h) => match h.message_type {
            MessageType::Open => match parse_open(b) {
                Some(o) => Some(MessageView::Open(o)),
                None => None,
            },
            _ => None,
        },
        None => None,
    }
}

/// Why `b` does not hold a message (meaningful where it does not).
pub open spec fn message_failure(b: Seq<u8>) -> DecodeFailure {
    match parse_header(b) {
        Some(h) => match h.message_type {
            MessageType::Open => open_failure(b),
            t => DecodeFailure::Unsupported(ConvertMessageErr { message_type: t }),
        },
        None => open_failure(b),
    }
}

/// A message this peer can decode.
#[derive(Debug, Clone, Hash, PartialEq, Eq)]
pub enum Message {
    Open(OpenMessage),
}

impl View for Message {
    type V = MessageView;

    open spec fn view(&self) -> MessageView {
        match self {
            Message::Open(o) => MessageView::Open(o@),
        }
    }
}

impl Message {
    /// An OPEN message announcing `asnum` with router identifier `ip`.
    pub fn new_open(asnum: ASNum, ip: Ipv4Addr) -> (r: Message)
        ensures
            r@ == MessageView::Open(open_new(asnum@, ip)),
    {
        Message::Open(OpenMessage::new(asnum, ip))
    }

    /// The message's wire form.
    pub fn encode(&self) -> (r: Vec<u8>)
        ensures
            r@ == message_bytes(self@),
    {
        match self {
            Message::Open(o) => o.encode(),
        }
    }

    /// Reads the message at the front of `b`.
    pub fn decode(b: &[u8]) -> (r: Result<Message, ConvertBytesErr>)
        ensures
            match r {
                Ok(m) => parse_message(b@) == Some(m@),
                Err(e) => parse_message(b@) is None && e.reason == message_failure(b@),
            },
    {
        if b.len() < HEADER_LEN {
            return Err(ConvertBytesErr { reason: DecodeFailure::Truncated });
        }
        let header = match Header::decode(b) {
            Ok(h) => h,
            Err(e) => return Err(e),
        };
        match header.message_type {
            MessageType::Open => match OpenMessage::decode(b) {
                Ok(o) => Ok(Message::Open(o)),
                Err(e) => Err(e),
            },
            t => Err(
                ConvertBytesErr {
                    reason: DecodeFailure::Unsupported(ConvertMessageErr { message_type: t }),
                },
            ),
        }
    }
}

/// Decoding an encoded well-formed OPEN message, as a message, gives it back.
pub proof fn lemma_message_round_trip(o: OpenView)
    requires
        o.wf(),
        o.hdr.message_type == MessageType::Open,
    ensures
        parse_message(message_bytes(MessageView::Open(o))) == Some(MessageView::Open(o)),
{
    crate::packet::open::lemma_open_round_trip(o);
}

/// Every OPEN message built by `Message::new_open` decodes to itself.
pub proof fn lemma_new_open_round_trip(asnum: u16, ip: Ipv4Addr)
    ensures
        parse_message(message_bytes(MessageView::Open(open_new(asnum, ip)))) == Some(
            MessageView::Open(open_new(asnum, ip)),
        ),
{
    lemma_message_round_trip(open_new(asnum, ip));
}

} // verus!
