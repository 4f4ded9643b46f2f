use vstd::prelude::*;
use crate::constants::{HEADER_LEN, MARKER_LEN};
use crate::error::{ConvertBytesErr, DecodeFailure};

verus! {

/// The value of two bytes read in network order.
pub open spec fn be_u16(hi: u8, lo: u8) -> u16 {
    (hi as int * 256 + lo as int) as u16
}

/// The two bytes of `v` in network order.
pub open spec fn u16_bytes(v: u16) -> Seq<u8> {
    seq![(v / 256) as u8, (v % 256) as u8]
}

pub proof fn lemma_u16_bytes(v: u16)
    ensures
        be_u16(u16_bytes(v)[0], u16_bytes(v)[1]) == v,
{
}

/// Writes `v` in network order at the end of `out`.
pub fn push_u16(out: &mut Vec<u8>, v: u16)
    ensures
        final(out)@ == old(out)@ + u16_bytes(v),
{
    out.push((v / 256) as u8);
    out.push((v % 256) as u8);
    assert(final(out)@ =~= old(out)@ + u16_bytes(v));
}

/// Reads the two bytes at `i` and `i + 1` in network order.
pub fn read_u16(b: &[u8], i: usize) -> (r: u16)
    requires
        i + 1 < b@.len(),
    ensures
        r == be_u16(b@[i as int], b@[i + 1]),
{
    let hi = b[i] as u16;
    let lo = b[i + 1] as u16;
    hi * 256 + lo
}

/// The kinds of message that a header can announce.
#[derive(Debug, Clone, Copy, Hash, PartialEq, Eq, Structural)]
pub enum MessageType {
    Open,
    Update,
    Notification,
    KeepAlive,
}

/// The type code of each message type on the wire.
pub open spec fn type_code(t: MessageType) -> u8 {
    match t {
        MessageType::Open => 1,
        MessageType::Update => 2,
        MessageType::Notification => 3,
        MessageType::KeepAlive => 4,
    }
}

/// The message type a code stands for, if any.
pub open spec fn type_of_code(c: u8) -> Option<MessageType> {
    if c == 1 {
        Some(MessageType::Open)
    } else if c == 2 {
        Some(MessageType::Update)
    } else if c == 3 {
        Some(MessageType::Notification)
    } else if c == 4 {
        Some(MessageType::KeepAlive)
    } else {
        None
    }
}

impl MessageType {
    /// Reads a type code: 1 to 4, anything else is refused.
    pub fn try_from(value: u8) -> (r: Result<MessageType, ConvertBytesErr>)
        ensures
            match r {
                Ok(t) => type_of_code(value) == Some(t),
                Err(e) => type_of_code(value) is None && e.reason == DecodeFailure::UnknownType,
            },
    {
        match value {
            1 => Ok(MessageType::Open),
            2 => Ok(MessageType::Update),
            3 => Ok(MessageType::Notification),
            4 => Ok(MessageType::KeepAlive),
            _ => Err(ConvertBytesErr { reason: DecodeFailure::UnknownType }),
        }
    }
}

impl From<MessageType> for u8 {
    fn from(mt: MessageType) -> (r: u8)
        ensures
            r == type_code(mt),
    {
        match mt {
            MessageType::Open => 1,
            MessageType::Update => 2,
            MessageType::Notification => 3,
            MessageType::KeepAlive => 4,
        }
    }
}

impl vstd::std_specs::convert::FromSpecImpl<MessageType> for u8 {
    open spec fn obeys_from_spec() -> bool {
        true
    }

    open spec fn from_spec(mt: MessageType) -> u8 {
        type_code(mt)
    }
}

/// The fixed header in front of every message.
#[derive(Debug, Clone, Copy, Hash, PartialEq, Eq, Structural)]
pub struct Header {
    /// Total length of the message, header included.
    pub length: u16,
    pub message_type: MessageType,
}

/// The header's bytes: a marker of all ones, the length, the type code.
pub open spec fn header_bytes(h: Header) -> Seq<u8> {
    Seq::new(MARKER_LEN as nat, |_i: int| 0xffu8) + u16_bytes(h.length) + seq![
        type_code(h.message_type),
    ]
}

/// The header at the front of `b`, if `b` holds one. The marker is not
/// checked.
pub open spec fn parse_header(b: Seq<u8>) -> Option<Header> {
    if b.len() < HEADER_LEN {
        None
    } else {
        match type_of_code(b[18]) {
            Some(t) => Some(Header { length: be_u16(b[16], b[17]), message_type: t }),
            None => None,
        }
    }
}

impl Header {
    pub fn new(length: u16, message_type: MessageType) -> (r: Header)
        ensures
            r == (Header { length, message_type }),
    {
        Header { length, message_type }
    }

    /// Appends the header's bytes to `out`.
    pub fn encode_into(&self, out: &mut Vec<u8>)
        ensures
            final(out)@ == old(out)@ + header_bytes(*self),
    {
        let ghost start = out@;
        let mut i: usize = 0;
        while i < MARKER_LEN
            invariant
                i <= MARKER_LEN,
                out@ =~= start + Seq::new(i as nat, |_j: int| 0xffu8),
            decreases MARKER_LEN - i,
        {
            out.push(0xff);
            i = i + 1;
        }
        push_u16(out, self.length);
        out.push(u8::from(self.message_type));
        assert(out@ =~= start + header_bytes(*self));
    }

    /// The header's 19 bytes.
    pub fn encode(&self) -> (r: Vec<u8>)
        ensures
            r@ == header_bytes(*self),
    {
        let mut out: Vec<u8> = Vec::with_capacity(HEADER_LEN);
        self.encode_into(&mut out);
        assert(out@ =~= header_bytes(*self));
        out
    }

    /// Reads the header at the front of `b`.
    pub fn decode(b: &[u8]) -> (r: Result<Header, ConvertBytesErr>)
        ensures
            match r {
                Ok(h) => parse_header(b@) == Some(h),
                Err(e) => parse_header(b@) is None && (e.reason == if b@.len() < HEADER_LEN {
                    DecodeFailure::Truncated
                } else {
                    DecodeFailure::UnknownType
                }),
            },
    {
        if b.len() < HEADER_LEN {
            return Err(ConvertBytesErr { reason: DecodeFailure::Truncated });
        }
        let length = read_u16(b, 16);
        let message_type = MessageType::try_from(b[18])?;
        Ok(Header { length, message_type })
    }
}

/// Decoding an encoded header gives it back, and a type byte outside 1 to 4
/// makes decoding fail.
pub proof fn lemma_header_round_trip(h: Header, b: Seq<u8>)
    ensures
        parse_header(header_bytes(h)) == Some(h),
        b.len() >= HEADER_LEN && !(1 <= b[18] <= 4) ==> parse_header(b) is None,
{
    let e = header_bytes(h);
    assert(e[16] == u16_bytes(h.length)[0]);
    assert(e[17] == u16_bytes(h.length)[1]);
    lemma_u16_bytes(h.length);
}

} // verus!
