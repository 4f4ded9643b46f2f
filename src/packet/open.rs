use vstd::prelude::*;
use crate::constants::{HEADER_LEN, OPEN_FIXED_LEN};
use crate::error::{ConvertBytesErr, DecodeFailure};
use crate::packet::hdr::{
    be_u16, header_bytes, lemma_u16_bytes, parse_header, push_u16, read_u16, u16_bytes, Header,
    MessageType,
};
use crate::types::{ASNum, HoldTime, Ipv4Addr, Version, MAX_VERSION};

verus! {

/// The contents of an OPEN message as plain values.
pub struct OpenView {
    pub hdr: Header,
    pub version: u8,
    pub asnum: u16,
    pub hold_time: u16,
    pub bgp_id: Ipv4Addr,
    pub opt_params: Seq<u8>,
    pub opt_params_len: u8,
}

impl OpenView {
    /// The version is one this peer accepts and the parameter length field
    /// agrees with the parameters.
    pub open spec fn wf(self) -> bool {
        &&& self.version <= MAX_VERSION
        &&& self.opt_params.len() == self.opt_params_len
    }
}

/// Length of an OPEN message without optional parameters.
pub const OPEN_MIN_LEN: u16 = 29;

/// The OPEN message that `OpenMessage::new` builds.
pub open spec fn open_new(asnum: u16, bgp_id: Ipv4Addr) -> OpenView {
    OpenView {
        hdr: Header { length: OPEN_MIN_LEN, message_type: MessageType::Open },
        version: MAX_VERSION,
        asnum,
        hold_time: 0,
        bgp_id,
        opt_params: Seq::empty(),
        opt_params_len: 0,
    }
}

/// The wire form of an OPEN message.
pub open spec fn open_bytes(m: OpenView) -> Seq<u8> {
    header_bytes(m.hdr) + seq![m.version] + u16_bytes(m.asnum) + u16_bytes(m.hold_time)
        + m.bgp_id.spec_octets() + seq![m.opt_params_len] + m.opt_params
}

/// The OPEN message at the front of `b`, if `b` holds one. Bytes after the
/// optional parameters are ignored.
pub open spec fn parse_open(b: Seq<u8>) -> Option<OpenView> {
    match parse_header(b) {
        None => None,
        Some(h) => {
            if b.len() < HEADER_LEN + OPEN_FIXED_LEN || b[19] > MAX_VERSION || b.len()
                < HEADER_LEN + OPEN_FIXED_LEN + b[28] {
                None
            } else {
                Some(
                    OpenView {
                        hdr: h,
                        version: b[19],
                        asnum: be_u16(b[20], b[21]),
                        hold_time: be_u16(b[22], b[23]),
                        bgp_id: Ipv4Addr(b[24], b[25], b[26], b[27]),
                        opt_params: b.subrange(29, 29 + b[28]),
                        opt_params_len: b[28],
                    },
                )
            }
        },
    }
}

/// Why `b` does not hold an OPEN message (meaningful where it does not).
pub open spec fn open_failure(b: Seq<u8>) -> DecodeFailure {
    if b.len() < HEADER_LEN {
        DecodeFailure::Truncated
    } else if parse_header(b) is None {
        DecodeFailure::UnknownType
    } else if b.len() < HEADER_LEN + OPEN_FIXED_LEN {
        DecodeFailure::Truncated
    } else if b[19] > MAX_VERSION {
        DecodeFailure::BadVersion
    } else {
        DecodeFailure::Truncated
    }
}

/// An OPEN message: the first message of a session, carrying the sender's
/// AS number, hold time and router identifier.
#[derive(Debug, Clone, Hash, PartialEq, Eq)]
pub struct OpenMessage {
    hdr: Header,
    version: Version,
    asnum: ASNum,
    hold_time: HoldTime,
    bgp_id: Ipv4Addr,
    opt_params: Vec<u8>,
    opt_params_len: u8,
}

impl View for OpenMessage {
    type V = OpenView;

    closed spec fn view(&self) -> OpenView {
        OpenView {
            hdr: self.hdr,
            version: self.version@,
            asnum: self.asnum@,
            hold_time: self.hold_time@,
            bgp_id: self.bgp_id,
            opt_params: self.opt_params@,
            opt_params_len: self.opt_params_len,
        }
    }
}

impl OpenMessage {
    /// An OPEN message of version 4 with hold time 0 and no optional
    /// parameters.
    pub fn new(asnum: ASNum, bgp_id: Ipv4Addr) -> (r: OpenMessage)
        ensures
            r@ == open_new(asnum@, bgp_id),
    {
        OpenMessage {
            hdr: Header::new(OPEN_MIN_LEN, MessageType::Open),
            version: Version::new(),
            asnum,
            hold_time: HoldTime::new(),
            bgp_id,
            opt_params: Vec::new(),
            opt_params_len: 0,
        }
    }

    /// The message's wire form.
    pub fn encode(&self) -> (r: Vec<u8>)
        ensures
            r@ == open_bytes(self@),
    {
        let mut out: Vec<u8> = Vec::new();
        self.hdr.encode_into(&mut out);
        out.push(u8::from(self.version));
        push_u16(&mut out, u16::from(self.asnum));
        push_u16(&mut out, u16::from(self.hold_time));
        let id = self.bgp_id.octets();
        out.push(id[0]);
        out.push(id[1]);
        out.push(id[2]);
        out.push(id[3]);
        out.push(self.opt_params_len);
        let ghost before = out@;
        let mut i: usize = 0;
        while i < self.opt_params.len()
            invariant
                i <= self.opt_params@.len(),
                out@ =~= before + self.opt_params@.subrange(0, i as int),
            decreases self.opt_params@.len() - i,
        {
            out.push(self.opt_params[i]);
            i = i + 1;
        }
        assert(out@ =~= open_bytes(self@));
        out
    }

    /// Reads the OPEN message at the front of `b`.
    pub fn decode(b: &[u8]) -> (r: Result<OpenMessage, ConvertBytesErr>)
        ensures
            match r {
                Ok(m) => parse_open(b@) == Some(m@) && m@.wf(),
                Err(e) => parse_open(b@) is None && e.reason == open_failure(b@),
            },
    {
        let hdr = match Header::decode(b) {
            Ok(h) => h,
            Err(e) => return Err(e),
        };
        if b.len() < HEADER_LEN + OPEN_FIXED_LEN {
            return Err(ConvertBytesErr { reason: DecodeFailure::Truncated });
        }
        let version = match Version::try_from(b[19]) {
            Ok(v) => v,
            Err(e) => return Err(e),
        };
        let asnum = ASNum::from(read_u16(b, 20));
        let hold_time = HoldTime::from(read_u16(b, 22));
        let bgp_id = Ipv4Addr::new(b[24], b[25], b[26], b[27]);
        let opt_params_len = b[28];
        let end = HEADER_LEN + OPEN_FIXED_LEN + opt_params_len as usize;
        if b.len() < end {
            return Err(ConvertBytesErr { reason: DecodeFailure::Truncated });
        }
        let mut opt_params: Vec<u8> = Vec::new();
        let mut i: usize = HEADER_LEN + OPEN_FIXED_LEN;
        while i < end
            invariant
                HEADER_LEN + OPEN_FIXED_LEN <= i <= end,
                end <= b@.len(),
                opt_params@ =~= b@.subrange(29, i as int),
            decreases end - i,
        {
            opt_params.push(b[i]);
            i = i + 1;
        }
        let m = OpenMessage { hdr, version, asnum, hold_time, bgp_id, opt_params, opt_params_len };
        assert(m@ == parse_open(b@).unwrap());
        Ok(m)
    }
}

/// Decoding an encoded well-formed OPEN message gives it back.
pub proof fn lemma_open_round_trip(m: OpenView)
    requires
        m.wf(),
    ensures
        parse_open(open_bytes(m)) == Some(m),
{
    let b = open_bytes(m);
    let h = header_bytes(m.hdr);
    assert(b.subrange(0, 19) =~= h);
    assert(parse_header(b) == parse_header(h)) by {
        assert(b[16] == h[16]);
        assert(b[17] == h[17]);
        assert(b[18] == h[18]);
    }
    crate::packet::hdr::lemma_header_round_trip(m.hdr, b);
    lemma_u16_bytes(m.asnum);
    lemma_u16_bytes(m.hold_time);
    assert(b[19] == m.version);
    assert(b[20] == u16_bytes(m.asnum)[0]);
    assert(b[21] == u16_bytes(m.asnum)[1]);
    assert(b[22] == u16_bytes(m.hold_time)[0]);
    assert(b[23] == u16_bytes(m.hold_time)[1]);
    assert(b[28] == m.opt_params_len);
    assert(b.subrange(29, 29 + b[28]) =~= m.opt_params);
    assert(Ipv4Addr(b[24], b[25], b[26], b[27]) == m.bgp_id);
}

/// Every OPEN message built by `OpenMessage::new` decodes to itself.
pub proof fn lemma_new_round_trip(asnum: u16, bgp_id: Ipv4Addr)
    ensures
        parse_open(open_bytes(open_new(asnum, bgp_id))) == Some(open_new(asnum, bgp_id)),
{
    lemma_open_round_trip(open_new(asnum, bgp_id));
}

} // verus!
