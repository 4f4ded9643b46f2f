use vstd::prelude::*;

verus! {

/// A 16-bit autonomous-system number.
#[derive(Debug, Clone, Copy, Hash, PartialEq, Eq, Structural)]
pub struct ASNum(u16);

impl View for ASNum {
    type V = u16;

    closed spec fn view(&self) -> u16 {
        self.0
    }
}

impl From<ASNum> for u16 {
    fn from(asn: ASNum) -> (r: u16)
        ensures
            r == asn@,
    {
        asn.0
    }
}

impl vstd::std_specs::convert::FromSpecImpl<ASNum> for u16 {
    open spec fn obeys_from_spec() -> bool {
        true
    }

    open spec fn from_spec(asn: ASNum) -> u16 {
        asn@
    }
}

impl From<u16> for ASNum {
    fn from(asn: u16) -> (r: ASNum)
        ensures
            r@ == asn,
    {
        ASNum(asn)
    }
}

impl vstd::std_specs::convert::FromSpecImpl<u16> for ASNum {
    open spec fn obeys_from_spec() -> bool {
        true
    }

    closed spec fn from_spec(asn: u16) -> ASNum {
        ASNum(asn)
    }
}

/// A negotiated hold timer, in seconds.
#[derive(Debug, Clone, Copy, Hash, PartialEq, Eq, Structural)]
pub struct HoldTime(u16);

impl View for HoldTime {
    type V = u16;

    closed spec fn view(&self) -> u16 {
        self.0
    }
}

impl HoldTime {
    /// A hold time of zero seconds.
    pub fn new() -> (r: HoldTime)
        ensures
            r@ == 0,
    {
        HoldTime(0)
    }
}

impl From<HoldTime> for u16 {
    fn from(ht: HoldTime) -> (r: u16)
        ensures
            r == ht@,
    {
        ht.0
    }
}

impl vstd::std_specs::convert::FromSpecImpl<HoldTime> for u16 {
    open spec fn obeys_from_spec() -> bool {
        true
    }

    open spec fn from_spec(ht: HoldTime) -> u16 {
        ht@
    }
}

impl From<u16> for HoldTime {
    fn from(ht: u16) -> (r: HoldTime)
        ensures
            r@ == ht,
    {
        HoldTime(ht)
    }
}

impl vstd::std_specs::convert::FromSpecImpl<u16> for HoldTime {
    open spec fn obeys_from_spec() -> bool {
        true
    }

    closed spec fn from_spec(ht: u16) -> HoldTime {
        HoldTime(ht)
    }
}

/// The highest protocol version this peer accepts.
pub const MAX_VERSION: u8 = 4;

/// A protocol version, never above `MAX_VERSION`.
#[derive(Debug, Clone, Copy, Hash, PartialEq, Eq, Structural)]
pub struct Version(u8);

impl View for Version {
    type V = u8;

    closed spec fn view(&self) -> u8 {
        self.0
    }
}

impl Version {
    #[verifier::type_invariant]
    spec fn inv(self) -> bool {
        self.0 <= MAX_VERSION
    }

    /// The version this peer speaks, 4.
    pub fn new() -> (r: Version)
        ensures
            r@ == MAX_VERSION,
    {
        Version(MAX_VERSION)
    }

    /// Reads a version number; anything above `MAX_VERSION` is refused.
    pub fn try_from(v: u8) -> (r: Result<Version, crate::error::ConvertBytesErr>)
        ensures
            r is Ok <==> v <= MAX_VERSION,
            r matches Ok(ver) ==> ver@ == v,
            r matches Err(e) ==> e.reason == crate::error::DecodeFailure::BadVersion,
    {
        if v > MAX_VERSION {
            return Err(crate::error::ConvertBytesErr { reason: crate::error::DecodeFailure::BadVersion });
        }
        Ok(Version(v))
    }
}

impl Default for Version {
    fn default() -> (r: Version)
        ensures
            r@ == MAX_VERSION,
    {
        Version::new()
    }
}

impl From<Version> for u8 {
    fn from(v: Version) -> (r: u8)
        ensures
            r == v@,
    {
        v.0
    }
}

impl vstd::std_specs::convert::FromSpecImpl<Version> for u8 {
    open spec fn obeys_from_spec() -> bool {
        true
    }

    open spec fn from_spec(v: Version) -> u8 {
        v@
    }
}

/// An IPv4 address, as its four octets in network order.
#[derive(Debug, Clone, Copy, Hash, PartialEq, Eq, Structural)]
pub struct Ipv4Addr(pub u8, pub u8, pub u8, pub u8);

impl Ipv4Addr {
    pub fn new(a: u8, b: u8, c: u8, d: u8) -> (r: Ipv4Addr)
        ensures
            r == Ipv4Addr(a, b, c, d),
    {
        Ipv4Addr(a, b, c, d)
    }

    pub open spec fn spec_octets(self) -> Seq<u8> {
        seq![self.0, self.1, self.2, self.3]
    }

    pub fn octets(&self) -> (r: [u8; 4])
        ensures
            r@ == self.spec_octets(),
    {
        [self.0, self.1, self.2, self.3]
    }
}

} // verus!
