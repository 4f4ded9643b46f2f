use vstd::prelude::*;

verus! {

/// Length of the fixed message header: marker, length and type.
pub const HEADER_LEN: usize = 19;

/// Length of the marker at the start of every header.
pub const MARKER_LEN: usize = 16;

/// Length of the fixed part of an OPEN message after the header.
pub const OPEN_FIXED_LEN: usize = 10;

/// The TCP port a peer listens on and connects to.
pub const BGP_PORT: u16 = 179;

} // verus!
