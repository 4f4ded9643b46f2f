use vstd::prelude::*;

verus! {

/// The field of a peer configuration that could not be read.
#[derive(Debug, Clone, Copy, PartialEq, Eq, Structural)]
pub enum ConfigField {
    LocalAs,
    LocalIp,
    RemoteAs,
    RemoteIp,
    Mode,
}

/// A peer configuration could not be read; `field` names the first bad or
/// missing field.
#[derive(Debug, Clone, Copy, PartialEq, Eq, Structural)]
pub struct ConfigParseErr {
    pub field: ConfigField,
}

/// The transport could not be established (connect, bind or accept failed),
/// or a write on it failed.
#[derive(Debug)]
pub struct ConnectionErr {
    pub message: String,
}

/// A message of a known type that this peer has no decoder for.
#[derive(Debug, Clone, Copy, PartialEq, Eq, Structural)]
pub struct ConvertMessageErr {
    pub message_type: crate::packet::hdr::MessageType,
}

/// Why a byte sequence is not a message.
#[derive(Debug, Clone, Copy, PartialEq, Eq, Structural)]
pub enum DecodeFailure {
    /// Fewer bytes than the layout needs.
    Truncated,
    /// The type byte names no message type.
    UnknownType,
    /// The version byte is above the highest accepted version.
    BadVersion,
    /// A known message type that has no decoder yet.
    Unsupported(ConvertMessageErr),
}

/// Bytes could not be converted into a message.
#[derive(Debug, Clone, Copy, PartialEq, Eq, Structural)]
pub struct ConvertBytesErr {
    pub reason: DecodeFailure,
}

} // verus!
