use vstd::prelude::*;

verus! {

/// An input to the peer state machine.
#[derive(Debug, Clone, Hash, PartialEq, Eq)]
pub enum Event {
    Start,
    TcpConnect,
    BgpOpen(crate::packet::open::OpenMessage),
}

} // verus!
