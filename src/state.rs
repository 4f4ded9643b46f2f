use vstd::prelude::*;

verus! {

/// The state of a peer's session.
#[derive(Debug, Clone, Copy, Hash, PartialEq, Eq, Structural)]
pub enum State {
    Idle,
    Connect,
    Active,
    OpenSent,
    OpenConfirm,
    Established,
}

} // verus!
