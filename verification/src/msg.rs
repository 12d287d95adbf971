use vstd::prelude::*;

verus! {

/// What the host tells an operation about the message that asked for it.
#[derive(Debug, Clone, PartialEq, Eq)]
pub struct MessageInfo {
    /// The address that sent the message; the host has authenticated it.
    pub sender: String,
}

/// The messages of the control plane.
#[derive(Debug, Clone, Copy, PartialEq, Eq)]
pub enum ExecuteMsg {
    /// Switch the gadget on or off.
    SetEnabled { enabled: bool },
    /// Clear everything that the gadget has accumulated.
    Reset {},
    /// Change the interval at which block heights are committed.
    SetCommitBlockHeightInterval { commit_block_height_interval: u64 },
}

} // verus!
