//! The two independently observed status machines of the panel.

use vstd::prelude::*;

verus! {

/// Lifecycle of the discovery worker's current scan, as the frame loop
/// observes it.
#[derive(Clone, Copy, PartialEq, Eq, Structural, Debug)]
pub enum ScanStatus {
    Disabled,
    Scanning,
    Finished,
    Failed,
}

/// Lifecycle of the connection worker's current attempt; a failure carries a
/// human-readable reason for display.
#[derive(Debug)]
pub enum ConnectStatus {
    Disabled,
    Connecting,
    Finished,
    Failed { reason: String },
}

impl Clone for ConnectStatus {
    fn clone(&self) -> (r: Self)
        ensures
            r == *self,
    {
        match self {
            ConnectStatus::Disabled => ConnectStatus::Disabled,
            ConnectStatus::Connecting => ConnectStatus::Connecting,
            ConnectStatus::Finished => ConnectStatus::Finished,
            ConnectStatus::Failed { reason } => ConnectStatus::Failed { reason: reason.clone() },
        }
    }
}

impl ConnectStatus {
    pub fn is_connecting(&self) -> (b: bool)
        ensures
            b == (self is Connecting),
    {
        match self {
            ConnectStatus::Connecting => true,
            _ => false,
        }
    }
}

} // verus!
