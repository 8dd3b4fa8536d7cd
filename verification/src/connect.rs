//! The connection worker's session: disconnect whatever is connected, then
//! pair and connect the chosen device, on a private working copy of the
//! roster that is published only on success.

use vstd::prelude::*;
use crate::device::DeviceInfo;
use crate::roster::{Roster, at_most_one_connected, some_connected, unique_addrs};

verus! {

/// The adapter operation the session asks the worker to perform next, each
/// aimed at the device with the given address.
pub enum ConnectAction {
    Disconnect(u64),
    QueryPaired(u64),
    Pair(u64),
    QueryConnected(u64),
    Connect(u64),
}

/// What the adapter call came back with: completion of an operation, the
/// answer to a query, or an error with its display text.
pub enum ConnectEvent {
    Done,
    Answer(bool),
    Failed(String),
}

/// Where the session stands between adapter calls.
pub enum ConnectPhase {
    /// Awaiting the disconnect of the record at `at`, which is still marked
    /// connected in the working copy.
    Disconnecting { at: usize },
    /// Awaiting the answer to "is the target paired?".
    CheckPaired,
    /// Awaiting the completion of pairing.
    Pairing,
    /// Awaiting the answer to "is the target connected?".
    CheckConnected,
    /// Awaiting the completion of connecting.
    Connecting,
    /// The target is connected and marked so in the working copy.
    Succeeded,
    /// Some step failed; the working copy is frozen as it then stood.
    Failed { reason: String },
}

/// The same records, with only the connected flag at `i` set to `c`.
pub open spec fn with_flag(s: Seq<DeviceInfo>, i: int, c: bool) -> Seq<DeviceInfo> {
    s.update(
        i,
        DeviceInfo { addr: s[i].addr, name: s[i].name, paired: s[i].paired, connected: c },
    )
}

/// One connection attempt, from acceptance of the command to success or
/// failure; it runs to completion before the worker takes another command.
pub struct ConnectSession {
    pub working: Roster,
    pub index: usize,
    pub phase: ConnectPhase,
}

impl ConnectSession {
    /// The address of the device the command selected.
    pub open spec fn target_addr(&self) -> u64 {
        self.working@[self.index as int].addr
    }

    /// Well-formedness carried across every step: the working copy stays a
    /// valid roster, the selected index stays in range, and the connected
    /// flags agree with the phase.
    pub open spec fn wf(&self) -> bool {
        &&& self.working.wf()
        &&& (self.index as int) < self.working@.len()
        &&& match self.phase {
            ConnectPhase::Disconnecting { at } => (at as int) < self.working@.len()
                && self.working@[at as int].connected,
            ConnectPhase::CheckPaired | ConnectPhase::Pairing | ConnectPhase::CheckConnected
                | ConnectPhase::Connecting => !some_connected(self.working@),
            ConnectPhase::Succeeded => self.working@[self.index as int].connected,
            ConnectPhase::Failed { .. } => true,
        }
    }

    /// Accepts a connect command: takes the working copy and points the
    /// session at the still-connected record, if any, else straight at the
    /// pairing check.
    pub fn begin(roster: Roster, index: usize) -> (s: ConnectSession)
        requires
            roster.wf(),
            index < roster@.len(),
        ensures
            s.wf(),
            s.working@ == roster@,
            s.index == index,
            !s.is_over(),
    {
        let connected = roster.connected_index();
        match connected {
            Some(at) => ConnectSession {
                working: roster,
                index,
                phase: ConnectPhase::Disconnecting { at },
            },
            None => ConnectSession { working: roster, index, phase: ConnectPhase::CheckPaired },
        }
    }

    /// Whether the attempt has ended, in success or failure.
    pub open spec fn is_over(&self) -> bool {
        self.phase is Succeeded || self.phase is Failed
    }

    /// Which adapter operation to perform next; `None` once the attempt has
    /// ended.
    pub fn next_action(&self) -> (a: Option<ConnectAction>)
        requires
            self.wf(),
        ensures
            (a is None) == self.is_over(),
            match self.phase {
                ConnectPhase::Disconnecting { at } => a == Some(
                    ConnectAction::Disconnect(self.working@[at as int].addr),
                ),
                ConnectPhase::CheckPaired => a == Some(
                    ConnectAction::QueryPaired(self.target_addr()),
                ),
                ConnectPhase::Pairing => a == Some(ConnectAction::Pair(self.target_addr())),
                ConnectPhase::CheckConnected => a == Some(
                    ConnectAction::QueryConnected(self.target_addr()),
                ),
                ConnectPhase::Connecting => a == Some(ConnectAction::Connect(self.target_addr())),
                ConnectPhase::Succeeded => a is None,
                ConnectPhase::Failed { .. } => a is None,
            },
    {
        match &self.phase {
            ConnectPhase::Disconnecting { at } => Some(
                ConnectAction::Disconnect(self.working.devices[*at].addr),
            ),
            ConnectPhase::CheckPaired => Some(
                ConnectAction::QueryPaired(self.working.devices[self.index].addr),
            ),
            ConnectPhase::Pairing => Some(
                ConnectAction::Pair(self.working.devices[self.index].addr),
            ),
            ConnectPhase::CheckConnected => Some(
                ConnectAction::QueryConnected(self.working.devices[self.index].addr),
            ),
            ConnectPhase::Connecting => Some(
                ConnectAction::Connect(self.working.devices[self.index].addr),
            ),
            ConnectPhase::Succeeded => None,
            ConnectPhase::Failed { .. } => None,
        }
    }

    /// Which events the pending operation can answer with.
    pub open spec fn expects(&self, ev: ConnectEvent) -> bool {
        match self.phase {
            ConnectPhase::Disconnecting { .. } | ConnectPhase::Pairing
                | ConnectPhase::Connecting => ev is Done || ev is Failed,
            ConnectPhase::CheckPaired | ConnectPhase::CheckConnected => ev is Answer
                || ev is Failed,
            ConnectPhase::Succeeded | ConnectPhase::Failed { .. } => false,
        }
    }

    /// Sets the target's connected flag and closes the attempt as succeeded.
    fn mark_target_connected(&mut self)
        requires
            (old(self).index as int) < old(self).working@.len(),
        ensures
            final(self).working@ == with_flag(
                old(self).working@,
                old(self).index as int,
                true,
            ),
            final(self).index == old(self).index,
            final(self).phase is Succeeded,
    {
        let i = self.index;
        let mut d = self.working.devices[i].clone();
        d.connected = true;
        self.working.devices[i] = d;
        self.phase = ConnectPhase::Succeeded;
    }

    /// Feeds the outcome of the pending adapter operation into the session:
    /// an error freezes the working copy and ends the attempt; a disconnect
    /// completion clears exactly the disconnected record's flag; pairing and
    /// connecting advance step by step, and on the final completion exactly
    /// the target is marked connected.
    pub fn on_event(&mut self, ev: ConnectEvent)
        requires
            old(self).wf(),
            old(self).expects(ev),
        ensures
            final(self).wf(),
            final(self).index == old(self).index,
            match ev {
                ConnectEvent::Failed(r) => final(self).phase == (ConnectPhase::Failed {
                    reason: r,
                }) && final(self).working@ == old(self).working@,
                ConnectEvent::Done => match old(self).phase {
                    ConnectPhase::Disconnecting { at } => final(self).working@ == with_flag(
                        old(self).working@,
                        at as int,
                        false,
                    ) && final(self).phase is CheckPaired,
                    ConnectPhase::Pairing => final(self).working@ == old(self).working@
                        && final(self).phase is CheckConnected,
                    ConnectPhase::Connecting => final(self).working@ == with_flag(
                        old(self).working@,
                        old(self).index as int,
                        true,
                    ) && final(self).phase is Succeeded,
                    _ => false,
                },
                ConnectEvent::Answer(b) => match old(self).phase {
                    ConnectPhase::CheckPaired => final(self).working@ == old(self).working@
                        && final(self).phase == if b {
                        ConnectPhase::CheckConnected
                    } else {
                        ConnectPhase::Pairing
                    },
                    ConnectPhase::CheckConnected => if b {
                        final(self).working@ == with_flag(
                            old(self).working@,
                            old(self).index as int,
                            true,
                        ) && final(self).phase is Succeeded
                    } else {
                        final(self).working@ == old(self).working@
                            && final(self).phase is Connecting
                    },
                    _ => false,
                },
            },
    {
        match ev {
            ConnectEvent::Failed(r) => {
                self.phase = ConnectPhase::Failed { reason: r };
            },
            ConnectEvent::Done => {
                let at_opt: Option<usize> = match &self.phase {
                    ConnectPhase::Disconnecting { at } => Some(*at),
                    _ => None,
                };
                match at_opt {
                    Some(at) => {
                        let mut d = self.working.devices[at].clone();
                        d.connected = false;
                        self.working.devices[at] = d;
                        self.phase = ConnectPhase::CheckPaired;
                        proof {
                            assert(forall|k: int|
                                0 <= k < old(self).working@.len() && k != at as int
                                    ==> !old(self).working@[k].connected);
                            assert(!some_connected(self.working@));
                            assert(unique_addrs(self.working@));
                        }
                    },
                    None => {
                        let pairing = match &self.phase {
                            ConnectPhase::Pairing => true,
                            _ => false,
                        };
                        if pairing {
                            self.phase = ConnectPhase::CheckConnected;
                        } else {
                            self.mark_target_connected();
                            proof {
                                assert(unique_addrs(self.working@));
                                assert(at_most_one_connected(self.working@));
                            }
                        }
                    },
                }
            },
            ConnectEvent::Answer(b) => {
                let checking_paired = match &self.phase {
                    ConnectPhase::CheckPaired => true,
                    _ => false,
                };
                if checking_paired {
                    if b {
                        self.phase = ConnectPhase::CheckConnected;
                    } else {
                        self.phase = ConnectPhase::Pairing;
                    }
                } else {
                    if b {
                        self.mark_target_connected();
                        proof {
                            assert(unique_addrs(self.working@));
                            assert(at_most_one_connected(self.working@));
                        }
                    } else {
                        self.phase = ConnectPhase::Connecting;
                    }
                }
            },
        }
    }

    /// Whether the attempt ended in success.
    pub fn succeeded(&self) -> (b: bool)
        ensures
            b == (self.phase is Succeeded),
    {
        match &self.phase {
            ConnectPhase::Succeeded => true,
            _ => false,
        }
    }

    /// The display text of the failure, for the frame loop to show.
    pub fn failure_reason(&self) -> (r: &String)
        requires
            self.phase is Failed,
        ensures
            r == self.phase->reason,
    {
        match &self.phase {
            ConnectPhase::Failed { reason } => reason,
            _ => unreached(),
        }
    }

    /// On success, the working copy — with exactly the target connected —
    /// becomes the roster to publish.
    pub fn publish(self) -> (r: Roster)
        requires
            self.wf(),
            self.phase is Succeeded,
        ensures
            r@ == self.working@,
            r.wf(),
            r@[self.index as int].connected,
            forall|k: int|
                0 <= k < r@.len() && k != self.index as int ==> !r@[k].connected,
    {
        self.working
    }
}

} // verus!
