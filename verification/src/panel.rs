//! The frame loop's command/state contract: the state it reads every frame,
//! the commands it may issue, and how worker results are taken up.

use vstd::prelude::*;
use crate::roster::{Roster, some_connected};
use crate::status::{ConnectStatus, ScanStatus};

verus! {

/// The discovery worker's command channel: capacity one, fire-and-forget.
/// A send while a command is already pending drops the new command — that
/// is intentional debounce, not a failure.
pub struct ScanCommandSlot {
    pub pending: bool,
}

impl ScanCommandSlot {
    pub fn new() -> (s: Self)
        ensures
            !s.pending,
    {
        ScanCommandSlot { pending: false }
    }

    pub fn send(&mut self)
        ensures
            final(self).pending,
    {
        self.pending = true;
    }

    pub fn take(&mut self) -> (b: bool)
        ensures
            !final(self).pending,
            b == old(self).pending,
    {
        let b = self.pending;
        self.pending = false;
        b
    }
}

/// The connection worker's command channel: capacity one, carrying the
/// selection index; a send while full drops the new command.
pub struct ConnectCommandSlot {
    pub pending: Option<usize>,
}

/// What a capacity-one send leaves in the channel: the command already
/// pending, else the new one.
pub open spec fn slot_after_send(s: Option<usize>, i: usize) -> Option<usize> {
    if s is Some {
        s
    } else {
        Some(i)
    }
}

impl ConnectCommandSlot {
    pub fn new() -> (s: Self)
        ensures
            s.pending is None,
    {
        ConnectCommandSlot { pending: None }
    }

    pub fn send(&mut self, i: usize)
        ensures
            final(self).pending == slot_after_send(old(self).pending, i),
    {
        match self.pending {
            None => {
                self.pending = Some(i);
            },
            Some(_) => {},
        }
    }

    pub fn take(&mut self) -> (r: Option<usize>)
        ensures
            final(self).pending is None,
            r == old(self).pending,
    {
        let r = self.pending;
        self.pending = None;
        r
    }
}

/// Where a selection index lands once the roster it pointed into is
/// replaced: kept if still in range, else pulled to the last entry, or to
/// `0` for an empty roster.
pub open spec fn clamped(sel: int, len: int) -> int {
    if len == 0 {
        0
    } else if sel < len {
        sel
    } else {
        len - 1
    }
}

/// Everything the frame loop owns or observes: the two published statuses,
/// the roster snapshot, the selection cursor, and the two command channels.
pub struct Panel {
    pub powered: bool,
    pub scan_status: ScanStatus,
    pub connect_status: ConnectStatus,
    pub roster: Roster,
    pub selection: usize,
    pub scan_slot: ScanCommandSlot,
    pub connect_slot: ConnectCommandSlot,
}

/// What the discovery worker reports back at the end of a cycle: the roster
/// it assembled, or that the scan aborted on an adapter error (in which
/// case nothing is published).
pub enum ScanOutcome {
    Published(Roster),
    Aborted,
}

/// What the connection worker reports back: the working copy it publishes
/// on success, or the failure text.
pub enum ConnectOutcome {
    Connected(Roster),
    ConnectFailed(String),
}

/// Frame rule: `post` differs from `pre` at most in the selection cursor.
pub open spec fn same_but_selection(pre: Panel, post: Panel) -> bool {
    &&& post.powered == pre.powered
    &&& post.scan_status == pre.scan_status
    &&& post.connect_status == pre.connect_status
    &&& post.roster == pre.roster
    &&& post.scan_slot == pre.scan_slot
    &&& post.connect_slot == pre.connect_slot
}

/// What issuing a scan command does: the channel ends up holding a pending
/// command and nothing else moves.
pub open spec fn scan_request_step(pre: Panel, post: Panel) -> bool {
    &&& post.scan_slot.pending
    &&& post.powered == pre.powered
    &&& post.scan_status == pre.scan_status
    &&& post.connect_status == pre.connect_status
    &&& post.roster == pre.roster
    &&& post.selection == pre.selection
    &&& post.connect_slot == pre.connect_slot
}

impl Panel {
    /// Well-formedness read every frame: the roster is a valid snapshot and
    /// the cursor points into it (or sits at `0` when it is empty).
    pub open spec fn wf(&self) -> bool {
        &&& self.roster.wf()
        &&& if self.roster@.len() == 0 {
            self.selection == 0
        } else {
            (self.selection as int) < self.roster@.len()
        }
    }

    /// Process-start state: empty roster, both machines `Disabled`, no
    /// command pending; the radio's power state is whatever the adapter
    /// reports.
    pub fn new(powered: bool) -> (p: Panel)
        ensures
            p.wf(),
            p.powered == powered,
            p.scan_status is Disabled,
            p.connect_status is Disabled,
            p.roster@.len() == 0,
            p.selection == 0,
            !p.scan_slot.pending,
            p.connect_slot.pending is None,
    {
        Panel {
            powered,
            scan_status: ScanStatus::Disabled,
            connect_status: ConnectStatus::Disabled,
            roster: Roster::new(),
            selection: 0,
            scan_slot: ScanCommandSlot::new(),
            connect_slot: ConnectCommandSlot::new(),
        }
    }

    /// Issues the scan command (fire-and-forget, debounced by the
    /// capacity-one channel).
    pub fn request_scan(&mut self)
        ensures
            scan_request_step(*old(self), *final(self)),
    {
        self.scan_slot.send();
    }

    /// Powers the radio on: resets the scan machine and the cursor and
    /// issues a scan command.  A press while already powered does nothing.
    pub fn power_on(&mut self)
        requires
            old(self).wf(),
        ensures
            final(self).wf(),
            final(self).powered,
            old(self).powered ==> *final(self) == *old(self),
            !old(self).powered ==> {
                &&& final(self).scan_status is Disabled
                &&& final(self).selection == 0
                &&& final(self).scan_slot.pending
                &&& final(self).connect_status == old(self).connect_status
                &&& final(self).roster == old(self).roster
                &&& final(self).connect_slot == old(self).connect_slot
            },
    {
        if self.powered {
            return ;
        }
        self.powered = true;
        self.scan_status = ScanStatus::Disabled;
        self.selection = 0;
        self.scan_slot.send();
    }

    /// Powers the radio off: both status machines fall back to `Disabled`
    /// (their coupling is enforced here, in one place) and the cursor
    /// resets.  A press while already off does nothing.
    pub fn power_off(&mut self)
        requires
            old(self).wf(),
        ensures
            final(self).wf(),
            !old(self).powered ==> *final(self) == *old(self),
            old(self).powered ==> {
                &&& !final(self).powered
                &&& final(self).scan_status is Disabled
                &&& final(self).connect_status is Disabled
                &&& final(self).selection == 0
                &&& final(self).roster == old(self).roster
                &&& final(self).scan_slot == old(self).scan_slot
                &&& final(self).connect_slot == old(self).connect_slot
            },
    {
        if !self.powered {
            return ;
        }
        self.powered = false;
        self.scan_status = ScanStatus::Disabled;
        self.connect_status = ConnectStatus::Disabled;
        self.selection = 0;
    }

    /// Moves the cursor up, wrapping at the top.  A no-op unless the scan
    /// machine reads exactly `Finished`, and on an empty roster.
    pub fn nav_up(&mut self)
        requires
            old(self).wf(),
        ensures
            final(self).wf(),
            !(old(self).scan_status is Finished) || old(self).roster@.len() == 0 ==> *final(self)
                == *old(self),
            old(self).scan_status is Finished && old(self).roster@.len() > 0 ==> {
                &&& same_but_selection(*old(self), *final(self))
                &&& final(self).selection as int == if old(self).selection == 0 {
                    old(self).roster@.len() - 1
                } else {
                    old(self).selection - 1
                }
            },
    {
        if !(self.scan_status == ScanStatus::Finished) {
            return ;
        }
        let len = self.roster.len();
        if len == 0 {
            return ;
        }
        if self.selection == 0 {
            self.selection = len - 1;
        } else {
            self.selection = self.selection - 1;
        }
    }

    /// Moves the cursor down, wrapping at the bottom, under the same guard
    /// as [`Panel::nav_up`].
    pub fn nav_down(&mut self)
        requires
            old(self).wf(),
        ensures
            final(self).wf(),
            !(old(self).scan_status is Finished) || old(self).roster@.len() == 0 ==> *final(self)
                == *old(self),
            old(self).scan_status is Finished && old(self).roster@.len() > 0 ==> {
                &&& same_but_selection(*old(self), *final(self))
                &&& final(self).selection as int == if old(self).selection as int == old(
                    self,
                ).roster@.len() - 1 {
                    0
                } else {
                    old(self).selection + 1
                }
            },
    {
        if !(self.scan_status == ScanStatus::Finished) {
            return ;
        }
        let len = self.roster.len();
        if len == 0 {
            return ;
        }
        if self.selection == len - 1 {
            self.selection = 0;
        } else {
            self.selection = self.selection + 1;
        }
    }

    /// Issues a connect command for the device under the cursor.  Dropped
    /// unless the scan machine reads `Finished`; dropped while an attempt is
    /// already `Connecting` (no re-entrant attempts); dropped on an empty
    /// roster; and debounced by the capacity-one channel.
    pub fn request_connect(&mut self)
        requires
            old(self).wf(),
        ensures
            final(self).wf(),
            !(old(self).scan_status is Finished) ==> *final(self) == *old(self),
            old(self).scan_status is Finished && old(self).connect_status is Connecting
                ==> *final(self) == *old(self),
            old(self).scan_status is Finished && !(old(self).connect_status is Connecting)
                && old(self).roster@.len() == 0 ==> *final(self) == *old(self),
            old(self).scan_status is Finished && !(old(self).connect_status is Connecting)
                && old(self).roster@.len() > 0 ==> {
                &&& final(self).connect_slot.pending == slot_after_send(
                    old(self).connect_slot.pending,
                    old(self).selection,
                )
                &&& final(self).powered == old(self).powered
                &&& final(self).scan_status == old(self).scan_status
                &&& final(self).connect_status == old(self).connect_status
                &&& final(self).roster == old(self).roster
                &&& final(self).selection == old(self).selection
                &&& final(self).scan_slot == old(self).scan_slot
            },
    {
        if !(self.scan_status == ScanStatus::Finished) {
            return ;
        }
        if self.connect_status.is_connecting() {
            return ;
        }
        if self.roster.is_empty() {
            return ;
        }
        let i = self.selection;
        self.connect_slot.send(i);
    }

    /// The discovery worker took a command off its channel; `true` says a
    /// scan cycle starts.
    pub fn take_scan_command(&mut self) -> (b: bool)
        ensures
            b == old(self).scan_slot.pending,
            !final(self).scan_slot.pending,
            final(self).powered == old(self).powered,
            final(self).scan_status == old(self).scan_status,
            final(self).connect_status == old(self).connect_status,
            final(self).roster == old(self).roster,
            final(self).selection == old(self).selection,
            final(self).connect_slot == old(self).connect_slot,
    {
        self.scan_slot.take()
    }

    /// The connection worker took a command off its channel; the carried
    /// index, if any, is the selection to connect.
    pub fn take_connect_command(&mut self) -> (r: Option<usize>)
        ensures
            r == old(self).connect_slot.pending,
            final(self).connect_slot.pending is None,
            final(self).powered == old(self).powered,
            final(self).scan_status == old(self).scan_status,
            final(self).connect_status == old(self).connect_status,
            final(self).roster == old(self).roster,
            final(self).selection == old(self).selection,
            final(self).scan_slot == old(self).scan_slot,
    {
        self.connect_slot.take()
    }

    /// A connection attempt was accepted: the connect machine reads
    /// `Connecting` until the worker reports back.
    pub fn begin_connect(&mut self)
        requires
            old(self).wf(),
        ensures
            final(self).wf(),
            final(self).connect_status is Connecting,
            final(self).powered == old(self).powered,
            final(self).scan_status == old(self).scan_status,
            final(self).roster == old(self).roster,
            final(self).selection == old(self).selection,
            final(self).scan_slot == old(self).scan_slot,
            final(self).connect_slot == old(self).connect_slot,
    {
        self.connect_status = ConnectStatus::Connecting;
    }

    /// A scan cycle was accepted: the scan machine reads `Scanning` and the
    /// cursor resets to `0`.
    pub fn begin_scan(&mut self)
        requires
            old(self).wf(),
        ensures
            final(self).wf(),
            final(self).scan_status is Scanning,
            final(self).selection == 0,
            final(self).powered == old(self).powered,
            final(self).connect_status == old(self).connect_status,
            final(self).roster == old(self).roster,
            final(self).scan_slot == old(self).scan_slot,
            final(self).connect_slot == old(self).connect_slot,
    {
        self.scan_status = ScanStatus::Scanning;
        self.selection = 0;
    }

    /// Pulls the cursor back into range after a publish.
    fn clamp_selection(&mut self)
        ensures
            final(self).selection as int == clamped(
                old(self).selection as int,
                old(self).roster@.len() as int,
            ),
            final(self).powered == old(self).powered,
            final(self).scan_status == old(self).scan_status,
            final(self).connect_status == old(self).connect_status,
            final(self).roster == old(self).roster,
            final(self).scan_slot == old(self).scan_slot,
            final(self).connect_slot == old(self).connect_slot,
    {
        let len = self.roster.len();
        if len == 0 {
            self.selection = 0;
        } else if self.selection >= len {
            self.selection = len - 1;
        }
    }

    /// Takes the latest published snapshot as this frame's stable view: the
    /// roster is replaced wholesale and the cursor is clamped into the new
    /// range before anything reads it.
    pub fn refresh_roster(&mut self, r: Roster)
        requires
            old(self).wf(),
            r.wf(),
        ensures
            final(self).wf(),
            final(self).roster == r,
            final(self).selection as int == clamped(old(self).selection as int, r@.len() as int),
            final(self).powered == old(self).powered,
            final(self).scan_status == old(self).scan_status,
            final(self).connect_status == old(self).connect_status,
            final(self).scan_slot == old(self).scan_slot,
            final(self).connect_slot == old(self).connect_slot,
    {
        self.roster = r;
        self.clamp_selection();
    }

    /// Takes up what a scan cycle ended with.  Once the radio is off, an
    /// in-flight scan's result is ignored entirely — stale data is not
    /// applied for a disabled radio.  A published roster replaces the
    /// snapshot wholesale, the scan machine reads `Finished`, the cursor is
    /// clamped into the new range, and a device that survived a previous
    /// session already connected reconciles the connect machine to
    /// `Finished`.  An aborted scan only flips the scan machine to `Failed`
    /// and leaves the roster as it last was.
    pub fn apply_scan_outcome(&mut self, outcome: ScanOutcome)
        requires
            old(self).wf(),
            outcome matches ScanOutcome::Published(r) ==> r.wf(),
        ensures
            final(self).wf(),
            !old(self).powered ==> *final(self) == *old(self),
            old(self).powered ==> match outcome {
                ScanOutcome::Published(r) => {
                    &&& final(self).roster == r
                    &&& final(self).scan_status is Finished
                    &&& final(self).selection as int == clamped(
                        old(self).selection as int,
                        r@.len() as int,
                    )
                    &&& final(self).connect_status == if some_connected(r@) {
                        ConnectStatus::Finished
                    } else {
                        old(self).connect_status
                    }
                    &&& final(self).powered == old(self).powered
                    &&& final(self).scan_slot == old(self).scan_slot
                    &&& final(self).connect_slot == old(self).connect_slot
                },
                ScanOutcome::Aborted => {
                    &&& final(self).scan_status is Failed
                    &&& final(self).roster == old(self).roster
                    &&& final(self).selection == old(self).selection
                    &&& final(self).connect_status == old(self).connect_status
                    &&& final(self).powered == old(self).powered
                    &&& final(self).scan_slot == old(self).scan_slot
                    &&& final(self).connect_slot == old(self).connect_slot
                },
            },
    {
        if !self.powered {
            return ;
        }
        match outcome {
            ScanOutcome::Published(r) => {
                let reconcile = r.any_connected();
                self.roster = r;
                self.clamp_selection();
                if reconcile {
                    self.connect_status = ConnectStatus::Finished;
                }
                self.scan_status = ScanStatus::Finished;
            },
            ScanOutcome::Aborted => {
                self.scan_status = ScanStatus::Failed;
            },
        }
    }

    /// Takes up what a connection attempt ended with, under the same
    /// radio-off rule as [`Panel::apply_scan_outcome`].  Success publishes
    /// the worker's working copy wholesale and reads `Finished`; failure
    /// only records the reason and leaves the roster as it last was.
    pub fn apply_connect_outcome(&mut self, outcome: ConnectOutcome)
        requires
            old(self).wf(),
            outcome matches ConnectOutcome::Connected(r) ==> r.wf(),
        ensures
            final(self).wf(),
            !old(self).powered ==> *final(self) == *old(self),
            old(self).powered ==> match outcome {
                ConnectOutcome::Connected(r) => {
                    &&& final(self).roster == r
                    &&& final(self).connect_status is Finished
                    &&& final(self).selection as int == clamped(
                        old(self).selection as int,
                        r@.len() as int,
                    )
                    &&& final(self).scan_status == old(self).scan_status
                    &&& final(self).powered == old(self).powered
                    &&& final(self).scan_slot == old(self).scan_slot
                    &&& final(self).connect_slot == old(self).connect_slot
                },
                ConnectOutcome::ConnectFailed(reason) => {
                    &&& final(self).connect_status == (ConnectStatus::Failed { reason })
                    &&& final(self).roster == old(self).roster
                    &&& final(self).selection == old(self).selection
                    &&& final(self).scan_status == old(self).scan_status
                    &&& final(self).powered == old(self).powered
                    &&& final(self).scan_slot == old(self).scan_slot
                    &&& final(self).connect_slot == old(self).connect_slot
                },
            },
    {
        if !self.powered {
            return ;
        }
        match outcome {
            ConnectOutcome::Connected(r) => {
                self.roster = r;
                self.clamp_selection();
                self.connect_status = ConnectStatus::Finished;
            },
            ConnectOutcome::ConnectFailed(reason) => {
                self.connect_status = ConnectStatus::Failed { reason };
            },
        }
    }
}

/// Scan commands debounce to idempotence: a second issue in immediate
/// succession — in particular while the worker is still `Scanning` and has
/// not taken the first command — leaves the whole panel exactly as the
/// first issue left it, so one scan cycle follows, not two.
pub proof fn lemma_scan_command_debounce(p0: Panel, p1: Panel, p2: Panel)
    requires
        scan_request_step(p0, p1),
        scan_request_step(p1, p2),
    ensures
        p2 == p1,
{
    assert(p2.scan_slot.pending == p1.scan_slot.pending);
    assert(p2.scan_slot == p1.scan_slot);
}

/// Connect commands debounce the same way: once some command is pending,
/// a further send leaves the channel exactly as it was.
pub proof fn lemma_connect_command_debounce(s: Option<usize>, i: usize, j: usize)
    ensures
        slot_after_send(slot_after_send(s, i), j) == slot_after_send(s, i),
{
}

} // verus!
