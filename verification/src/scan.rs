//! The discovery worker's scan cycle: folding the adapter's device events,
//! observed within one scan window, into a fresh roster.

use vstd::prelude::*;
use crate::device::DeviceInfo;
use crate::roster::{Roster, addr_index, at_most_one_connected, has_addr, unique_addrs};

verus! {

/// One observation from the adapter's discovery stream: a device appeared
/// (with its assembled record) or disappeared (known by address alone).
pub enum ScanEvent {
    Added(DeviceInfo),
    Removed(u64),
}

/// Whether `ev` reports the arrival of the device with address `a`.
pub open spec fn adds(ev: ScanEvent, a: u64) -> bool {
    match ev {
        ScanEvent::Added(d) => d.addr == a,
        _ => false,
    }
}

/// Whether `ev` reports the departure of the device with address `a`.
pub open spec fn removes(ev: ScanEvent, a: u64) -> bool {
    match ev {
        ScanEvent::Removed(x) => x == a,
        _ => false,
    }
}

/// The same records with every connected flag cleared.
pub open spec fn all_cleared(s: Seq<DeviceInfo>) -> Seq<DeviceInfo> {
    Seq::new(
        s.len(),
        |i: int|
            DeviceInfo {
                addr: s[i].addr,
                name: s[i].name,
                paired: s[i].paired,
                connected: false,
            },
    )
}

/// What one discovery event does to the working sequence.  An arrival
/// replaces the record already carrying that address, or is appended; if it
/// arrives marked connected, every other connected flag is cleared first, so
/// at most one record stays connected.  A departure deletes the record with
/// that address, if any.
pub open spec fn apply_event_spec(s: Seq<DeviceInfo>, ev: ScanEvent) -> Seq<DeviceInfo> {
    match ev {
        ScanEvent::Added(d) => {
            let base = if d.connected {
                all_cleared(s)
            } else {
                s
            };
            if has_addr(s, d.addr) {
                base.update(addr_index(s, d.addr), d)
            } else {
                base.push(d)
            }
        },
        ScanEvent::Removed(a) => {
            if has_addr(s, a) {
                s.remove(addr_index(s, a))
            } else {
                s
            }
        },
    }
}

/// The working sequence a whole window of events leaves behind, starting
/// from nothing.
pub open spec fn run_events(evs: Seq<ScanEvent>) -> Seq<DeviceInfo>
    decreases evs.len(),
{
    if evs.len() == 0 {
        Seq::empty()
    } else {
        apply_event_spec(run_events(evs.drop_last()), evs.last())
    }
}

/// Whether the window `evs` reports device `a` as present at its close: some
/// arrival of `a` is not followed by any departure of `a`.
pub open spec fn survives(evs: Seq<ScanEvent>, a: u64) -> bool {
    exists|i: int|
        0 <= i < evs.len() && adds(evs[i], a) && (forall|j: int|
            i < j < evs.len() ==> !removes(evs[j], a))
}

/// The accumulating state of one scan cycle, private to the discovery
/// worker until it publishes.
pub struct ScanSession {
    pub devices: Vec<DeviceInfo>,
}

impl View for ScanSession {
    type V = Seq<DeviceInfo>;

    open spec fn view(&self) -> Seq<DeviceInfo> {
        self.devices@
    }
}

impl ScanSession {
    /// Addresses stay unique and at most one record stays connected while
    /// events are folded in.
    pub open spec fn wf(&self) -> bool {
        unique_addrs(self@) && at_most_one_connected(self@)
    }

    /// A scan starts with an empty working set.
    pub fn begin() -> (s: ScanSession)
        ensures
            s@.len() == 0,
            s.wf(),
    {
        ScanSession { devices: Vec::new() }
    }

    /// The position of the record with address `a`, if one is held.
    fn find_addr(&self, a: u64) -> (r: Option<usize>)
        ensures
            match r {
                Some(i) => i < self@.len() && self@[i as int].addr == a,
                None => !has_addr(self@, a),
            },
    {
        let mut i: usize = 0;
        while i < self.devices.len()
            invariant
                i <= self.devices.len(),
                forall|k: int| 0 <= k < i ==> self@[k].addr != a,
            decreases self.devices.len() - i,
        {
            if self.devices[i].addr == a {
                return Some(i);
            }
            i = i + 1;
        }
        None
    }

    /// Clears every connected flag in the working set.
    fn clear_connected(&mut self)
        ensures
            final(self)@ == all_cleared(old(self)@),
    {
        let mut i: usize = 0;
        while i < self.devices.len()
            invariant
                i <= self.devices.len(),
                self@.len() == old(self)@.len(),
                forall|k: int| 0 <= k < i ==> self@[k] == all_cleared(old(self)@)[k],
                forall|k: int| i <= k < self@.len() ==> self@[k] == old(self)@[k],
            decreases self.devices.len() - i,
        {
            let mut d = self.devices[i].clone();
            d.connected = false;
            self.devices[i] = d;
            i = i + 1;
        }
        proof {
            assert(self@ =~= all_cleared(old(self)@));
        }
    }

    /// Folds one discovery event into the working set, exactly as
    /// [`apply_event_spec`] says.
    pub fn apply(&mut self, ev: ScanEvent)
        requires
            old(self).wf(),
        ensures
            final(self).wf(),
            final(self)@ == apply_event_spec(old(self)@, ev),
    {
        match ev {
            ScanEvent::Added(d) => {
                let found = self.find_addr(d.addr);
                proof {
                    if let Some(i) = found {
                        assert(has_addr(old(self)@, d.addr));
                        assert(addr_index(old(self)@, d.addr) == i as int) by {
                            let j = addr_index(old(self)@, d.addr);
                            assert(0 <= j < old(self)@.len() && old(self)@[j].addr == d.addr);
                        }
                    }
                }
                if d.connected {
                    self.clear_connected();
                }
                match found {
                    Some(i) => {
                        self.devices[i] = d;
                    },
                    None => {
                        self.devices.push(d);
                    },
                }
                proof {
                    lemma_apply_added_wf(old(self)@, d);
                }
            },
            ScanEvent::Removed(a) => {
                let found = self.find_addr(a);
                match found {
                    Some(i) => {
                        proof {
                            assert(has_addr(old(self)@, a));
                            assert(addr_index(old(self)@, a) == i as int) by {
                                let j = addr_index(old(self)@, a);
                                assert(0 <= j < old(self)@.len() && old(self)@[j].addr == a);
                            }
                            old(self)@.remove_ensures(i as int);
                        }
                        self.devices.remove(i);
                    },
                    None => {},
                }
                proof {
                    lemma_apply_removed_wf(old(self)@, a);
                }
            },
        }
    }

    /// Closes the window: the working set, as gathered, becomes the roster
    /// to publish.
    pub fn finish(self) -> (r: Roster)
        requires
            self.wf(),
        ensures
            r@ == self@,
            r.wf(),
    {
        Roster { devices: self.devices }
    }
}

/// Folding an arrival keeps addresses unique and at most one record
/// connected.
pub proof fn lemma_apply_added_wf(s: Seq<DeviceInfo>, d: DeviceInfo)
    requires
        unique_addrs(s),
        at_most_one_connected(s),
    ensures
        unique_addrs(apply_event_spec(s, ScanEvent::Added(d))),
        at_most_one_connected(apply_event_spec(s, ScanEvent::Added(d))),
{
    let r = apply_event_spec(s, ScanEvent::Added(d));
    let base = if d.connected {
        all_cleared(s)
    } else {
        s
    };
    assert(base.len() == s.len());
    assert(forall|k: int| 0 <= k < s.len() ==> base[k].addr == s[k].addr);
    assert(forall|k: int, l: int|
        0 <= k < l < base.len() ==> !(base[k].connected && base[l].connected));
    if has_addr(s, d.addr) {
        let i = addr_index(s, d.addr);
        assert(0 <= i < s.len() && s[i].addr == d.addr);
        assert(forall|k: int| 0 <= k < r.len() && k != i ==> r[k] == base[k]);
        assert(r[i] == d);
        assert(unique_addrs(r));
        if d.connected {
            assert(forall|k: int| 0 <= k < r.len() && k != i ==> !r[k].connected);
        }
        assert(at_most_one_connected(r));
    } else {
        assert(forall|k: int| 0 <= k < s.len() ==> r[k] == base[k]);
        assert(r[s.len() as int] == d);
        assert(forall|k: int| 0 <= k < s.len() ==> r[k].addr != d.addr);
        assert(unique_addrs(r));
        if d.connected {
            assert(forall|k: int| 0 <= k < s.len() ==> !r[k].connected);
        }
        assert(at_most_one_connected(r));
    }
}

/// Folding a departure keeps addresses unique and at most one record
/// connected.
pub proof fn lemma_apply_removed_wf(s: Seq<DeviceInfo>, a: u64)
    requires
        unique_addrs(s),
        at_most_one_connected(s),
    ensures
        unique_addrs(apply_event_spec(s, ScanEvent::Removed(a))),
        at_most_one_connected(apply_event_spec(s, ScanEvent::Removed(a))),
{
    let r = apply_event_spec(s, ScanEvent::Removed(a));
    if has_addr(s, a) {
        let i = addr_index(s, a);
        assert(0 <= i < s.len() && s[i].addr == a);
        s.remove_ensures(i);
        assert forall|k: int, l: int| 0 <= k < l < r.len() implies r[k].addr != r[l].addr by {
            let k0 = if k < i { k } else { k + 1 };
            let l0 = if l < i { l } else { l + 1 };
            assert(r[k] == s[k0] && r[l] == s[l0]);
        }
        assert forall|k: int, l: int|
            0 <= k < l < r.len() implies !(r[k].connected && r[l].connected) by {
            let k0 = if k < i { k } else { k + 1 };
            let l0 = if l < i { l } else { l + 1 };
            assert(r[k] == s[k0] && r[l] == s[l0]);
        }
    }
}

/// Which addresses one event leaves present: an arrival adds its address,
/// a departure (with unique addresses) deletes exactly its own.
pub proof fn lemma_apply_membership(s: Seq<DeviceInfo>, ev: ScanEvent, a: u64)
    requires
        unique_addrs(s),
    ensures
        has_addr(apply_event_spec(s, ev), a) <==> (match ev {
            ScanEvent::Added(d) => a == d.addr || has_addr(s, a),
            ScanEvent::Removed(x) => a != x && has_addr(s, a),
        }),
{
    let r = apply_event_spec(s, ev);
    match ev {
        ScanEvent::Added(d) => {
            let base = if d.connected {
                all_cleared(s)
            } else {
                s
            };
            assert(base.len() == s.len());
            assert(forall|k: int| 0 <= k < s.len() ==> base[k].addr == s[k].addr);
            if has_addr(s, d.addr) {
                let i = addr_index(s, d.addr);
                assert(0 <= i < s.len() && s[i].addr == d.addr);
                assert(forall|k: int| 0 <= k < r.len() ==> r[k].addr == s[k].addr);
                if has_addr(r, a) {
                    let k = choose|k: int| 0 <= k < r.len() && r[k].addr == a;
                    assert(s[k].addr == a);
                    assert(has_addr(s, a));
                }
                if a == d.addr {
                    assert(has_addr(s, a));
                }
                if has_addr(s, a) {
                    let k = choose|k: int| 0 <= k < s.len() && s[k].addr == a;
                    assert(r[k].addr == a);
                    assert(has_addr(r, a));
                }
            } else {
                assert(r.len() == s.len() + 1);
                assert(forall|k: int| 0 <= k < s.len() ==> r[k].addr == s[k].addr);
                assert(r[s.len() as int].addr == d.addr);
                if has_addr(r, a) {
                    let k = choose|k: int| 0 <= k < r.len() && r[k].addr == a;
                    if k < s.len() {
                        assert(s[k].addr == a);
                        assert(has_addr(s, a));
                    } else {
                        assert(a == d.addr);
                    }
                }
                if a == d.addr {
                    assert(r[s.len() as int].addr == a);
                    assert(has_addr(r, a));
                }
                if has_addr(s, a) {
                    let k = choose|k: int| 0 <= k < s.len() && s[k].addr == a;
                    assert(r[k].addr == a);
                    assert(has_addr(r, a));
                }
            }
        },
        ScanEvent::Removed(x) => {
            if has_addr(s, x) {
                let i = addr_index(s, x);
                assert(0 <= i < s.len() && s[i].addr == x);
                s.remove_ensures(i);
                if has_addr(r, a) {
                    let k = choose|k: int| 0 <= k < r.len() && r[k].addr == a;
                    let k0 = if k < i {
                        k
                    } else {
                        k + 1
                    };
                    assert(r[k] == s[k0]);
                    assert(has_addr(s, a));
                    assert(k0 != i);
                    assert(a != x);
                }
                if a != x && has_addr(s, a) {
                    let k0 = choose|k: int| 0 <= k < s.len() && s[k].addr == a;
                    assert(k0 != i);
                    if k0 < i {
                        assert(r[k0] == s[k0]);
                    } else {
                        assert(r[k0 - 1] == s[k0]);
                    }
                    assert(has_addr(r, a));
                }
            } else {
                if a == x {
                    assert(!has_addr(s, a));
                }
            }
        },
    }
}

/// How presence at the close of a window unfolds over its last event: the
/// device survives the whole window exactly when the last event adds it, or
/// it survived everything before and the last event does not remove it.
pub proof fn lemma_survives_step(evs: Seq<ScanEvent>, a: u64)
    requires
        evs.len() > 0,
    ensures
        survives(evs, a) == (adds(evs.last(), a) || (!removes(evs.last(), a) && survives(
            evs.drop_last(),
            a,
        ))),
{
    let n = evs.len() as int;
    let dl = evs.drop_last();
    if adds(evs.last(), a) {
        assert(0 <= n - 1 < evs.len() && adds(evs[n - 1], a) && (forall|j: int|
            n - 1 < j < evs.len() ==> !removes(evs[j], a)));
        assert(survives(evs, a));
    }
    if !removes(evs.last(), a) && survives(dl, a) {
        let i = choose|i: int|
            0 <= i < dl.len() && adds(dl[i], a) && (forall|j: int|
                i < j < dl.len() ==> !removes(dl[j], a));
        assert(dl[i] == evs[i]);
        assert forall|j: int| i < j < evs.len() implies !removes(evs[j], a) by {
            if j < n - 1 {
                assert(dl[j] == evs[j]);
                assert(!removes(dl[j], a));
            } else {
                assert(evs[j] == evs.last());
            }
        }
        assert(0 <= i < evs.len() && adds(evs[i], a));
        assert(survives(evs, a));
    }
    if survives(evs, a) {
        let i = choose|i: int|
            0 <= i < evs.len() && adds(evs[i], a) && (forall|j: int|
                i < j < evs.len() ==> !removes(evs[j], a));
        if i == n - 1 {
            assert(adds(evs.last(), a));
        } else {
            assert(!removes(evs[n - 1], a));
            assert(dl[i] == evs[i]);
            assert(adds(dl[i], a));
            assert forall|j: int| i < j < dl.len() implies !removes(dl[j], a) by {
                assert(dl[j] == evs[j]);
            }
            assert(survives(dl, a));
        }
    }
}

/// Law of the scan window: for any sequence of arrival and departure events
/// observed within one window, the sequence the fold leaves behind — the
/// roster published at `Finished` — holds exactly the devices that were
/// added and not subsequently removed, each under its identifier exactly
/// once, with never more than one record marked connected.
pub proof fn lemma_scan_window_roster(evs: Seq<ScanEvent>, a: u64)
    ensures
        unique_addrs(run_events(evs)),
        at_most_one_connected(run_events(evs)),
        has_addr(run_events(evs), a) <==> survives(evs, a),
    decreases evs.len(),
{
    if evs.len() == 0 {
        assert(run_events(evs).len() == 0);
        assert(!survives(evs, a));
    } else {
        let pre = run_events(evs.drop_last());
        lemma_scan_window_roster(evs.drop_last(), a);
        match evs.last() {
            ScanEvent::Added(d) => {
                lemma_apply_added_wf(pre, d);
            },
            ScanEvent::Removed(x) => {
                lemma_apply_removed_wf(pre, x);
            },
        }
        lemma_apply_membership(pre, evs.last(), a);
        lemma_survives_step(evs, a);
    }
}

} // verus!
