//! The device roster: the published sequence of known remote devices.

use vstd::prelude::*;
use crate::device::DeviceInfo;

verus! {

/// Whether some record in `s` carries address `a`.
pub open spec fn has_addr(s: Seq<DeviceInfo>, a: u64) -> bool {
    exists|i: int| 0 <= i < s.len() && s[i].addr == a
}

/// The index of the record carrying address `a` (meaningful when addresses
/// are unique and `a` is present).
pub open spec fn addr_index(s: Seq<DeviceInfo>, a: u64) -> int {
    choose|i: int| 0 <= i < s.len() && s[i].addr == a
}

/// No two records share an address: each device appears at most once.
pub open spec fn unique_addrs(s: Seq<DeviceInfo>) -> bool {
    forall|i: int, j: int| 0 <= i < j < s.len() ==> s[i].addr != s[j].addr
}

/// At most one record is marked connected.
pub open spec fn at_most_one_connected(s: Seq<DeviceInfo>) -> bool {
    forall|i: int, j: int| 0 <= i < j < s.len() ==> !(s[i].connected && s[j].connected)
}

/// Whether some record in `s` is marked connected.
pub open spec fn some_connected(s: Seq<DeviceInfo>) -> bool {
    exists|i: int| 0 <= i < s.len() && s[i].connected
}

/// The published roster: an ordered sequence of device records, replaced
/// wholesale on every publish and never mutated in place by a reader.
pub struct Roster {
    pub devices: Vec<DeviceInfo>,
}

impl View for Roster {
    type V = Seq<DeviceInfo>;

    open spec fn view(&self) -> Seq<DeviceInfo> {
        self.devices@
    }
}

impl Roster {
    /// Well-formedness: addresses identify records uniquely, and at most one
    /// record is marked connected.
    pub open spec fn wf(&self) -> bool {
        unique_addrs(self@) && at_most_one_connected(self@)
    }

    /// The empty roster every run starts from.
    pub fn new() -> (r: Roster)
        ensures
            r@.len() == 0,
            r.wf(),
    {
        Roster { devices: Vec::new() }
    }

    pub fn len(&self) -> (n: usize)
        ensures
            n == self@.len(),
    {
        self.devices.len()
    }

    pub fn is_empty(&self) -> (b: bool)
        ensures
            b == (self@.len() == 0),
    {
        self.devices.len() == 0
    }

    pub fn get(&self, i: usize) -> (d: &DeviceInfo)
        requires
            i < self@.len(),
        ensures
            *d == self@[i as int],
    {
        &self.devices[i]
    }

    /// The position of the record currently marked connected, if any.
    pub fn connected_index(&self) -> (r: Option<usize>)
        ensures
            match r {
                Some(i) => i < self@.len() && self@[i as int].connected,
                None => forall|k: int| 0 <= k < self@.len() ==> !self@[k].connected,
            },
    {
        let mut i: usize = 0;
        while i < self.devices.len()
            invariant
                i <= self.devices.len(),
                forall|k: int| 0 <= k < i ==> !self@[k].connected,
            decreases self.devices.len() - i,
        {
            if self.devices[i].connected {
                return Some(i);
            }
            i = i + 1;
        }
        None
    }

    /// Whether any record is currently marked connected.
    pub fn any_connected(&self) -> (b: bool)
        ensures
            b == some_connected(self@),
    {
        match self.connected_index() {
            Some(_) => true,
            None => false,
        }
    }

    /// A record-for-record copy, e.g. the working copy the connection worker
    /// takes before touching the adapter.
    pub fn duplicate(&self) -> (r: Roster)
        ensures
            r@ == self@,
    {
        let mut devices: Vec<DeviceInfo> = Vec::new();
        let mut i: usize = 0;
        while i < self.devices.len()
            invariant
                i <= self.devices.len(),
                devices@ =~= self@.take(i as int),
            decreases self.devices.len() - i,
        {
            devices.push(self.devices[i].clone());
            i = i + 1;
        }
        proof {
            assert(self@.take(self@.len() as int) =~= self@);
        }
        Roster { devices }
    }
}

/// Law of the single connection: in any well-formed roster — and every
/// roster this library publishes is one — no two records are marked
/// connected at once.
pub proof fn lemma_single_connection(r: Roster, i: int, j: int)
    requires
        r.wf(),
        0 <= i < r@.len(),
        0 <= j < r@.len(),
        i != j,
    ensures
        !(r@[i].connected && r@[j].connected),
{
}

} // verus!
