//! Device records and the fold that assembles one from reported properties.

use vstd::prelude::*;

verus! {

/// One remote device as the panel knows it: the hardware address (48 bits,
/// held in a `u64`) is the only identity key; the display name may be empty,
/// in which case the front end falls back to showing the address.
pub struct DeviceInfo {
    pub addr: u64,
    pub name: String,
    pub paired: bool,
    pub connected: bool,
}

impl Clone for DeviceInfo {
    fn clone(&self) -> (r: Self)
        ensures
            r == *self,
    {
        DeviceInfo {
            addr: self.addr,
            name: self.name.clone(),
            paired: self.paired,
            connected: self.connected,
        }
    }
}

impl DeviceInfo {
    /// The label the front end shows: the advertised name, or nothing when
    /// none was advertised — the caller then falls back to rendering the
    /// address.
    pub fn display_name(&self) -> (r: Option<&String>)
        ensures
            r == if self.name@.len() == 0 {
                Option::<&String>::None
            } else {
                Some(&self.name)
            },
    {
        if self.name.as_str().is_empty() {
            None
        } else {
            Some(&self.name)
        }
    }
}

/// One property of a remote device as reported by the platform Bluetooth
/// stack during discovery; properties the panel does not read collapse to
/// `Other`.
pub enum DeviceProp {
    Name(String),
    Paired(bool),
    Connected(bool),
    Other,
}

/// The display name a property list yields: the last `Name` wins, absent a
/// `Name` the empty string.
pub open spec fn props_name(ps: Seq<DeviceProp>) -> Seq<char>
    decreases ps.len(),
{
    if ps.len() == 0 {
        Seq::empty()
    } else {
        match ps.last() {
            DeviceProp::Name(n) => n@,
            _ => props_name(ps.drop_last()),
        }
    }
}

/// The paired flag a property list yields: the last `Paired` wins, default
/// `false`.
pub open spec fn props_paired(ps: Seq<DeviceProp>) -> bool
    decreases ps.len(),
{
    if ps.len() == 0 {
        false
    } else {
        match ps.last() {
            DeviceProp::Paired(b) => b,
            _ => props_paired(ps.drop_last()),
        }
    }
}

/// The connected flag a property list yields: the last `Connected` wins,
/// default `false`.
pub open spec fn props_connected(ps: Seq<DeviceProp>) -> bool
    decreases ps.len(),
{
    if ps.len() == 0 {
        false
    } else {
        match ps.last() {
            DeviceProp::Connected(b) => b,
            _ => props_connected(ps.drop_last()),
        }
    }
}

/// Assembles the record for a newly discovered device from its address and
/// the property list the platform stack handed back: the last reported value
/// of each property wins, and properties never reported default to an empty
/// name and cleared flags.
pub fn device_info_from_props(addr: u64, props: &Vec<DeviceProp>) -> (info: DeviceInfo)
    ensures
        info.addr == addr,
        info.name@ == props_name(props@),
        info.paired == props_paired(props@),
        info.connected == props_connected(props@),
{
    let mut info = DeviceInfo { addr, name: String::new(), paired: false, connected: false };
    let mut i: usize = 0;
    while i < props.len()
        invariant
            i <= props.len(),
            info.addr == addr,
            info.name@ == props_name(props@.take(i as int)),
            info.paired == props_paired(props@.take(i as int)),
            info.connected == props_connected(props@.take(i as int)),
        decreases props.len() - i,
    {
        match &props[i] {
            DeviceProp::Name(n) => {
                info.name = n.clone();
            },
            DeviceProp::Paired(b) => {
                info.paired = *b;
            },
            DeviceProp::Connected(b) => {
                info.connected = *b;
            },
            DeviceProp::Other => {},
        }
        proof {
            assert(props@.take(i + 1).drop_last() =~= props@.take(i as int));
            assert(props@.take(i + 1).last() == props@[i as int]);
        }
        i = i + 1;
    }
    proof {
        assert(props@.take(props@.len() as int) =~= props@);
    }
    info
}

} // verus!
