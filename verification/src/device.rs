//! Devices as the router reports them, and the search for the tracked one.

use vstd::prelude::*;

verus! {

/// One entry of the router's device list.
#[derive(Clone, Debug, PartialEq, Eq)]
pub struct Device {
    pub display_name: String,
    pub connected: bool,
}

/// A `Device` as a mathematical value.
pub struct DeviceView {
    pub display_name: Seq<char>,
    pub connected: bool,
}

impl View for Device {
    type V = DeviceView;

    open spec fn view(&self) -> DeviceView {
        DeviceView { display_name: self.display_name@, connected: self.connected }
    }
}

/// The views of a list of devices, in list order.
pub open spec fn device_views(devices: Seq<Device>) -> Seq<DeviceView> {
    devices.map_values(|d: Device| d@)
}

/// Entry `i` carries the name `name`, and no entry before it does.
pub open spec fn is_first_match(devices: Seq<DeviceView>, name: Seq<char>, i: int) -> bool {
    &&& 0 <= i < devices.len()
    &&& devices[i].display_name == name
    &&& forall|j: int| 0 <= j < i ==> (#[trigger] devices[j]).display_name != name
}

/// The index of the tracked device: the first entry whose display name
/// equals `name` exactly, if there is one.
pub open spec fn tracked_index(devices: Seq<DeviceView>, name: Seq<char>) -> Option<int> {
    if exists|i: int| is_first_match(devices, name, i) {
        Some(choose|i: int| is_first_match(devices, name, i))
    } else {
        None
    }
}

/// The tracked device itself.
pub open spec fn tracked_device(devices: Seq<DeviceView>, name: Seq<char>) -> Option<DeviceView> {
    match tracked_index(devices, name) {
        Some(i) => Some(devices[i]),
        None => None,
    }
}

/// Some entry of the list carries the name.
pub open spec fn has_device(devices: Seq<DeviceView>, name: Seq<char>) -> bool {
    exists|i: int| 0 <= i < devices.len() && (#[trigger] devices[i]).display_name == name
}

/// A first match is the only first match.
pub proof fn lemma_first_match_unique(devices: Seq<DeviceView>, name: Seq<char>, i: int, k: int)
    requires
        is_first_match(devices, name, i),
        is_first_match(devices, name, k),
    ensures
        i == k,
{
}

/// Among the first `n` entries either none matches or one is the first to.
proof fn lemma_first_match_in_prefix(devices: Seq<DeviceView>, name: Seq<char>, n: int)
    requires
        0 <= n <= devices.len(),
    ensures
        (exists|i: int| 0 <= i < n && is_first_match(devices, name, i)) || (forall|j: int|
            0 <= j < n ==> (#[trigger] devices[j]).display_name != name),
    decreases n,
{
    if n > 0 {
        lemma_first_match_in_prefix(devices, name, n - 1);
        if !(exists|i: int| 0 <= i < n - 1 && is_first_match(devices, name, i)) && devices[n
            - 1].display_name == name {
            assert(is_first_match(devices, name, n - 1));
        }
    }
}

/// The tracked device exists exactly when the list holds the name, and it
/// is then the first entry that does.
pub proof fn lemma_tracked_index(devices: Seq<DeviceView>, name: Seq<char>)
    ensures
        tracked_index(devices, name) is Some <==> has_device(devices, name),
        tracked_index(devices, name) matches Some(i) ==> is_first_match(devices, name, i),
        forall|i: int|
            is_first_match(devices, name, i) ==> tracked_index(devices, name) == Some(i),
{
    lemma_first_match_in_prefix(devices, name, devices.len() as int);
    assert forall|i: int| is_first_match(devices, name, i) implies tracked_index(devices, name)
        == Some(i) by {
        let k = choose|k: int| is_first_match(devices, name, k);
        lemma_first_match_unique(devices, name, i, k);
    }
}

/// Searches the list front to back for the device called `name`.
pub fn find_device(devices: &Vec<Device>, name: &String) -> (found: Option<usize>)
    ensures
        match found {
            Some(i) => tracked_index(device_views(devices@), name@) == Some(i as int),
            None => tracked_index(device_views(devices@), name@) is None,
        },
{
    let ghost views = device_views(devices@);
    let mut i: usize = 0;
    while i < devices.len()
        invariant
            i <= devices.len(),
            views == device_views(devices@),
            forall|j: int| 0 <= j < i ==> (#[trigger] views[j]).display_name != name@,
        decreases devices.len() - i,
    {
        if devices[i].display_name == *name {
            proof {
                assert(is_first_match(views, name@, i as int));
                lemma_tracked_index(views, name@);
            }
            return Some(i);
        }
        i += 1;
    }
    proof {
        lemma_tracked_index(views, name@);
    }
    None
}

} // verus!
