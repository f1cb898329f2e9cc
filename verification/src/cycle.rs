//! One poll cycle: from the device list to what, if anything, is published.

use vstd::prelude::*;
use crate::config::AppConfig;
use crate::device::{
    device_views, find_device, has_device, is_first_match, lemma_tracked_index, tracked_device,
    tracked_index, Device, DeviceView,
};
use crate::error::CycleError;
use crate::message::{state_publication, DeviceConnected, Publication, PublicationView};

verus! {

/// What a poll cycle does once it has found the tracked device: it
/// publishes the message for the device's state, or fails where that
/// message cannot be serialized.
pub open spec fn report_state(device_name: Seq<char>, is_connected: bool) -> Result<
    Option<PublicationView>,
    CycleError,
> {
    match state_publication(device_name, is_connected) {
        Some(publication) => Ok(Some(publication)),
        None => Err(CycleError::Serialize),
    }
}

/// What one poll cycle does with a device list.
///
/// `Ok(Some(p))`: the tracked device is in the list and `p` reports its
/// state. `Ok(None)`: the device is not in the list, nothing is published
/// and a warning is due. `Err(_)`: the state could not be serialized.
pub open spec fn plan_cycle(devices: Seq<DeviceView>, device_name: Seq<char>) -> Result<
    Option<PublicationView>,
    CycleError,
> {
    match tracked_device(devices, device_name) {
        None => Ok(None),
        Some(device) => report_state(device_name, device.connected),
    }
}

/// The plan that an executable result stands for.
pub open spec fn plan_view(r: Result<Option<Publication>, CycleError>) -> Result<
    Option<PublicationView>,
    CycleError,
> {
    match r {
        Ok(Some(publication)) => Ok(Some(publication@)),
        Ok(None) => Ok(None),
        Err(e) => Err(e),
    }
}

/// Looks for the configured device in `devices` and, if it is there, builds
/// the message that reports whether it is connected.
pub fn check_for_device(devices: &Vec<Device>, config: &AppConfig) -> (r: Result<
    Option<Publication>,
    CycleError,
>)
    ensures
        plan_view(r) == plan_cycle(device_views(devices@), config.device_name@),
{
    match find_device(devices, &config.device_name) {
        None => Ok(None),
        Some(i) => {
            let device = &devices[i];
            let msg = DeviceConnected {
                device_name: config.device_name.clone(),
                is_connected: device.connected,
            };
            match msg.to_publication() {
                Ok(p) => Ok(Some(p)),
                Err(e) => Err(e),
            }
        },
    }
}

/// A list that holds the tracked device gives one message, which carries
/// the `connected` flag of the first entry of that name; a list that does
/// not hold it gives none. The message fails to materialize only where the
/// name cannot be serialized.
pub proof fn lemma_one_publish_iff_device_listed(devices: Seq<DeviceView>, device_name: Seq<char>)
    ensures
        !has_device(devices, device_name) ==> plan_cycle(devices, device_name) matches Ok(None),
        has_device(devices, device_name) ==> exists|i: int|
            is_first_match(devices, device_name, i) && plan_cycle(devices, device_name)
                == report_state(device_name, devices[i].connected),
{
    lemma_tracked_index(devices, device_name);
    if has_device(devices, device_name) {
        assert(is_first_match(devices, device_name, tracked_index(devices, device_name)->0));
    }
}

/// Two cycles that see the tracked device in the same state give identical
/// messages, whatever else their device lists hold: nothing is remembered
/// from one cycle to the next.
pub proof fn lemma_same_state_same_message(
    first: Seq<DeviceView>,
    second: Seq<DeviceView>,
    device_name: Seq<char>,
)
    requires
        tracked_device(first, device_name) is Some,
        tracked_device(second, device_name) is Some,
        tracked_device(first, device_name)->0.connected == tracked_device(
            second,
            device_name,
        )->0.connected,
    ensures
        plan_cycle(first, device_name) == plan_cycle(second, device_name),
{
}

} // verus!
