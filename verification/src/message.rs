//! The connectivity message and its wire format.

use vstd::prelude::*;
use vstd::string::*;
use crate::error::CycleError;
use crate::json::{encode_json_string, json_string};

verus! {

/// Appends `bytes` to `out`.
pub fn append_bytes(out: &mut Vec<u8>, bytes: &[u8])
    ensures
        final(out)@ == old(out)@ + bytes@,
{
    let mut i: usize = 0;
    while i < bytes.len()
        invariant
            i <= bytes.len(),
            out@ == old(out)@ + bytes@.subrange(0, i as int),
        decreases bytes.len() - i,
    {
        out.push(bytes[i]);
        i += 1;
    }
}

/// The JSON object `{"device_name":<name>,"is_connected":<bool>}` around an
/// already encoded name.
pub open spec fn payload_frame(name_json: Seq<u8>, is_connected: bool) -> Seq<u8> {
    "{\"device_name\":".spec_bytes() + name_json + ",\"is_connected\":".spec_bytes() + (if is_connected {
        "true".spec_bytes()
    } else {
        "false".spec_bytes()
    }) + "}".spec_bytes()
}

/// Builds the payload around `name_json`, the JSON string literal of the
/// device name.
pub fn frame_device_connected(name_json: &[u8], is_connected: bool) -> (payload: Vec<u8>)
    ensures
        payload@ == payload_frame(name_json@, is_connected),
{
    let mut payload: Vec<u8> = Vec::new();
    append_bytes(&mut payload, "{\"device_name\":".as_bytes());
    append_bytes(&mut payload, name_json);
    append_bytes(&mut payload, ",\"is_connected\":".as_bytes());
    if is_connected {
        append_bytes(&mut payload, "true".as_bytes());
    } else {
        append_bytes(&mut payload, "false".as_bytes());
    }
    append_bytes(&mut payload, "}".as_bytes());
    payload
}

/// The topic every message goes to.
pub const STATE_TOPIC: &'static str = "/home/shane";

/// MQTT quality of service 1: delivered at least once.
pub const QOS_AT_LEAST_ONCE: i32 = 1;

/// The wire format of a device state: the JSON object
/// `{"device_name":<string>,"is_connected":<bool>}` in UTF-8, or `None`
/// where the name cannot be serialized.
pub open spec fn wire_format(device_name: Seq<char>, is_connected: bool) -> Option<Seq<u8>> {
    match json_string(device_name) {
        Some(name_json) => Some(payload_frame(name_json, is_connected)),
        None => None,
    }
}

/// A message ready to be handed to the broker.
#[derive(Clone, Debug, PartialEq, Eq)]
pub struct Publication {
    pub topic: String,
    pub payload: Vec<u8>,
    pub qos: i32,
}

/// A `Publication` as a mathematical value.
pub struct PublicationView {
    pub topic: Seq<char>,
    pub payload: Seq<u8>,
    pub qos: int,
}

impl View for Publication {
    type V = PublicationView;

    open spec fn view(&self) -> PublicationView {
        PublicationView { topic: self.topic@, payload: self.payload@, qos: self.qos as int }
    }
}

/// The message that reports a device state: its wire format, on the fixed
/// topic, at least once.
pub open spec fn state_publication(device_name: Seq<char>, is_connected: bool) -> Option<
    PublicationView,
> {
    match wire_format(device_name, is_connected) {
        Some(payload) => Some(
            PublicationView {
                topic: STATE_TOPIC@,
                payload,
                qos: QOS_AT_LEAST_ONCE as int,
            },
        ),
        None => None,
    }
}

/// Whether the tracked device is connected, as observed in one poll cycle.
#[derive(Clone, Debug, PartialEq, Eq)]
pub struct DeviceConnected {
    pub device_name: String,
    pub is_connected: bool,
}

impl DeviceConnected {
    /// Serializes the value to its wire format.
    pub fn to_json(&self) -> (r: Result<Vec<u8>, CycleError>)
        ensures
            match r {
                Ok(payload) => wire_format(self.device_name@, self.is_connected) == Some(
                    payload@,
                ),
                Err(e) => e == CycleError::Serialize && wire_format(
                    self.device_name@,
                    self.is_connected,
                ) is None,
            },
    {
        match encode_json_string(self.device_name.as_str()) {
            Ok(name_json) => Ok(frame_device_connected(name_json.as_slice(), self.is_connected)),
            Err(_) => Err(CycleError::Serialize),
        }
    }

    /// Wraps the serialized value into the message for the broker.
    pub fn to_publication(&self) -> (r: Result<Publication, CycleError>)
        ensures
            match r {
                Ok(p) => state_publication(self.device_name@, self.is_connected) == Some(p@),
                Err(e) => e == CycleError::Serialize && state_publication(
                    self.device_name@,
                    self.is_connected,
                ) is None,
            },
    {
        match self.to_json() {
            Ok(payload) => Ok(
                Publication {
                    topic: String::from_str(STATE_TOPIC),
                    payload,
                    qos: QOS_AT_LEAST_ONCE,
                },
            ),
            Err(e) => Err(e),
        }
    }
}

} // verus!
