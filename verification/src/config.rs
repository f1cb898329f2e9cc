//! The configuration record.

use vstd::prelude::*;
use vstd::string::*;

verus! {

/// The settings read once at startup.
#[derive(Clone, Debug, PartialEq, Eq)]
pub struct AppConfig {
    /// Access token for the router API.
    pub user_token: String,
    /// The network whose devices are listed.
    pub network_id: String,
    /// Length of a poll period, in seconds.
    pub period_s: u64,
    /// Display name of the tracked device.
    pub device_name: String,
    /// `host:port` of the broker.
    pub mqtt_socket_addr: String,
}

/// An `AppConfig` as a mathematical value.
pub struct AppConfigView {
    pub user_token: Seq<char>,
    pub network_id: Seq<char>,
    pub period_s: u64,
    pub device_name: Seq<char>,
    pub mqtt_socket_addr: Seq<char>,
}

impl View for AppConfig {
    type V = AppConfigView;

    open spec fn view(&self) -> AppConfigView {
        AppConfigView {
            user_token: self.user_token@,
            network_id: self.network_id@,
            period_s: self.period_s,
            device_name: self.device_name@,
            mqtt_socket_addr: self.mqtt_socket_addr@,
        }
    }
}

/// The broker URI for a socket address: the scheme `mqtt://` before it.
pub open spec fn broker_uri_of(mqtt_socket_addr: Seq<char>) -> Seq<char> {
    "mqtt://"@ + mqtt_socket_addr
}

impl AppConfig {
    /// The URI under which the broker is reached.
    pub fn broker_uri(&self) -> (uri: String)
        ensures
            uri@ == broker_uri_of(self.mqtt_socket_addr@),
    {
        let mut uri = String::from_str("mqtt://");
        uri.append(self.mqtt_socket_addr.as_str());
        uri
    }
}

} // verus!
