//! Static configuration of the device and what is derived from it.

use vstd::prelude::*;

verus! {

/// The values the device is flashed with: network credentials and the
/// broker to reach.
pub struct Config {
    pub wifi_ssid: String,
    pub wifi_psk: String,
    pub mqtt_host: String,
    pub mqtt_user: String,
    pub mqtt_pass: String,
}

/// The broker address: credentials are woven in only when a user is
/// configured.
pub open spec fn spec_broker_url(user: Seq<char>, pass: Seq<char>, host: Seq<char>) -> Seq<char> {
    if user.len() == 0 {
        "mqtt://"@ + host
    } else {
        "mqtt://"@ + user + ":"@ + pass + "@"@ + host
    }
}

impl Config {
    /// The address under which the configured broker is reached, with the
    /// configured credentials woven in when a user is set.
    pub fn broker_url(&self) -> (r: String)
        ensures
            r@ == spec_broker_url(self.mqtt_user@, self.mqtt_pass@, self.mqtt_host@),
    {
        if self.mqtt_user.as_str().is_empty() {
            let mut s = String::from_str("mqtt://");
            s.append(self.mqtt_host.as_str());
            s
        } else {
            let mut s = String::from_str("mqtt://");
            s.append(self.mqtt_user.as_str());
            s.append(":");
            s.append(self.mqtt_pass.as_str());
            s.append("@");
            s.append(self.mqtt_host.as_str());
            s
        }
    }
}

} // verus!
