//! Channel names used on the message bus.
//!
//! Two bootstrap channels are keyed by the device's hardware address, and
//! two information channels are keyed by the currently bound bench
//! identifier. All four follow fixed templates.

use vstd::prelude::*;

verus! {

/// Channel announcing the bench identity assigned to the device with
/// hardware address `mac`.
pub open spec fn spec_bench_topic(mac: Seq<char>) -> Seq<char> {
    "display/serial/"@ + mac + "/bench"@
}

/// Channel on which the device publishes its own network address.
pub open spec fn spec_ip_topic(mac: Seq<char>) -> Seq<char> {
    "display/serial/"@ + mac + "/ip"@
}

/// Channel carrying the free-text description of bench `id`.
pub open spec fn spec_description_topic(id: Seq<char>) -> Seq<char> {
    "benches/"@ + id + "/description"@
}

/// Channel carrying the software version installed on bench `id`.
pub open spec fn spec_software_topic(id: Seq<char>) -> Seq<char> {
    "diagnosis/"@ + id + "/software"@
}

pub fn bench_topic(mac: &str) -> (r: String)
    ensures
        r@ == spec_bench_topic(mac@),
{
    let mut s = String::from_str("display/serial/");
    s.append(mac);
    s.append("/bench");
    s
}

pub fn ip_topic(mac: &str) -> (r: String)
    ensures
        r@ == spec_ip_topic(mac@),
{
    let mut s = String::from_str("display/serial/");
    s.append(mac);
    s.append("/ip");
    s
}

pub fn description_topic(id: &str) -> (r: String)
    ensures
        r@ == spec_description_topic(id@),
{
    let mut s = String::from_str("benches/");
    s.append(id);
    s.append("/description");
    s
}

pub fn software_topic(id: &str) -> (r: String)
    ensures
        r@ == spec_software_topic(id@),
{
    let mut s = String::from_str("diagnosis/");
    s.append(id);
    s.append("/software");
    s
}

} // verus!
