//! Events the coordinator consumes.
//!
//! The event source turns every low-level frame of the bus connection into
//! one of two event kinds and hands them over in arrival order. Payload
//! bytes are decoded as text; invalid sequences are substituted, never
//! rejected.

use vstd::prelude::*;
use vstd::utf8::{encode_utf8, valid_utf8};

verus! {

/// One abstract occurrence on the bus connection, consumed exactly once.
pub enum Event {
    /// The connection handshake completed.
    Connected,
    /// A message arrived: channel name and decoded payload text.
    Received(String, String),
}

/// Mathematical image of an [`Event`], over character sequences.
pub enum EventModel {
    Connected,
    Received(Seq<char>, Seq<char>),
}

impl View for Event {
    type V = EventModel;

    open spec fn view(&self) -> EventModel {
        match self {
            Event::Connected => EventModel::Connected,
            Event::Received(topic, payload) => EventModel::Received(topic@, payload@),
        }
    }
}

impl DeepView for Event {
    type V = EventModel;

    open spec fn deep_view(&self) -> EventModel {
        self.view()
    }
}

/// The text that lossy UTF-8 decoding makes of `bytes`: a function of the
/// bytes alone, with every invalid sequence replaced.
pub uninterp spec fn utf8_lossy_of(bytes: Seq<u8>) -> Seq<char>;

/// Relies on `String::from_utf8_lossy`: the decoded text is a function of
/// the bytes alone, valid UTF-8 input is kept unchanged, and empty input
/// decodes to the empty string.
#[verifier::external_body]
fn decode_payload(bytes: &[u8]) -> (r: String)
    ensures
        r@ == utf8_lossy_of(bytes@),
        valid_utf8(bytes@) ==> encode_utf8(r@) == bytes@,
        bytes@.len() == 0 ==> r@.len() == 0,
{
    String::from_utf8_lossy(bytes).into_owned()
}

/// Builds the event for a message frame: the channel it arrived on,
/// together with its payload bytes decoded as text.
pub fn received_event(topic: &str, payload: &[u8]) -> (e: Event)
    ensures
        e@ == EventModel::Received(topic@, utf8_lossy_of(payload@)),
{
    let text = decode_payload(payload);
    Event::Received(String::from_str(topic), text)
}

} // verus!
