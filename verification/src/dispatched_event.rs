//! The type-erased envelope that carries one dispatched event.

use vstd::prelude::*;

verus! {

/// The mathematical content of a [`DispatchedEvent`]: the event-type token
/// and the encoded payload bytes.
pub ghost struct EnvelopeModel {
    pub type_id: Seq<char>,
    pub payload: Seq<u8>,
}

/// The transport unit of the bus: one event instance, type-erased.
///
/// It pairs the event-type token (a stable name derived from the event's
/// concrete type) with the payload the codec produced for the event value.
/// An envelope is immutable once constructed; fan-out shares it by cloning.
pub struct DispatchedEvent {
    event_type: String,
    payload: Vec<u8>,
}

impl View for DispatchedEvent {
    type V = EnvelopeModel;

    closed spec fn view(&self) -> EnvelopeModel {
        EnvelopeModel { type_id: self.event_type@, payload: self.payload@ }
    }
}

impl DispatchedEvent {
    /// Wraps an encoded payload together with its event-type token.
    pub fn new(event_type: String, payload: Vec<u8>) -> (r: Self)
        ensures
            r@.type_id == event_type@,
            r@.payload == payload@,
    {
        DispatchedEvent { event_type, payload }
    }

    /// The event-type token this envelope was built for.
    pub fn event_type(&self) -> (r: &String)
        ensures
            r@ == self@.type_id,
    {
        &self.event_type
    }

    /// The encoded payload; a handler decodes it to its expected event type.
    pub fn data(&self) -> (r: &Vec<u8>)
        ensures
            r@ == self@.payload,
    {
        &self.payload
    }

    /// Gives up the envelope and hands the payload bytes out.
    pub fn into_data(self) -> (r: Vec<u8>)
        ensures
            r@ == self@.payload,
    {
        self.payload
    }

    /// Decodes the payload back to the concrete event type a handler
    /// expects; `None` when the payload does not match that type's shape.
    /// Relies on serde_json::from_slice; what it returns depends on the
    /// type's own decode rules, so nothing is claimed of the result.
    #[verifier::external_body]
    pub fn the_event<T: serde::de::DeserializeOwned>(&self) -> Option<T> {
        serde_json::from_slice(&self.payload).ok()
    }
}

impl Clone for DispatchedEvent {
    fn clone(&self) -> (r: Self)
        ensures
            r@ == self@,
    {
        DispatchedEvent { event_type: self.event_type.clone(), payload: clone_bytes(&self.payload) }
    }
}

fn clone_bytes(v: &Vec<u8>) -> (r: Vec<u8>)
    ensures
        r@ == v@,
{
    let mut out: Vec<u8> = Vec::new();
    let mut i: usize = 0;
    while i < v.len()
        invariant
            i <= v@.len(),
            out@ == v@.take(i as int),
        decreases v@.len() - i,
    {
        out.push(v[i]);
        proof {
            assert(v@.take(i + 1 as int) =~= v@.take(i as int).push(v@[i as int]));
        }
        i = i + 1;
    }
    proof {
        assert(v@.take(v@.len() as int) =~= v@);
    }
    out
}

} // verus!
