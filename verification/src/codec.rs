use vstd::prelude::*;

use crate::errors::CustomRedisError;

verus! {

/// The byte envelope that the legacy consumer expects: the pickle
/// serialization of a string value, protocol header and stop marker
/// included. The exact bytes are fixed by the outside codec; contracts
/// only relate them to the string they carry.
pub uninterp spec fn pickle_envelope(s: Seq<char>) -> Seq<u8>;

/// The string carried by a byte envelope, if the bytes deserialize as
/// the pickle serialization of a single string; `None` where they do
/// not. A pure function of the bytes alone.
pub uninterp spec fn unpickled_string(b: Seq<u8>) -> Option<Seq<char>>;

/// Relies on serde_pickle::to_vec with the default options: a string
/// serializes as a protocol header, one unicode-string opcode with a
/// 4-byte length, the UTF-8 payload and a stop marker. Writing into a
/// `Vec` cannot fail, and serde_pickle::from_slice reads the stream
/// back to the same string. The length bound keeps the UTF-8 payload
/// under the 4-byte length field's capacity.
#[verifier::external_body]
fn encode_envelope(v: &str) -> (r: Vec<u8>)
    requires
        v@.len() < 0x4000_0000,
    ensures
        r@ == pickle_envelope(v@),
        r@.len() > 0,
        unpickled_string(r@) == Some(v@),
{
    serde_pickle::to_vec(&v, serde_pickle::SerOptions::new()).unwrap()
}

/// Relies on serde_pickle::from_slice with the default options: it
/// either reads the whole slice as the pickle serialization of one
/// string or reports an error, as a pure function of the bytes alone.
#[verifier::external_body]
fn decode_envelope(b: &[u8]) -> (r: Result<String, String>)
    ensures
        r is Ok <==> unpickled_string(b@) is Some,
        r is Ok ==> Some(r->Ok_0@) == unpickled_string(b@),
{
    match serde_pickle::from_slice::<String>(b, serde_pickle::DeOptions::new()) {
        Ok(s) => Ok(s),
        Err(e) => Err(e.to_string()),
    }
}

/// Encode a string value into the legacy byte envelope that the store
/// keeps for scalar values.
pub fn encode_value(v: &str) -> (r: Vec<u8>)
    requires
        v@.len() < 0x4000_0000,
    ensures
        r@ == pickle_envelope(v@),
        r@.len() > 0,
        unpickled_string(r@) == Some(v@),
{
    encode_envelope(v)
}

/// Decode a byte envelope back into the string value it carries;
/// bytes that are not a string's envelope give `PickleError`.
pub fn decode_value(b: &[u8]) -> (r: Result<String, CustomRedisError>)
    ensures
        r is Ok <==> unpickled_string(b@) is Some,
        r is Ok ==> Some(r->Ok_0@) == unpickled_string(b@),
        r is Err ==> r->Err_0 is PickleError,
{
    match decode_envelope(b) {
        Ok(s) => Ok(s),
        Err(m) => Err(CustomRedisError::PickleError(m)),
    }
}

/// Round-trip law for the envelope codec: decoding the envelope
/// produced by encoding `v` yields `v` exactly.
pub fn envelope_round_trip(v: &str) -> (r: Result<String, CustomRedisError>)
    requires
        v@.len() < 0x4000_0000,
    ensures
        r is Ok,
        r->Ok_0@ == v@,
{
    let bytes = encode_value(v);
    decode_value(bytes.as_slice())
}

} // verus!
