//! Optional-value encoding.
//!
//! The foreign side of the boundary has no native sum type, so "value or
//! absence" crosses it as a record of a presence flag and a payload slot. The
//! payload slot is meaningful only when the flag is set; encoding an absent
//! value fills the slot with a caller-chosen placeholder, and decoding reads
//! the slot only after checking the flag.

use vstd::prelude::*;

verus! {

/// The boundary representation of an optional value: a presence flag and a
/// payload that is meaningful only when `has_value` is true.
#[derive(Clone, Copy, Debug, PartialEq, Eq, Structural)]
pub struct OptValue<T> {
    pub has_value: bool,
    pub value: T,
}

/// What encoding an optional value produces: presence sets the flag and
/// stores the payload, absence clears the flag and stores the placeholder.
pub open spec fn spec_encode<T>(value: Option<T>, absent: T) -> OptValue<T> {
    match value {
        Some(v) => (OptValue { has_value: true, value: v }),
        None => (OptValue { has_value: false, value: absent }),
    }
}

/// What decoding a flagged record produces: the payload when the flag is
/// set, absence otherwise. The payload is not consulted when the flag is
/// clear.
pub open spec fn spec_decode<T>(enc: OptValue<T>) -> Option<T> {
    if enc.has_value {
        Some(enc.value)
    } else {
        None
    }
}

/// Encodes an optional value for the boundary. `absent` fills the payload
/// slot when there is no value, so the record is fully initialized either
/// way.
pub fn encode<T>(value: Option<T>, absent: T) -> (enc: OptValue<T>)
    ensures
        enc == spec_encode(value, absent),
{
    match value {
        Some(v) => OptValue { has_value: true, value: v },
        None => OptValue { has_value: false, value: absent },
    }
}

/// Decodes a flagged record from the boundary, consulting the payload only
/// when the presence flag is set.
pub fn decode<T>(enc: OptValue<T>) -> (value: Option<T>)
    ensures
        value == spec_decode(enc),
{
    if enc.has_value {
        Some(enc.value)
    } else {
        None
    }
}

/// Decoding is a total inverse of encoding: every optional value survives a
/// round trip through the boundary representation, whatever placeholder was
/// used for absence.
pub proof fn lemma_optional_round_trip<T>(value: Option<T>, absent: T)
    ensures
        spec_decode(spec_encode(value, absent)) == value,
{
}

/// Decoding a record whose presence flag is clear never depends on the
/// payload slot: any two placeholders decode to the same absence.
pub proof fn lemma_decode_ignores_absent_payload<T>(a: T, b: T)
    ensures
        spec_decode((OptValue { has_value: false, value: a })) == spec_decode(
            (OptValue { has_value: false, value: b }),
        ),
        spec_decode((OptValue { has_value: false, value: a })) is None,
{
}

} // verus!
