//! Reading answers: a response frame names a parameter at a fixed place and
//! carries its data bytes behind it. A frame that is too short, or names a
//! parameter that is not registered, changes nothing.

use vstd::prelude::*;
use vstd::slice::slice_subrange;
use crate::obd::frame::RawFrame;
use crate::obd::registry::{
    big_endian, celsius, lemma_big_endian_one, lemma_big_endian_two, lemma_span_values, lookup,
    percent, registry_entry, signed_celsius, trim, ParameterSpec,
};
use crate::value::PhysicalValue;
use crate::vehicle::data::{Field, VehicleData};

verus! {

/// Where the parameter's identifier stands in a response.
pub const ID_OFFSET: usize = 2;

/// Where the data bytes of a response begin.
pub const DATA_OFFSET: usize = 3;

/// The least length of a response: length, service, identifier and one data
/// byte.
pub const MIN_RESPONSE: usize = 4;

/// The parameter that a payload answers for; none when the payload is too
/// short to be a response.
pub open spec fn response_id(payload: Seq<u8>) -> Option<u8> {
    if payload.len() >= MIN_RESPONSE {
        Some(payload[ID_OFFSET as int])
    } else {
        None
    }
}

/// The data bytes of a response: all that follows the identifier.
pub open spec fn response_data(payload: Seq<u8>) -> Seq<u8> {
    payload.subrange(DATA_OFFSET as int, payload.len() as int)
}

/// What a payload writes: the quantity and its new value. None when the
/// payload is too short, names no registered parameter, or carries fewer
/// data bytes than the parameter needs.
pub open spec fn frame_write(payload: Seq<u8>) -> Option<(Field, PhysicalValue)> {
    match response_id(payload) {
        None => None,
        Some(id) => match registry_entry(id) {
            None => None,
            Some(spec) => match spec.decoded(response_data(payload)) {
                None => None,
                Some(value) => Some((spec.field, value)),
            },
        },
    }
}

/// The snapshot after a payload was read into it.
pub open spec fn decoded_snapshot(
    before: Map<Field, PhysicalValue>,
    payload: Seq<u8>,
) -> Map<Field, PhysicalValue> {
    match frame_write(payload) {
        Some((field, value)) => before.insert(field, value),
        None => before,
    }
}

/// Reads the identifier of a response.
pub fn response_parameter(payload: &[u8]) -> (id: Option<u8>)
    ensures
        id == response_id(payload@),
{
    if payload.len() >= MIN_RESPONSE {
        Some(payload[ID_OFFSET])
    } else {
        None
    }
}

/// Reads one payload into the snapshot and says which quantity it wrote,
/// if any. At most one quantity changes.
pub fn decode_into(snapshot: &mut VehicleData, payload: &[u8]) -> (written: Option<Field>)
    ensures
        final(snapshot)@ == decoded_snapshot(old(snapshot)@, payload@),
        written == match frame_write(payload@) {
            Some((field, _)) => Some(field),
            None => None,
        },
{
    let id: u8 = match response_parameter(payload) {
        Some(id) => id,
        None => {
            return None;
        },
    };
    let spec: ParameterSpec = match lookup(id) {
        Some(spec) => spec,
        None => {
            return None;
        },
    };
    let data: &[u8] = slice_subrange(payload, DATA_OFFSET, payload.len());
    match spec.decode(data) {
        Some(value) => {
            snapshot.set(spec.field, value);
            Some(spec.field)
        },
        None => None,
    }
}

/// Reads the data of one response frame into the snapshot.
pub fn parse_obd_response(frame: &RawFrame, data: &mut VehicleData)
    ensures
        final(data)@ == decoded_snapshot(old(data)@, frame.data@),
{
    let _ = decode_into(data, frame.data.as_slice());
}

/// A response for a registered parameter that carries enough data bytes
/// writes the parameter's quantity, with the value that the parameter's rule
/// gives for the first `byte_width` data bytes.
pub proof fn lemma_registered_response(payload: Seq<u8>, spec: ParameterSpec)
    requires
        payload.len() >= MIN_RESPONSE,
        registry_entry(payload[ID_OFFSET as int]) == Some(spec),
        payload.len() >= DATA_OFFSET + spec.byte_width,
    ensures
        frame_write(payload) == Some(
            (
                spec.field,
                spec.rule.value(
                    big_endian(
                        payload.subrange(DATA_OFFSET as int, DATA_OFFSET + spec.byte_width),
                    ),
                    spec.byte_width as nat,
                ),
            ),
        ),
        forall|before: Map<Field, PhysicalValue>, other: Field|
            other != spec.field && before.dom().contains(other) ==> #[trigger] decoded_snapshot(
                before,
                payload,
            )[other] == before[other],
{
    assert(response_data(payload).subrange(0, spec.byte_width as int) =~= payload.subrange(
        DATA_OFFSET as int,
        DATA_OFFSET + spec.byte_width,
    ));
}

/// A payload shorter than a response, or one that carries fewer data bytes
/// than its parameter needs, leaves the snapshot as it was.
pub proof fn lemma_short_frame_ignored(before: Map<Field, PhysicalValue>, payload: Seq<u8>)
    requires
        payload.len() < MIN_RESPONSE || (registry_entry(payload[ID_OFFSET as int]) matches Some(
            spec,
        ) && payload.len() < DATA_OFFSET + spec.byte_width),
    ensures
        frame_write(payload) is None,
        decoded_snapshot(before, payload) == before,
{
}

/// A payload that names a parameter outside the registry leaves the
/// snapshot as it was.
pub proof fn lemma_unknown_parameter_ignored(before: Map<Field, PhysicalValue>, payload: Seq<u8>)
    requires
        payload.len() >= MIN_RESPONSE,
        registry_entry(payload[ID_OFFSET as int]) is None,
    ensures
        frame_write(payload) is None,
        decoded_snapshot(before, payload) == before,
{
}

/// The percent rule gives `raw * 100 / 255`, rounded down.
pub proof fn lemma_percent_value(raw: u8)
    ensures
        percent().value(raw as int, 1) == PhysicalValue::Integer((raw * 100 / 255) as i64),
        0 <= raw * 100 / 255 <= 100,
{
    let rule = percent();
    rule.lemma_numerator(raw as int, 1, 100, 0);
    assert(rule.operand(raw as int, 1) == raw);
    assert(rule.numerator(raw as int, 1) == raw * 100);
}

/// The temperature rule gives `raw - 40`.
pub proof fn lemma_celsius_value(raw: u8)
    ensures
        celsius().value(raw as int, 1) == PhysicalValue::Integer((raw - 40) as i64),
{
    let rule = celsius();
    rule.lemma_numerator(raw as int, 1, 1, 40);
    assert(rule.operand(raw as int, 1) == raw);
    assert(rule.numerator(raw as int, 1) == raw - 40);
}

/// What 16 bits mean as a two's complement number: the reading that a cast
/// to `i16` gives.
pub open spec fn signed_16(raw: u16) -> int {
    if raw >= 0x8000 {
        raw - 0x1_0000
    } else {
        raw as int
    }
}

/// The signed temperature rule reads its two bytes as a 16-bit two's
/// complement number and gives that less 40.
pub proof fn lemma_signed_celsius_value(raw: u16)
    ensures
        signed_celsius().value(raw as int, 2) == PhysicalValue::Integer(
            (signed_16(raw) - 40) as i64,
        ),
        signed_16(raw) == (#[verifier::truncate] (raw as i16)),
{
    lemma_span_values();
    let rule = signed_celsius();
    rule.lemma_numerator(raw as int, 2, 1, 40);
    assert(rule.operand(raw as int, 2) == signed_16(raw));
    assert(rule.numerator(raw as int, 2) == signed_16(raw) - 40);
    assert((#[verifier::truncate] (raw as i16)) == if raw >= 0x8000u16 {
        raw - 0x1_0000
    } else {
        raw as int
    }) by (bit_vector);
}

/// The trim rule gives the exact fraction `(raw - 128) * 100 / 128`.
pub proof fn lemma_trim_value(raw: u8)
    ensures
        trim().value(raw as int, 1) == (PhysicalValue::Ratio {
            numerator: ((raw - 128) * 100) as i64,
            denominator: 128,
        }),
{
    let rule = trim();
    rule.lemma_numerator(raw as int, 1, 100, 12800);
    assert(rule.operand(raw as int, 1) == raw);
    assert(rule.numerator(raw as int, 1) == (raw - 128) * 100);
}

/// An engine-speed response gives a quarter of the 16-bit number that its
/// two data bytes form, high byte first.
pub proof fn lemma_engine_speed(length: u8, service: u8, high: u8, low: u8)
    ensures
        frame_write(seq![length, service, 0x0Cu8, high, low]) == Some(
            (
                Field::EngineRpm,
                PhysicalValue::Ratio {
                    numerator: ((high as u16) << 8 | (low as u16)) as i64,
                    denominator: 4,
                },
            ),
        ),
{
    let payload = seq![length, service, 0x0Cu8, high, low];
    let spec = registry_entry(0x0C).unwrap();
    assert(payload[2] == 0x0C);
    lemma_registered_response(payload, spec);
    assert(payload.subrange(3, 5) =~= seq![high, low]);
    lemma_big_endian_two(high, low);
    lemma_span_values();
    let raw = big_endian(seq![high, low]);
    spec.rule.lemma_numerator(raw, 2, 1, 0);
    assert(spec.rule.operand(raw, 2) == raw);
    assert(spec.rule.numerator(raw, 2) == raw);
    assert(spec.rule.value(raw, 2) == PhysicalValue::Ratio { numerator: raw as i64, denominator: 4 });
    assert(frame_write(payload) == Some((Field::EngineRpm, spec.rule.value(raw, 2))));
}

/// A one-byte percent response, such as engine load, gives
/// `raw * 100 / 255`.
pub proof fn lemma_engine_load(length: u8, service: u8, raw: u8)
    ensures
        frame_write(seq![length, service, 0x04u8, raw]) == Some(
            (Field::EngineLoad, PhysicalValue::Integer((raw * 100 / 255) as i64)),
        ),
{
    let payload = seq![length, service, 0x04u8, raw];
    let spec = registry_entry(0x04).unwrap();
    assert(payload[2] == 0x04);
    lemma_registered_response(payload, spec);
    assert(payload.subrange(3, 4) =~= seq![raw]);
    lemma_big_endian_one(raw);
    lemma_percent_value(raw);
    assert(spec.rule == percent());
    assert(frame_write(payload) == Some((Field::EngineLoad, percent().value(raw as int, 1))));
}

} // verus!
