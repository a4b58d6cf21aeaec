//! The binary event record decoder: classifies one fixed-layout native
//! record, as the kernel joystick driver emits it, into at most one
//! portable [`Event`].

use vstd::prelude::*;

verus! {

/// A decoded, portable joystick event.
///
/// `Button(index, pressed)` reports a button change; `Axis(index, position)`
/// reports an axis position. Equality is structural; a value has no identity
/// beyond its fields.
#[derive(Clone, Copy, Debug, PartialEq, Eq, Structural)]
pub enum Event {
    Button(u8, bool),
    Axis(u8, i16),
}

/// Record type tag selecting a button event, after masking.
pub const EVENT_BUTTON: u8 = 0x01;

/// Record type tag selecting an axis event, after masking.
pub const EVENT_AXIS: u8 = 0x02;

/// Flag bit marking a synthetic initial-state record, masked off before
/// classification.
pub const EVENT_INIT: u8 = 0x80;

/// Size in bytes of one native record as the driver writes it.
pub const RECORD_SIZE: usize = 8;

/// One native event record, with the fields the driver writes, in order:
/// a timestamp, a raw value, a type tag and a button or axis index.
///
/// Callers of the library never need to build one; it is public so that the
/// decoding step and its properties can be stated and exercised directly.
#[derive(Clone, Copy, Debug, PartialEq, Eq, Structural)]
pub struct NativeRecord {
    pub time: u32,
    pub value: i16,
    pub typ: u8,
    pub number: u8,
}

/// A record's class: its type tag with the init-replay flag cleared,
/// stated arithmetically so that it evaluates on concrete tags.
pub open spec fn spec_masked_type(typ: u8) -> u8 {
    if typ >= 0x80 {
        (typ - 0x80) as u8
    } else {
        typ
    }
}

/// What decoding a record yields: a button event for tag 0x01, an axis event
/// for tag 0x02, nothing for any other class.
pub open spec fn spec_decode(rec: NativeRecord) -> Option<Event> {
    if spec_masked_type(rec.typ) == EVENT_BUTTON {
        Some(Event::Button(rec.number, rec.value != 0))
    } else if spec_masked_type(rec.typ) == EVENT_AXIS {
        Some(Event::Axis(rec.number, rec.value))
    } else {
        None
    }
}

/// Classifies one native record into zero or one portable events.
///
/// The init-replay flag (`EVENT_INIT`) is masked off first; a record class
/// other than button or axis is silently dropped, not an error.
pub fn decode(rec: &NativeRecord) -> (r: Option<Event>)
    ensures
        r == spec_decode(*rec),
        spec_masked_type(rec.typ) == EVENT_BUTTON ==> r == Some(Event::Button(
            rec.number,
            rec.value != 0,
        )),
        spec_masked_type(rec.typ) == EVENT_AXIS ==> r == Some(Event::Axis(rec.number, rec.value)),
        spec_masked_type(rec.typ) != EVENT_BUTTON && spec_masked_type(rec.typ) != EVENT_AXIS
            ==> r is None,
{
    let masked = rec.typ & 0x7f;
    proof {
        let t = rec.typ;
        assert(t & 0x7f == (if t >= 0x80 {
            (t - 0x80) as u8
        } else {
            t
        })) by (bit_vector);
    }
    if masked == EVENT_BUTTON {
        Some(Event::Button(rec.number, rec.value != 0))
    } else if masked == EVENT_AXIS {
        Some(Event::Axis(rec.number, rec.value))
    } else {
        None
    }
}

/// The 16-bit signed integer held little-endian in two bytes.
pub open spec fn spec_i16_le(lo: u8, hi: u8) -> int {
    if lo + 256 * hi < 32768 {
        lo + 256 * hi
    } else {
        lo + 256 * hi - 65536
    }
}

/// The 32-bit unsigned integer held little-endian in four bytes.
pub open spec fn spec_u32_le(b0: u8, b1: u8, b2: u8, b3: u8) -> int {
    b0 + 256 * b1 + 65536 * b2 + 16777216 * b3
}

/// The record denoted by eight raw bytes in the driver's wire layout:
/// the timestamp at offset 0, the value at offset 4, then the type tag
/// and the index, multi-byte fields little-endian as on the supported
/// targets.
pub open spec fn spec_record_of(b: Seq<u8>) -> NativeRecord
    recommends
        b.len() == RECORD_SIZE,
{
    NativeRecord {
        time: spec_u32_le(b[0], b[1], b[2], b[3]) as u32,
        value: spec_i16_le(b[4], b[5]) as i16,
        typ: b[6],
        number: b[7],
    }
}

/// Reassembles the fixed-layout record from the eight bytes the driver
/// wrote, field by field, without reordering or repacking.
pub fn record_from_bytes(b: &[u8; 8]) -> (rec: NativeRecord)
    ensures
        rec.time == spec_u32_le(b[0], b[1], b[2], b[3]),
        rec.value == spec_i16_le(b[4], b[5]),
        rec.typ == b[6],
        rec.number == b[7],
        rec == spec_record_of(b@),
{
    let w: u16 = (b[4] as u16) + ((b[5] as u16) * 256);
    let value: i16 = if w < 32768 {
        w as i16
    } else {
        ((w as i32) - 65536) as i16
    };
    let time: u32 = (b[0] as u32) + ((b[1] as u32) * 256) + ((b[2] as u32) * 65536)
        + ((b[3] as u32) * 16777216);
    NativeRecord { time, value, typ: b[6], number: b[7] }
}

/// The init-replay flag does not change how a record is classified: a record
/// with the flag set decodes exactly as the same record with the flag
/// cleared.
pub proof fn lemma_decode_ignores_init_flag(rec: NativeRecord)
    ensures
        spec_decode((NativeRecord { typ: rec.typ | EVENT_INIT, ..rec })) == spec_decode(
            (NativeRecord { typ: rec.typ & 0x7f, ..rec }),
        ),
{
    let t = rec.typ;
    assert((if (t | 0x80) >= 0x80 {
        ((t | 0x80) - 0x80) as u8
    } else {
        t | 0x80
    }) == (if (t & 0x7f) >= 0x80 {
        ((t & 0x7f) - 0x80) as u8
    } else {
        t & 0x7f
    })) by (bit_vector);
    assert(spec_masked_type(t | 0x80) == spec_masked_type(t & 0x7f));
}

} // verus!
