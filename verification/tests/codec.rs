//! Tests of the record decoder on concrete records.

use joy::codec::{decode, record_from_bytes, Event, NativeRecord};

fn record(typ: u8, value: i16, number: u8) -> NativeRecord {
    NativeRecord { time: 0, value, typ, number }
}

#[test]
fn button_boundary_values() {
    assert_eq!(decode(&record(0x01, 0, 3)), Some(Event::Button(3, false)));
    assert_eq!(decode(&record(0x01, 1, 3)), Some(Event::Button(3, true)));
    assert_eq!(decode(&record(0x01, -1, 3)), Some(Event::Button(3, true)));
    assert_eq!(decode(&record(0x01, 0, 255)), Some(Event::Button(255, false)));
}

#[test]
fn axis_full_range() {
    assert_eq!(decode(&record(0x02, -32768, 0)), Some(Event::Axis(0, -32768)));
    assert_eq!(decode(&record(0x02, 32767, 7)), Some(Event::Axis(7, 32767)));
    assert_eq!(decode(&record(0x02, 0, 1)), Some(Event::Axis(1, 0)));
    assert_eq!(decode(&record(0x02, -500, 0)), Some(Event::Axis(0, -500)));
}

#[test]
fn unrecognized_types_ignored() {
    assert_eq!(decode(&record(0x00, 1, 0)), None);
    assert_eq!(decode(&record(0x03, 1, 0)), None);
    assert_eq!(decode(&record(0xff, 1, 0)), None);
    assert_eq!(decode(&record(0x83, 1, 0)), None);
    assert_eq!(decode(&record(0x80, 1, 0)), None);
}

#[test]
fn init_flag_does_not_change_decoding() {
    for typ in [0x01u8, 0x02, 0x00, 0x03, 0x7f] {
        let plain = decode(&record(typ, -2, 9));
        let flagged = decode(&record(typ | 0x80, -2, 9));
        assert_eq!(plain, flagged);
    }
    assert_eq!(decode(&record(0x81, 1, 2)), Some(Event::Button(2, true)));
    assert_eq!(decode(&record(0x82, -7, 4)), Some(Event::Axis(4, -7)));
}

#[test]
fn record_layout_is_little_endian_fixed_offsets() {
    let rec = record_from_bytes(&[0x78, 0x56, 0x34, 0x12, 0x0c, 0xfe, 0x81, 0x05]);
    assert_eq!(rec.time, 0x12345678);
    assert_eq!(rec.value, -500);
    assert_eq!(rec.typ, 0x81);
    assert_eq!(rec.number, 0x05);

    let rec = record_from_bytes(&[0, 0, 0, 0, 0xff, 0x7f, 0x02, 0x00]);
    assert_eq!(rec.value, 32767);
    let rec = record_from_bytes(&[0xff, 0xff, 0xff, 0xff, 0x00, 0x80, 0x02, 0xff]);
    assert_eq!(rec.time, u32::MAX);
    assert_eq!(rec.value, -32768);
    assert_eq!(rec.number, 255);
}

#[test]
fn decode_after_parse_matches_event() {
    let bytes = [0, 0, 0, 0, 0x01, 0x00, 0x01, 0x02];
    assert_eq!(decode(&record_from_bytes(&bytes)), Some(Event::Button(2, true)));
    let bytes = [0, 0, 0, 0, 0x0c, 0xfe, 0x02, 0x00];
    assert_eq!(decode(&record_from_bytes(&bytes)), Some(Event::Axis(0, -500)));
}
