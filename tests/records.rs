use xcrust::pos::pos_from_record;
use xcrust::records::{RawRecord, RecordShape, decode_records};
use xcrust::spike::{Spike, spike_from_record, split_channels};

fn spike_record_bytes(t: u32, first: i16) -> Vec<u8> {
    let mut b = t.to_le_bytes().to_vec();
    for i in 0..128i16 {
        b.extend_from_slice(&(first + i).to_le_bytes());
    }
    b
}

#[test]
fn decodes_position_records_and_drops_a_partial_tail() {
    let bytes: Vec<u8> = vec![
        0x10, 0x27, 0, 0, 1, 0, 2, 0, 0xff, 0xff, 0x00, 0x80, //
        1, 0, 0, 0x80, 0xff, 0x7f, 0, 0, 0, 0, 3, 0, //
        9, 9, 9,
    ];
    let rs = decode_records(RecordShape::Position, &bytes);
    assert_eq!(
        rs,
        vec![
            RawRecord { timestamp: 10_000, samples: vec![1, 2, -1, -32768] },
            RawRecord { timestamp: 0x8000_0001, samples: vec![32767, 0, 0, 3] },
        ]
    );
}

#[test]
fn decodes_spike_records() {
    let mut bytes = spike_record_bytes(5, -64);
    bytes.extend(spike_record_bytes(u32::MAX, 100));
    bytes.push(0);
    let rs = decode_records(RecordShape::Spike, &bytes);
    assert_eq!(rs.len(), 2);
    assert_eq!(rs[0].timestamp, 5);
    assert_eq!(rs[1].timestamp, u32::MAX);
    assert_eq!(rs[0].samples.len(), 128);
    assert_eq!(rs[0].samples[0], -64);
    assert_eq!(rs[1].samples[127], 227);
}

#[test]
fn decoding_twice_gives_the_same_records() {
    let bytes = spike_record_bytes(42, 7);
    assert_eq!(decode_records(RecordShape::Spike, &bytes), decode_records(RecordShape::Spike, &bytes));
}

#[test]
fn empty_and_short_payloads_hold_no_records() {
    assert_eq!(decode_records(RecordShape::Spike, &[]), vec![]);
    assert_eq!(decode_records(RecordShape::Position, &[1, 2, 3, 4, 5, 6, 7, 8, 9, 10, 11]), vec![]);
}

#[test]
fn samples_are_dealt_round_robin() {
    let w = split_channels(&vec![0, 1, 2, 3, 4, 5, 6, 7, 8]);
    assert_eq!(w, vec![vec![0, 4, 8], vec![1, 5], vec![2, 6], vec![3, 7]]);
    let e: Vec<Vec<i32>> = split_channels(&vec![]);
    assert_eq!(e, vec![vec![], vec![], vec![], vec![]]);
}

#[test]
fn spike_from_a_record() {
    let rs = decode_records(RecordShape::Spike, &spike_record_bytes(3, 0));
    let s: Spike<i16, u32> = spike_from_record(&rs[0]);
    assert_eq!(s.time, 3);
    assert_eq!(s.waveforms.len(), 4);
    for c in 0..4 {
        assert_eq!(s.waveforms[c].len(), 32);
        assert_eq!(s.waveforms[c][0], c as i16);
        assert_eq!(s.waveforms[c][31], (124 + c) as i16);
    }
}

#[test]
fn position_from_a_record() {
    let p = pos_from_record(&RawRecord { timestamp: 9, samples: vec![2, 1, 8, 3] });
    assert_eq!(p.diode_front, (2, 1));
    assert_eq!(p.diode_back, (8, 3));
    assert_eq!(p.time, 9);
}
