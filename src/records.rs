//! The binary records that follow the header of an AD file: a little-endian
//! `u32` timestamp, then a fixed number of little-endian `i16` samples,
//! back to back to the end of the data.

use vstd::prelude::*;

verus! {

/// The two kinds of record that AD files hold.
#[derive(Clone, Copy, Debug, PartialEq, Eq, Structural)]
pub enum RecordShape {
    /// Four samples: front x, front y, back x, back y.
    Position,
    /// 128 samples, interleaved over the four channels of a tetrode.
    Spike,
}

/// How many samples a record of `shape` holds.
pub open spec fn shape_samples(shape: RecordShape) -> int {
    match shape {
        RecordShape::Position => 4,
        RecordShape::Spike => 128,
    }
}

/// How many bytes a record of `shape` takes.
pub open spec fn shape_size(shape: RecordShape) -> int {
    4 + 2 * shape_samples(shape)
}

impl RecordShape {
    /// How many samples a record of this shape holds.
    pub fn sample_count(&self) -> (r: usize)
        ensures
            r == shape_samples(*self),
    {
        match self {
            RecordShape::Position => 4,
            RecordShape::Spike => 128,
        }
    }
}

/// A decoded record, before calibration.
#[derive(Clone, Debug, PartialEq)]
pub struct RawRecord {
    pub timestamp: u32,
    pub samples: Vec<i16>,
}

impl View for RawRecord {
    type V = (u32, Seq<i16>);

    open spec fn view(&self) -> (u32, Seq<i16>) {
        (self.timestamp, self.samples@)
    }
}

/// The little-endian `u32` at `i`.
pub open spec fn le_u32(b: Seq<u8>, i: int) -> int {
    b[i] + 256 * b[i + 1] + 65536 * b[i + 2] + 16777216 * b[i + 3]
}

/// The little-endian two's-complement `i16` at `i`.
pub open spec fn le_i16(b: Seq<u8>, i: int) -> int {
    let u = b[i] + 256 * b[i + 1];
    if u >= 32768 {
        u - 65536
    } else {
        u
    }
}

/// Whether `r` is the record of `shape` that starts at `at` in `b`.
pub open spec fn record_at(r: RawRecord, shape: RecordShape, b: Seq<u8>, at: int) -> bool {
    &&& r.timestamp == le_u32(b, at)
    &&& r.samples@.len() == shape_samples(shape)
    &&& forall|j: int| 0 <= j < shape_samples(shape) ==> #[trigger] r.samples@[j] == le_i16(b, at + 4 + 2 * j)
}

/// Whether `rs` are the records of `shape` that `b` holds, in order; bytes
/// at the end too few for a whole record are left out.
pub open spec fn decodes_to(shape: RecordShape, b: Seq<u8>, rs: Seq<RawRecord>) -> bool {
    &&& rs.len() == b.len() as int / shape_size(shape)
    &&& forall|k: int| 0 <= k < rs.len() ==> record_at(#[trigger] rs[k], shape, b, k * shape_size(shape))
}

fn read_u32_le(b: &[u8], i: usize) -> (r: u32)
    requires
        i + 4 <= b@.len(),
    ensures
        r == le_u32(b@, i as int),
{
    b[i] as u32 + 256 * (b[i + 1] as u32) + 65536 * (b[i + 2] as u32) + 16777216 * (b[i + 3] as u32)
}

fn read_i16_le(b: &[u8], i: usize) -> (r: i16)
    requires
        i + 2 <= b@.len(),
    ensures
        r == le_i16(b@, i as int),
{
    let u: u32 = b[i] as u32 + 256 * (b[i + 1] as u32);
    if u >= 32768 {
        (u as i32 - 65536) as i16
    } else {
        u as i16
    }
}

fn decode_record(shape: RecordShape, b: &[u8], at: usize) -> (r: RawRecord)
    requires
        at + shape_size(shape) <= b@.len(),
    ensures
        record_at(r, shape, b@, at as int),
{
    let n = shape.sample_count();
    let timestamp = read_u32_le(b, at);
    let mut samples: Vec<i16> = Vec::new();
    let bl = b.len();
    let mut j: usize = 0;
    while j < n
        invariant
            bl == b@.len(),
            n == shape_samples(shape),
            at + 4 + 2 * n <= b@.len(),
            j <= n,
            samples@.len() == j,
            forall|m: int| 0 <= m < j ==> #[trigger] samples@[m] == le_i16(b@, at + 4 + 2 * m),
        decreases n - j,
    {
        samples.push(read_i16_le(b, at + 4 + 2 * j));
        j = j + 1;
    }
    RawRecord { timestamp, samples }
}

/// Decodes the records of `shape` that `bytes` holds, in order. Bytes at the
/// end too few for a whole record are left out.
pub fn decode_records(shape: RecordShape, bytes: &[u8]) -> (r: Vec<RawRecord>)
    ensures
        decodes_to(shape, bytes@, r@),
{
    let size = 4 + 2 * shape.sample_count();
    let n = bytes.len();
    let mut records: Vec<RawRecord> = Vec::new();
    let mut at: usize = 0;
    assert(records@.len() * size == 0) by (nonlinear_arith)
        requires
            records@.len() == 0;
    while n - at >= size
        invariant
            size == shape_size(shape),
            n == bytes@.len(),
            at <= n,
            at == records@.len() * size,
            forall|k: int| 0 <= k < records@.len() ==> record_at(#[trigger] records@[k], shape, bytes@, k * size),
        decreases n - at,
    {
        records.push(decode_record(shape, bytes, at));
        at = at + size;
        assert(at == records@.len() * size) by (nonlinear_arith)
            requires
                at == (records@.len() - 1) * size + size;
    }
    assert(records@.len() == n / size) by (nonlinear_arith)
        requires
            at == records@.len() * size,
            n - at < size,
            at <= n,
            size > 0;
    records
}

/// Decoding is a function of the bytes: two decodings of the same bytes
/// give the same records.
pub proof fn decoding_is_repeatable(shape: RecordShape, b: Seq<u8>, rs1: Seq<RawRecord>, rs2: Seq<RawRecord>)
    requires
        decodes_to(shape, b, rs1),
        decodes_to(shape, b, rs2),
    ensures
        rs1.map_values(|r: RawRecord| r@) == rs2.map_values(|r: RawRecord| r@),
{
    assert forall|k: int| 0 <= k < rs1.len() implies rs1[k]@ == rs2[k]@ by {
        let (r1, r2) = (rs1[k], rs2[k]);
        assert(record_at(r1, shape, b, k * shape_size(shape)));
        assert(record_at(r2, shape, b, k * shape_size(shape)));
        assert(r1.samples@ =~= r2.samples@);
    }
    assert(rs1.map_values(|r: RawRecord| r@) =~= rs2.map_values(|r: RawRecord| r@));
}

} // verus!
