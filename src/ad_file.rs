//! Reading a whole AD file held in memory: its header, then its records.
//! Values stay raw here: sample counts and timestamp ticks.

use vstd::prelude::*;
use vstd::string::StringSliceAdditionalSpecFns;
use crate::config::{ConfigError, gain_key, gain_texts, missing_gain_at, probe_channel, probe_offset};
use crate::header::{HeaderError, Line, first_value, header_block, parse};
use crate::pos::{DiodePos, pos_from_record};
use crate::records::{RawRecord, RecordShape, decode_records, decodes_to, shape_samples, shape_size};
use crate::spike::{Spike, dealt, spike_from_record};

verus! {

/// Errors in reading an AD file.
#[derive(Clone, Debug, PartialEq)]
pub enum FileError {
    Header(HeaderError),
    Config(ConfigError),
}

/// The spikes of an AD spike file, raw, and the gain texts of their channels.
pub struct SpikeFile<'a> {
    /// The first channel of the tetrode that the header's `Probe` names.
    pub first_channel: u8,
    /// The gain texts of the tetrode's four channels, in order.
    pub gain_texts: Vec<&'a [u8]>,
    pub spikes: Vec<Spike<i16, u32>>,
}

/// Whether `spikes` are the spikes of `records`, one for one.
pub open spec fn spikes_of(records: Seq<RawRecord>, spikes: Seq<Spike<i16, u32>>) -> bool {
    &&& spikes.len() == records.len()
    &&& forall|k: int| 0 <= k < records.len() ==> (#[trigger] spikes[k]).time == records[k].timestamp
        && dealt(records[k].samples@, spikes[k].waveforms@)
}

/// Whether `ps` are the positions of `records`, one for one.
pub open spec fn positions_of(records: Seq<RawRecord>, ps: Seq<DiodePos<i16, u32>>) -> bool {
    &&& ps.len() == records.len()
    &&& forall|k: int| 0 <= k < records.len() ==> {
        let s = (#[trigger] records[k]).samples@;
        &&& ps[k].time == records[k].timestamp
        &&& ps[k].diode_front == (s[0], s[1])
        &&& ps[k].diode_back == (s[2], s[3])
    }
}

/// Whether `spikes` are the spikes that the spike records of `payload` hold.
pub open spec fn spikes_in(payload: Seq<u8>, spikes: Seq<Spike<i16, u32>>) -> bool {
    exists|rs: Seq<RawRecord>| decodes_to(RecordShape::Spike, payload, rs) && #[trigger] spikes_of(rs, spikes)
}

/// Whether `ps` are the positions that the position records of `payload` hold.
pub open spec fn positions_in(payload: Seq<u8>, ps: Seq<DiodePos<i16, u32>>) -> bool {
    exists|rs: Seq<RawRecord>| decodes_to(RecordShape::Position, payload, rs) && #[trigger] positions_of(rs, ps)
}

/// The spikes of spike records, one for one.
pub fn spikes_from_records(records: &Vec<RawRecord>) -> (r: Vec<Spike<i16, u32>>)
    ensures
        spikes_of(records@, r@),
{
    let mut spikes: Vec<Spike<i16, u32>> = Vec::new();
    let mut k: usize = 0;
    while k < records.len()
        invariant
            k <= records@.len(),
            spikes@.len() == k,
            forall|j: int| 0 <= j < k ==> (#[trigger] spikes@[j]).time == records@[j].timestamp
                && dealt(records@[j].samples@, spikes@[j].waveforms@),
        decreases records@.len() - k,
    {
        spikes.push(spike_from_record(&records[k]));
        k = k + 1;
    }
    spikes
}

/// The positions of position records, one for one.
pub fn positions_from_records(records: &Vec<RawRecord>) -> (r: Vec<DiodePos<i16, u32>>)
    requires
        forall|k: int| 0 <= k < records@.len() ==> (#[trigger] records@[k]).samples@.len() == 4,
    ensures
        positions_of(records@, r@),
{
    let mut ps: Vec<DiodePos<i16, u32>> = Vec::new();
    let mut k: usize = 0;
    while k < records.len()
        invariant
            k <= records@.len(),
            forall|j: int| 0 <= j < records@.len() ==> (#[trigger] records@[j]).samples@.len() == 4,
            ps@.len() == k,
            forall|j: int| 0 <= j < k ==> {
                let s = (#[trigger] records@[j]).samples@;
                &&& ps@[j].time == records@[j].timestamp
                &&& ps@[j].diode_front == (s[0], s[1])
                &&& ps@[j].diode_back == (s[2], s[3])
            },
        decreases records@.len() - k,
    {
        ps.push(pos_from_record(&records[k]));
        k = k + 1;
    }
    ps
}

/// The bytes after the first `count` records of `size` bytes, where those
/// are all the whole records that `input` holds.
fn leftover<'a>(input: &'a [u8], count: usize, size: usize) -> (r: &'a [u8])
    requires
        size > 0,
        count == input@.len() as int / size as int,
    ensures
        count * size <= input@.len(),
        r@ == input@.subrange(count * size, input@.len() as int),
        r@.len() < size,
{
    let n = input.len();
    assert(count * size <= n && n - count * size < size) by (nonlinear_arith)
        requires
            size > 0,
            count == n as int / size as int;
    &input[count * size..n]
}

/// The spikes that the spike records of `input` hold, raw, and the bytes at
/// the end too few for another record.
pub fn parse_spikes<'a>(input: &'a [u8]) -> (r: (&'a [u8], Vec<Spike<i16, u32>>))
    ensures
        spikes_in(input@, r.1@),
        r.0@ == input@.subrange(r.1@.len() * shape_size(RecordShape::Spike), input@.len() as int),
{
    let records = decode_records(RecordShape::Spike, input);
    let spikes = spikes_from_records(&records);
    assert(decodes_to(RecordShape::Spike, input@, records@) && spikes_of(records@, spikes@));
    (leftover(input, spikes.len(), 260), spikes)
}

/// The diode positions that the position records of `input` hold, raw, and
/// the bytes at the end too few for another record.
pub fn parse_p<'a>(input: &'a [u8]) -> (r: (&'a [u8], Vec<DiodePos<i16, u32>>))
    ensures
        positions_in(input@, r.1@),
        r.0@ == input@.subrange(r.1@.len() * shape_size(RecordShape::Position), input@.len() as int),
{
    let records = decode_records(RecordShape::Position, input);
    assert(forall|k: int| 0 <= k < records@.len() ==> (#[trigger] records@[k]).samples@.len() == shape_samples(RecordShape::Position));
    let ps = positions_from_records(&records);
    assert(decodes_to(RecordShape::Position, input@, records@) && positions_of(records@, ps@));
    (leftover(input, ps.len(), 12), ps)
}

/// Reads a spike file: its header, the gain texts of the probe's channels,
/// and its spike records, raw.
pub fn read_spike_file<'a>(contents: &'a [u8]) -> (r: Result<SpikeFile<'a>, FileError>)
    ensures
        match header_block(contents@) {
            None => r matches Err(FileError::Header(HeaderError::ParseError { .. })),
            Some((lines, p)) => match first_value(lines, "Probe".spec_bytes()) {
                None => r matches Err(FileError::Config(ConfigError::MissingProbe)),
                Some(v) => match probe_channel(v) {
                    None => r matches Err(FileError::Config(ConfigError::UnknownProbe { probe })) && probe@ == v,
                    Some(c) => {
                        &&& r is Ok <==> forall|k: int| 0 <= k < 4 ==> first_value(lines, #[trigger] gain_key((c + k) as u8)) is Some
                        &&& r matches Err(e) ==> exists|k: int| #[trigger] missing_gain_at(lines, c, k)
                            && e == FileError::Config(ConfigError::MissingOrInvalidGain { channel: (c + k) as u8 })
                        &&& r matches Ok(f) ==> {
                            &&& f.first_channel == c
                            &&& f.gain_texts@.len() == 4
                            &&& forall|k: int| 0 <= k < 4
                                ==> first_value(lines, gain_key((c + k) as u8)) == Some((#[trigger] f.gain_texts@[k])@)
                            &&& spikes_in(contents@.subrange(p, contents@.len() as int), f.spikes@)
                        }
                    },
                },
            },
        },
{
    let (metadata, data) = match parse(contents) {
        Ok(x) => x,
        Err(e) => return Err(FileError::Header(e)),
    };
    let first_channel = match probe_offset(&metadata) {
        Ok(c) => c,
        Err(e) => return Err(FileError::Config(e)),
    };
    let gains = match gain_texts(&metadata) {
        Ok(g) => g,
        Err(e) => return Err(FileError::Config(e)),
    };
    let (_, spikes) = parse_spikes(data);
    Ok(SpikeFile { first_channel, gain_texts: gains, spikes })
}

/// Reads a position file: its header, then its position records, raw.
pub fn read_position_file(contents: &[u8]) -> (r: Result<Vec<DiodePos<i16, u32>>, HeaderError>)
    ensures
        match header_block(contents@) {
            None => r matches Err(HeaderError::ParseError { .. }),
            Some((lines, p)) => r matches Ok(ps) && positions_in(contents@.subrange(p, contents@.len() as int), ps@),
        },
{
    let (_metadata, data) = match parse(contents) {
        Ok(x) => x,
        Err(e) => return Err(e),
    };
    Ok(parse_p(data).1)
}

} // verus!
