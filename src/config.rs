//! What a file's header says of how to read its data: which tetrode the
//! spikes come from and the gain of each of its channels; and which input
//! format a file is in.

use vstd::prelude::*;
use vstd::string::StringSliceAdditionalSpecFns;
use crate::header::{Line, Metadata, bytes_equal, first_value, lookup, lookup_bytes};
use crate::params::str_equal;

verus! {

/// Errors in what the header says of the recording.
#[derive(Clone, Debug, PartialEq)]
pub enum ConfigError {
    /// The header has no `Probe` key.
    MissingProbe,
    /// The `Probe` key holds something other than `0` or `1`.
    UnknownProbe { probe: Vec<u8> },
    /// The gain of a channel is missing, or is no number.
    MissingOrInvalidGain { channel: u8 },
}

/// The first channel of the tetrode that a `Probe` value names: `0` names
/// channels 0 to 3, `1` channels 4 to 7.
pub open spec fn probe_channel(v: Seq<u8>) -> Option<u8> {
    if v == "0".spec_bytes() {
        Some(0u8)
    } else if v == "1".spec_bytes() {
        Some(4u8)
    } else {
        None
    }
}

/// The header key of the gain of channel `c`, one digit: `channel c ampgain`.
pub open spec fn gain_key(c: u8) -> Seq<u8> {
    "channel ".spec_bytes() + seq![(48 + c) as u8] + " ampgain".spec_bytes()
}

/// Whether channel `c + k` is the first of the four from `c` on whose gain
/// key the header lacks.
pub open spec fn missing_gain_at(lines: Seq<Line>, c: u8, k: int) -> bool {
    &&& 0 <= k < 4
    &&& first_value(lines, gain_key((c + k) as u8)) is None
    &&& forall|j: int| 0 <= j < k ==> first_value(lines, #[trigger] gain_key((c + j) as u8)) is Some
}

/// The first channel of the tetrode that the header's `Probe` names.
pub fn probe_offset(metadata: &Metadata) -> (r: Result<u8, ConfigError>)
    ensures
        match first_value(metadata@, "Probe".spec_bytes()) {
            None => r matches Err(ConfigError::MissingProbe),
            Some(v) => match probe_channel(v) {
                Some(c) => r == Ok::<u8, ConfigError>(c),
                None => r matches Err(ConfigError::UnknownProbe { probe }) && probe@ == v,
            },
        },
{
    match lookup(metadata, "Probe") {
        None => Err(ConfigError::MissingProbe),
        Some(v) => {
            if bytes_equal(v, "0".as_bytes()) {
                Ok(0)
            } else if bytes_equal(v, "1".as_bytes()) {
                Ok(4)
            } else {
                Err(ConfigError::UnknownProbe { probe: vstd::slice::slice_to_vec(v) })
            }
        },
    }
}

fn push_all(v: &mut Vec<u8>, s: &[u8])
    ensures
        final(v)@ == old(v)@ + s@,
{
    let ghost start = v@;
    let mut i: usize = 0;
    while i < s.len()
        invariant
            i <= s@.len(),
            v@ == start + s@.subrange(0, i as int),
        decreases s@.len() - i,
    {
        v.push(s[i]);
        i = i + 1;
        assert(v@ =~= start + s@.subrange(0, i as int));
    }
    assert(s@.subrange(0, i as int) =~= s@);
}

/// The header key of the gain of channel `c`.
pub fn gain_key_bytes(c: u8) -> (r: Vec<u8>)
    requires
        c < 10,
    ensures
        r@ == gain_key(c),
{
    let mut key: Vec<u8> = Vec::new();
    push_all(&mut key, "channel ".as_bytes());
    key.push(48 + c);
    push_all(&mut key, " ampgain".as_bytes());
    assert(key@ =~= gain_key(c));
    key
}

/// The gain texts of the four channels of the tetrode that the header's
/// `Probe` names, in channel order. A channel whose key is missing gives
/// `MissingOrInvalidGain`, the first such channel.
pub fn gain_texts<'a>(metadata: &Metadata<'a>) -> (r: Result<Vec<&'a [u8]>, ConfigError>)
    ensures
        match first_value(metadata@, "Probe".spec_bytes()) {
            None => r matches Err(ConfigError::MissingProbe),
            Some(v) => match probe_channel(v) {
                None => r matches Err(ConfigError::UnknownProbe { probe }) && probe@ == v,
                Some(c) => {
                    &&& r matches Ok(gs) ==> gs@.len() == 4 && forall|k: int| 0 <= k < 4
                        ==> first_value(metadata@, gain_key((c + k) as u8)) == Some((#[trigger] gs@[k])@)
                    &&& r matches Err(e) ==> exists|k: int| #[trigger] missing_gain_at(metadata@, c, k)
                        && e == ConfigError::MissingOrInvalidGain { channel: (c + k) as u8 }
                    &&& r is Ok <==> forall|k: int| 0 <= k < 4 ==> first_value(metadata@, #[trigger] gain_key((c + k) as u8)) is Some
                },
            },
        },
{
    let c = match probe_offset(metadata) {
        Ok(c) => c,
        Err(e) => return Err(e),
    };
    let mut gains: Vec<&'a [u8]> = Vec::new();
    let mut k: u8 = 0;
    while k < 4
        invariant
            c == 0 || c == 4,
            first_value(metadata@, "Probe".spec_bytes()) matches Some(v) && probe_channel(v) == Some(c),
            k <= 4,
            gains@.len() == k,
            forall|j: int| 0 <= j < k ==> first_value(metadata@, gain_key((c + j) as u8)) == Some((#[trigger] gains@[j])@),
        decreases 4 - k,
    {
        let key = gain_key_bytes(c + k);
        match lookup_bytes(metadata, key.as_slice()) {
            Some(g) => gains.push(g),
            None => {
                let err = ConfigError::MissingOrInvalidGain { channel: c + k };
                proof {
                    assert forall|j: int| 0 <= j < k implies first_value(metadata@, #[trigger] gain_key((c + j) as u8)) is Some by {
                        assert(gains@[j] == gains@[j]);
                    }
                    let kk = k as int;
                    assert(err == ConfigError::MissingOrInvalidGain { channel: (c + kk) as u8 });
                    assert(first_value(metadata@, gain_key((c + kk) as u8)) is None);
                    assert(missing_gain_at(metadata@, c, kk));
                }
                return Err(err);
            },
        }
        k = k + 1;
    }
    proof {
        assert forall|j: int| 0 <= j < 4 implies first_value(metadata@, #[trigger] gain_key((c + j) as u8)) is Some by {
            assert(gains@[j] == gains@[j]);
        }
    }
    Ok(gains)
}

/// The input formats that can be read.
#[derive(Clone, Copy, Debug, PartialEq, Eq, Structural)]
pub enum InputFormat {
    /// AD files, such as `.tt` files.
    Ad,
}

/// Errors in choosing the input format.
#[derive(Clone, Debug, PartialEq)]
pub enum UsageError {
    /// No format was given and the file has no extension.
    NoInputFormat,
    /// No format was given and the file's extension names none.
    UnknownExtension { ext: String },
}

/// The input format: the one given, else the one that the file's extension
/// names (`tt` names the AD format).
pub fn input_format(input_type: Option<InputFormat>, input_file_ext: Option<&str>) -> (r: Result<InputFormat, UsageError>)
    ensures
        match (input_type, input_file_ext) {
            (Some(f), _) => r == Ok::<InputFormat, UsageError>(f),
            (None, None) => r matches Err(UsageError::NoInputFormat),
            (None, Some(e)) => if e@ == "tt"@ {
                r == Ok::<InputFormat, UsageError>(InputFormat::Ad)
            } else {
                r matches Err(UsageError::UnknownExtension { ext }) && ext@ == e@
            },
        },
{
    match input_type {
        Some(f) => Ok(f),
        None => match input_file_ext {
            None => Err(UsageError::NoInputFormat),
            Some(e) => {
                if str_equal(e, "tt") {
                    Ok(InputFormat::Ad)
                } else {
                    Err(UsageError::UnknownExtension { ext: e.to_owned() })
                }
            },
        },
    }
}

} // verus!
