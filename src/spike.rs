//! Spikes: the waveforms of the four channels of a tetrode, and a time.

use vstd::prelude::*;
use crate::records::RawRecord;

verus! {

/// The number of channels of a tetrode.
pub const CHANNELS: usize = 4;

/// A set of waveforms, one per channel, and a timestamp. What the values
/// mean (raw counts, volts; ticks, seconds) is up to the container.
#[derive(Clone, Debug, PartialEq)]
pub struct Spike<V, T> {
    pub waveforms: Vec<Vec<V>>,
    pub time: T,
}

/// How many of `n` interleaved samples fall to channel `c`.
pub open spec fn channel_len(n: int, c: int) -> int {
    (n + 3 - c) / 4
}

/// Whether `w` holds the samples of `s` dealt round-robin over the four
/// channels: sample `i` goes to channel `i % 4`, in order.
pub open spec fn dealt<V>(s: Seq<V>, w: Seq<Vec<V>>) -> bool {
    &&& w.len() == 4
    &&& forall|c: int| 0 <= c < 4 ==> (#[trigger] w[c])@.len() == channel_len(s.len() as int, c)
    &&& forall|c: int, k: int| 0 <= c < 4 && 0 <= k < w[c]@.len() ==> #[trigger] w[c]@[k] == s[4 * k + c]
}

/// Deals interleaved samples out to the four channels of a tetrode: sample
/// `i` goes to channel `i % 4`.
pub fn split_channels<V: Copy>(samples: &Vec<V>) -> (r: Vec<Vec<V>>)
    ensures
        dealt(samples@, r@),
{
    let n = samples.len();
    let mut waveforms: Vec<Vec<V>> = Vec::new();
    let mut c: usize = 0;
    while c < CHANNELS
        invariant
            n == samples@.len(),
            c <= 4,
            waveforms@.len() == c,
            forall|d: int| 0 <= d < c ==> (#[trigger] waveforms@[d])@.len() == channel_len(n as int, d),
            forall|d: int, k: int| 0 <= d < c && 0 <= k < waveforms@[d]@.len() ==> #[trigger] waveforms@[d]@[k] == samples@[4 * k + d],
        decreases 4 - c,
    {
        let len: usize = if c < n { (n - c - 1) / 4 + 1 } else { 0 };
        assert(len == channel_len(n as int, c as int));
        let mut w: Vec<V> = Vec::new();
        let mut k: usize = 0;
        while k < len
            invariant
                n == samples@.len(),
                c < 4,
                len == channel_len(n as int, c as int),
                k <= len,
                w@.len() == k,
                forall|m: int| 0 <= m < w@.len() ==> #[trigger] w@[m] == samples@[4 * m + c],
            decreases len - k,
        {
            assert(4 * k + c < n);
            w.push(samples[4 * k + c]);
            k = k + 1;
        }
        waveforms.push(w);
        c = c + 1;
    }
    waveforms
}

/// The spike that a raw spike record holds, channel by channel, in raw
/// counts and raw timestamp ticks.
pub fn spike_from_record(rec: &RawRecord) -> (r: Spike<i16, u32>)
    ensures
        r.time == rec.timestamp,
        dealt(rec.samples@, r.waveforms@),
{
    Spike { waveforms: split_channels(&rec.samples), time: rec.timestamp }
}

} // verus!
