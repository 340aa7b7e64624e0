//! Positions of the two tracking diodes.

use vstd::prelude::*;
use crate::records::RawRecord;

verus! {

/// Coordinates of the front and back diodes, and a timestamp.
#[derive(Debug, PartialEq)]
pub struct DiodePos<P, T> {
    pub diode_front: (P, P),
    pub diode_back: (P, P),
    pub time: T,
}

/// Which diode.
#[derive(Clone, Copy, Debug, PartialEq, Eq, Structural)]
pub enum DiodeId {
    Front,
    Back,
}

/// The points that one diode lit up at one time.
#[derive(Debug, PartialEq)]
pub struct DiodeImage<P, T> {
    pub diode_id: DiodeId,
    pub coords: Vec<(P, P)>,
    pub time: T,
}

/// The diode position that a raw position record holds: its samples are
/// front x, front y, back x, back y.
pub fn pos_from_record(rec: &RawRecord) -> (r: DiodePos<i16, u32>)
    requires
        rec.samples@.len() == 4,
    ensures
        r.time == rec.timestamp,
        r.diode_front == (rec.samples@[0], rec.samples@[1]),
        r.diode_back == (rec.samples@[2], rec.samples@[3]),
{
    let s = &rec.samples;
    DiodePos { diode_front: (s[0], s[1]), diode_back: (s[2], s[3]), time: rec.timestamp }
}

} // verus!
