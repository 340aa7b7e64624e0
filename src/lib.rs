//! Decoding of AD recording files: the text header, the binary records that
//! follow it, and the derived spike parameters computed from them.

use vstd::prelude::*;

pub mod ad_file;
pub mod cache;
pub mod config;
pub mod format;
pub mod params;
pub mod header;
pub mod pos;
pub mod records;
pub mod spike;

verus! {

/// Adds one to `x`.
pub fn hi(x: i32) -> (r: i32)
    requires
        x < i32::MAX,
    ensures
        r == x + 1,
{
    x + 1
}

} // verus!
