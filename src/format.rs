//! The numeric format codes that AD files use to name field types.

use vstd::prelude::*;

verus! {

/// A field format of the AD file format.
#[derive(Clone, Copy, Debug, PartialEq, Eq, Structural)]
pub enum FormatType {
    InvalidT,
    /// u8
    CharT,
    /// i16
    ShortT,
    /// i32
    IntT,
    /// f32
    FloatT,
    /// f64
    DoubleT,
    FuncT,
    FFuncT,
    /// u64
    ULongT,
    UnknownT,
}

/// Errors in decoding AD data.
#[derive(Clone, Copy, Debug, PartialEq, Eq, Structural)]
pub enum DecodingError {
    UnknownFormatType { code: i32 },
}

/// The code that stands for a format in AD files.
pub open spec fn format_code(f: FormatType) -> int {
    match f {
        FormatType::InvalidT => 0,
        FormatType::CharT => 1,
        FormatType::ShortT => 2,
        FormatType::IntT => 3,
        FormatType::FloatT => 4,
        FormatType::DoubleT => 5,
        FormatType::FuncT => 6,
        FormatType::FFuncT => 7,
        FormatType::ULongT => 8,
        FormatType::UnknownT => -1,
    }
}

impl FormatType {
    /// The code that stands for this format in AD files.
    pub fn code(&self) -> (r: i32)
        ensures
            r == format_code(*self),
    {
        match self {
            FormatType::InvalidT => 0,
            FormatType::CharT => 1,
            FormatType::ShortT => 2,
            FormatType::IntT => 3,
            FormatType::FloatT => 4,
            FormatType::DoubleT => 5,
            FormatType::FuncT => 6,
            FormatType::FFuncT => 7,
            FormatType::ULongT => 8,
            FormatType::UnknownT => -1,
        }
    }
}

/// The format that code `i` stands for, or `UnknownFormatType` when no
/// format has that code.
pub fn decode_type(i: i32) -> (r: Result<FormatType, DecodingError>)
    ensures
        r matches Ok(f) ==> format_code(f) == i,
        r is Err <==> (forall|f: FormatType| format_code(f) != i),
        r matches Err(e) ==> e == (DecodingError::UnknownFormatType { code: i }),
{
    let r = match i {
        0 => Ok(FormatType::InvalidT),
        1 => Ok(FormatType::CharT),
        2 => Ok(FormatType::ShortT),
        3 => Ok(FormatType::IntT),
        4 => Ok(FormatType::FloatT),
        5 => Ok(FormatType::DoubleT),
        6 => Ok(FormatType::FuncT),
        7 => Ok(FormatType::FFuncT),
        8 => Ok(FormatType::ULongT),
        -1 => Ok(FormatType::UnknownT),
        _ => Err(DecodingError::UnknownFormatType { code: i }),
    };
    proof {
        if r is Err {
            assert forall|f: FormatType| format_code(f) != i by {
                match f {
                    _ => {},
                }
            }
        }
    }
    r
}

} // verus!
