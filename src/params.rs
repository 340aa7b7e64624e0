//! Derived spike parameters: their codes and names, the format each is
//! stored in, and which ones have a rule to compute them.

use vstd::prelude::*;
use vstd::string::StringSliceAdditionalSpecFns;
use crate::format::{FormatType, format_code};

verus! {

broadcast use vstd::utf8::encode_utf8_decode_utf8;

/// A derived attribute of a spike and the animal's position when it fired.
#[allow(non_camel_case_types)]
#[derive(Clone, Copy, Debug, PartialEq, Eq, Structural)]
pub enum Param {
    PX,
    PY,
    VX,
    VY,
    TPX,
    TPY,
    TVX,
    TVY,
    MAXHT,
    PPHS,
    VPHS,
    DLAT,
    MAXWD,
    XM4,
    YM4,
    XM2,
    YM2,
    X0,
    Y0,
    XP2,
    YP2,
    XP4,
    YP4,
    XP8,
    YP8,
    XP12,
    YP12,
    T0,
    PHSM4,
    PHSM2,
    PHS0,
    PHSP2,
    PHSP4,
    PHSP8,
    PHSP12,
    AVGPHS,
    SDPHS,
    PAMP,
    ZCROSS,
    INZPM,
    INZP2M2,
    INZP4M4,
    INZP8M8,
    INPM3M6,
    INPP12M12,
    TEMPLATE0,
    TEMPLATE1,
    TEMPLATE2,
    TEMPLATE3,
    TEMPLATE4,
    TEMPLATE5,
    TEMPLATE6,
    TEMPLATE7,
    TEMPLATE8,
    TEMPLATE9,
    PMAG,
    VMAG,
    T_PX,
    T_PY,
    T_PA,
    T_PB,
    T_VX,
    T_VY,
    T_VA,
    T_VB,
    T_MAXWD,
    T_PMAG,
    T_VMAG,
    T_PPHSRXY,
    T_PPHSRXYA,
    T_PPHSRXYAB,
    T_VPHSRXY,
    T_VPHSRXYA,
    T_VPHSRXYAB,
    T_TPX,
    T_TPY,
    T_TPA,
    T_TPB,
    T_TVX,
    T_TVY,
    T_TVA,
    T_TVB,
    T_PPHSXY,
    T_PPHSAB,
    T_PPHSAX,
    T_PPHSAY,
    T_PPHSBX,
    T_PPHSBY,
    T_VPHSXY,
    T_VPHSAB,
    T_VPHSAX,
    T_VPHSAY,
    T_VPHSBX,
    T_VPHSBY,
    T_MAXHT,
    POS_X,
    POS_Y,
    TIME,
    TIMELO,
    TIMESTAMP,
    VEL,
    T_INPP3M3,
    T_INPP3M6,
    T_INZPM3,
    T_INZPM6,
    T_INZ6X,
    T_INZ6Y,
    T_INZ6A,
    T_INZ6B,
    T_INPP,
    T_INMAX,
    T_TPMAX,
    T_TVMAX,
    T_H1,
    T_H2,
    T_H3,
    T_H4,
}

/// One more than the largest parameter code.
pub const PARAM_CODE_LIMIT: i32 = 135;

/// The code of a parameter in AD files.
pub open spec fn param_code(p: Param) -> i32 {
    match p {
        Param::PX => 0,
        Param::PY => 1,
        Param::VX => 2,
        Param::VY => 3,
        Param::TPX => 4,
        Param::TPY => 5,
        Param::TVX => 6,
        Param::TVY => 7,
        Param::MAXHT => 8,
        Param::PPHS => 9,
        Param::VPHS => 10,
        Param::DLAT => 11,
        Param::MAXWD => 12,
        Param::XM4 => 13,
        Param::YM4 => 14,
        Param::XM2 => 15,
        Param::YM2 => 16,
        Param::X0 => 17,
        Param::Y0 => 18,
        Param::XP2 => 19,
        Param::YP2 => 20,
        Param::XP4 => 21,
        Param::YP4 => 22,
        Param::XP8 => 23,
        Param::YP8 => 24,
        Param::XP12 => 25,
        Param::YP12 => 26,
        Param::T0 => 27,
        Param::PHSM4 => 28,
        Param::PHSM2 => 29,
        Param::PHS0 => 30,
        Param::PHSP2 => 31,
        Param::PHSP4 => 32,
        Param::PHSP8 => 33,
        Param::PHSP12 => 34,
        Param::AVGPHS => 35,
        Param::SDPHS => 36,
        Param::PAMP => 37,
        Param::ZCROSS => 38,
        Param::INZPM => 39,
        Param::INZP2M2 => 40,
        Param::INZP4M4 => 41,
        Param::INZP8M8 => 42,
        Param::INPM3M6 => 43,
        Param::INPP12M12 => 44,
        Param::TEMPLATE0 => 45,
        Param::TEMPLATE1 => 46,
        Param::TEMPLATE2 => 47,
        Param::TEMPLATE3 => 48,
        Param::TEMPLATE4 => 49,
        Param::TEMPLATE5 => 50,
        Param::TEMPLATE6 => 51,
        Param::TEMPLATE7 => 52,
        Param::TEMPLATE8 => 53,
        Param::TEMPLATE9 => 54,
        Param::PMAG => 55,
        Param::VMAG => 56,
        Param::T_PX => 70,
        Param::T_PY => 71,
        Param::T_PA => 72,
        Param::T_PB => 73,
        Param::T_VX => 74,
        Param::T_VY => 75,
        Param::T_VA => 76,
        Param::T_VB => 77,
        Param::T_MAXWD => 78,
        Param::T_PMAG => 79,
        Param::T_VMAG => 80,
        Param::T_PPHSRXY => 81,
        Param::T_PPHSRXYA => 82,
        Param::T_PPHSRXYAB => 83,
        Param::T_VPHSRXY => 84,
        Param::T_VPHSRXYA => 85,
        Param::T_VPHSRXYAB => 86,
        Param::T_TPX => 90,
        Param::T_TPY => 91,
        Param::T_TPA => 92,
        Param::T_TPB => 93,
        Param::T_TVX => 94,
        Param::T_TVY => 95,
        Param::T_TVA => 96,
        Param::T_TVB => 97,
        Param::T_PPHSXY => 100,
        Param::T_PPHSAB => 101,
        Param::T_PPHSAX => 102,
        Param::T_PPHSAY => 103,
        Param::T_PPHSBX => 104,
        Param::T_PPHSBY => 105,
        Param::T_VPHSXY => 106,
        Param::T_VPHSAB => 107,
        Param::T_VPHSAX => 108,
        Param::T_VPHSAY => 109,
        Param::T_VPHSBX => 110,
        Param::T_VPHSBY => 111,
        Param::T_MAXHT => 112,
        Param::POS_X => 113,
        Param::POS_Y => 114,
        Param::TIME => 115,
        Param::TIMELO => 116,
        Param::TIMESTAMP => 117,
        Param::VEL => 118,
        Param::T_INPP3M3 => 119,
        Param::T_INPP3M6 => 120,
        Param::T_INZPM3 => 121,
        Param::T_INZPM6 => 122,
        Param::T_INZ6X => 123,
        Param::T_INZ6Y => 124,
        Param::T_INZ6A => 125,
        Param::T_INZ6B => 126,
        Param::T_INPP => 127,
        Param::T_INMAX => 128,
        Param::T_TPMAX => 129,
        Param::T_TVMAX => 130,
        Param::T_H1 => 131,
        Param::T_H2 => 132,
        Param::T_H3 => 133,
        Param::T_H4 => 134,
    }
}

/// The parameter with code `i`, if there is one.
pub open spec fn param_of_code(i: i32) -> Option<Param> {
    if exists|p: Param| param_code(p) == i {
        Some(choose|p: Param| param_code(p) == i)
    } else {
        None
    }
}

/// The name of a parameter: its identifier in lower case.
pub open spec fn param_name(p: Param) -> &'static str {
    match p {
        Param::PX => "px",
        Param::PY => "py",
        Param::VX => "vx",
        Param::VY => "vy",
        Param::TPX => "tpx",
        Param::TPY => "tpy",
        Param::TVX => "tvx",
        Param::TVY => "tvy",
        Param::MAXHT => "maxht",
        Param::PPHS => "pphs",
        Param::VPHS => "vphs",
        Param::DLAT => "dlat",
        Param::MAXWD => "maxwd",
        Param::XM4 => "xm4",
        Param::YM4 => "ym4",
        Param::XM2 => "xm2",
        Param::YM2 => "ym2",
        Param::X0 => "x0",
        Param::Y0 => "y0",
        Param::XP2 => "xp2",
        Param::YP2 => "yp2",
        Param::XP4 => "xp4",
        Param::YP4 => "yp4",
        Param::XP8 => "xp8",
        Param::YP8 => "yp8",
        Param::XP12 => "xp12",
        Param::YP12 => "yp12",
        Param::T0 => "t0",
        Param::PHSM4 => "phsm4",
        Param::PHSM2 => "phsm2",
        Param::PHS0 => "phs0",
        Param::PHSP2 => "phsp2",
        Param::PHSP4 => "phsp4",
        Param::PHSP8 => "phsp8",
        Param::PHSP12 => "phsp12",
        Param::AVGPHS => "avgphs",
        Param::SDPHS => "sdphs",
        Param::PAMP => "pamp",
        Param::ZCROSS => "zcross",
        Param::INZPM => "inzpm",
        Param::INZP2M2 => "inzp2m2",
        Param::INZP4M4 => "inzp4m4",
        Param::INZP8M8 => "inzp8m8",
        Param::INPM3M6 => "inpm3m6",
        Param::INPP12M12 => "inpp12m12",
        Param::TEMPLATE0 => "template0",
        Param::TEMPLATE1 => "template1",
        Param::TEMPLATE2 => "template2",
        Param::TEMPLATE3 => "template3",
        Param::TEMPLATE4 => "template4",
        Param::TEMPLATE5 => "template5",
        Param::TEMPLATE6 => "template6",
        Param::TEMPLATE7 => "template7",
        Param::TEMPLATE8 => "template8",
        Param::TEMPLATE9 => "template9",
        Param::PMAG => "pmag",
        Param::VMAG => "vmag",
        Param::T_PX => "t_px",
        Param::T_PY => "t_py",
        Param::T_PA => "t_pa",
        Param::T_PB => "t_pb",
        Param::T_VX => "t_vx",
        Param::T_VY => "t_vy",
        Param::T_VA => "t_va",
        Param::T_VB => "t_vb",
        Param::T_MAXWD => "t_maxwd",
        Param::T_PMAG => "t_pmag",
        Param::T_VMAG => "t_vmag",
        Param::T_PPHSRXY => "t_pphsrxy",
        Param::T_PPHSRXYA => "t_pphsrxya",
        Param::T_PPHSRXYAB => "t_pphsrxyab",
        Param::T_VPHSRXY => "t_vphsrxy",
        Param::T_VPHSRXYA => "t_vphsrxya",
        Param::T_VPHSRXYAB => "t_vphsrxyab",
        Param::T_TPX => "t_tpx",
        Param::T_TPY => "t_tpy",
        Param::T_TPA => "t_tpa",
        Param::T_TPB => "t_tpb",
        Param::T_TVX => "t_tvx",
        Param::T_TVY => "t_tvy",
        Param::T_TVA => "t_tva",
        Param::T_TVB => "t_tvb",
        Param::T_PPHSXY => "t_pphsxy",
        Param::T_PPHSAB => "t_pphsab",
        Param::T_PPHSAX => "t_pphsax",
        Param::T_PPHSAY => "t_pphsay",
        Param::T_PPHSBX => "t_pphsbx",
        Param::T_PPHSBY => "t_pphsby",
        Param::T_VPHSXY => "t_vphsxy",
        Param::T_VPHSAB => "t_vphsab",
        Param::T_VPHSAX => "t_vphsax",
        Param::T_VPHSAY => "t_vphsay",
        Param::T_VPHSBX => "t_vphsbx",
        Param::T_VPHSBY => "t_vphsby",
        Param::T_MAXHT => "t_maxht",
        Param::POS_X => "pos_x",
        Param::POS_Y => "pos_y",
        Param::TIME => "time",
        Param::TIMELO => "timelo",
        Param::TIMESTAMP => "timestamp",
        Param::VEL => "vel",
        Param::T_INPP3M3 => "t_inpp3m3",
        Param::T_INPP3M6 => "t_inpp3m6",
        Param::T_INZPM3 => "t_inzpm3",
        Param::T_INZPM6 => "t_inzpm6",
        Param::T_INZ6X => "t_inz6x",
        Param::T_INZ6Y => "t_inz6y",
        Param::T_INZ6A => "t_inz6a",
        Param::T_INZ6B => "t_inz6b",
        Param::T_INPP => "t_inpp",
        Param::T_INMAX => "t_inmax",
        Param::T_TPMAX => "t_tpmax",
        Param::T_TVMAX => "t_tvmax",
        Param::T_H1 => "t_h1",
        Param::T_H2 => "t_h2",
        Param::T_H3 => "t_h3",
        Param::T_H4 => "t_h4",
    }
}

/// The format in which a parameter's value is stored.
pub open spec fn param_format(p: Param) -> FormatType {
    match p {
        Param::T_PX | Param::T_PY | Param::T_PA | Param::T_PB | Param::T_MAXWD | Param::T_TPX | Param::T_TPY | Param::T_TPA | Param::T_TPB | Param::T_MAXHT | Param::POS_X | Param::POS_Y => FormatType::ShortT,
        Param::TIME => FormatType::DoubleT,
        Param::TIMESTAMP => FormatType::ULongT,
        _ => FormatType::FloatT,
    }
}

/// Every parameter has a code below the limit, and that code leads back to it.
pub proof fn param_codes_are_unique(p: Param)
    ensures
        0 <= param_code(p) < PARAM_CODE_LIMIT,
        param_of_code(param_code(p)) == Some(p),
{
    let q = choose|q: Param| param_code(q) == param_code(p);
    assert(param_code(q) == param_code(p));
}

impl Param {
    /// The code of this parameter in AD files.
    pub fn code(&self) -> (r: i32)
        ensures
            r == param_code(*self),
    {
        match self {
            Param::PX => 0,
            Param::PY => 1,
            Param::VX => 2,
            Param::VY => 3,
            Param::TPX => 4,
            Param::TPY => 5,
            Param::TVX => 6,
            Param::TVY => 7,
            Param::MAXHT => 8,
            Param::PPHS => 9,
            Param::VPHS => 10,
            Param::DLAT => 11,
            Param::MAXWD => 12,
            Param::XM4 => 13,
            Param::YM4 => 14,
            Param::XM2 => 15,
            Param::YM2 => 16,
            Param::X0 => 17,
            Param::Y0 => 18,
            Param::XP2 => 19,
            Param::YP2 => 20,
            Param::XP4 => 21,
            Param::YP4 => 22,
            Param::XP8 => 23,
            Param::YP8 => 24,
            Param::XP12 => 25,
            Param::YP12 => 26,
            Param::T0 => 27,
            Param::PHSM4 => 28,
            Param::PHSM2 => 29,
            Param::PHS0 => 30,
            Param::PHSP2 => 31,
            Param::PHSP4 => 32,
            Param::PHSP8 => 33,
            Param::PHSP12 => 34,
            Param::AVGPHS => 35,
            Param::SDPHS => 36,
            Param::PAMP => 37,
            Param::ZCROSS => 38,
            Param::INZPM => 39,
            Param::INZP2M2 => 40,
            Param::INZP4M4 => 41,
            Param::INZP8M8 => 42,
            Param::INPM3M6 => 43,
            Param::INPP12M12 => 44,
            Param::TEMPLATE0 => 45,
            Param::TEMPLATE1 => 46,
            Param::TEMPLATE2 => 47,
            Param::TEMPLATE3 => 48,
            Param::TEMPLATE4 => 49,
            Param::TEMPLATE5 => 50,
            Param::TEMPLATE6 => 51,
            Param::TEMPLATE7 => 52,
            Param::TEMPLATE8 => 53,
            Param::TEMPLATE9 => 54,
            Param::PMAG => 55,
            Param::VMAG => 56,
            Param::T_PX => 70,
            Param::T_PY => 71,
            Param::T_PA => 72,
            Param::T_PB => 73,
            Param::T_VX => 74,
            Param::T_VY => 75,
            Param::T_VA => 76,
            Param::T_VB => 77,
            Param::T_MAXWD => 78,
            Param::T_PMAG => 79,
            Param::T_VMAG => 80,
            Param::T_PPHSRXY => 81,
            Param::T_PPHSRXYA => 82,
            Param::T_PPHSRXYAB => 83,
            Param::T_VPHSRXY => 84,
            Param::T_VPHSRXYA => 85,
            Param::T_VPHSRXYAB => 86,
            Param::T_TPX => 90,
            Param::T_TPY => 91,
            Param::T_TPA => 92,
            Param::T_TPB => 93,
            Param::T_TVX => 94,
            Param::T_TVY => 95,
            Param::T_TVA => 96,
            Param::T_TVB => 97,
            Param::T_PPHSXY => 100,
            Param::T_PPHSAB => 101,
            Param::T_PPHSAX => 102,
            Param::T_PPHSAY => 103,
            Param::T_PPHSBX => 104,
            Param::T_PPHSBY => 105,
            Param::T_VPHSXY => 106,
            Param::T_VPHSAB => 107,
            Param::T_VPHSAX => 108,
            Param::T_VPHSAY => 109,
            Param::T_VPHSBX => 110,
            Param::T_VPHSBY => 111,
            Param::T_MAXHT => 112,
            Param::POS_X => 113,
            Param::POS_Y => 114,
            Param::TIME => 115,
            Param::TIMELO => 116,
            Param::TIMESTAMP => 117,
            Param::VEL => 118,
            Param::T_INPP3M3 => 119,
            Param::T_INPP3M6 => 120,
            Param::T_INZPM3 => 121,
            Param::T_INZPM6 => 122,
            Param::T_INZ6X => 123,
            Param::T_INZ6Y => 124,
            Param::T_INZ6A => 125,
            Param::T_INZ6B => 126,
            Param::T_INPP => 127,
            Param::T_INMAX => 128,
            Param::T_TPMAX => 129,
            Param::T_TVMAX => 130,
            Param::T_H1 => 131,
            Param::T_H2 => 132,
            Param::T_H3 => 133,
            Param::T_H4 => 134,
        }
    }

    /// The parameter with code `i`, if there is one.
    pub fn from_code(i: i32) -> (r: Option<Param>)
        ensures
            r == param_of_code(i),
    {
        let r = match i {
            0 => Some(Param::PX),
            1 => Some(Param::PY),
            2 => Some(Param::VX),
            3 => Some(Param::VY),
            4 => Some(Param::TPX),
            5 => Some(Param::TPY),
            6 => Some(Param::TVX),
            7 => Some(Param::TVY),
            8 => Some(Param::MAXHT),
            9 => Some(Param::PPHS),
            10 => Some(Param::VPHS),
            11 => Some(Param::DLAT),
            12 => Some(Param::MAXWD),
            13 => Some(Param::XM4),
            14 => Some(Param::YM4),
            15 => Some(Param::XM2),
            16 => Some(Param::YM2),
            17 => Some(Param::X0),
            18 => Some(Param::Y0),
            19 => Some(Param::XP2),
            20 => Some(Param::YP2),
            21 => Some(Param::XP4),
            22 => Some(Param::YP4),
            23 => Some(Param::XP8),
            24 => Some(Param::YP8),
            25 => Some(Param::XP12),
            26 => Some(Param::YP12),
            27 => Some(Param::T0),
            28 => Some(Param::PHSM4),
            29 => Some(Param::PHSM2),
            30 => Some(Param::PHS0),
            31 => Some(Param::PHSP2),
            32 => Some(Param::PHSP4),
            33 => Some(Param::PHSP8),
            34 => Some(Param::PHSP12),
            35 => Some(Param::AVGPHS),
            36 => Some(Param::SDPHS),
            37 => Some(Param::PAMP),
            38 => Some(Param::ZCROSS),
            39 => Some(Param::INZPM),
            40 => Some(Param::INZP2M2),
            41 => Some(Param::INZP4M4),
            42 => Some(Param::INZP8M8),
            43 => Some(Param::INPM3M6),
            44 => Some(Param::INPP12M12),
            45 => Some(Param::TEMPLATE0),
            46 => Some(Param::TEMPLATE1),
            47 => Some(Param::TEMPLATE2),
            48 => Some(Param::TEMPLATE3),
            49 => Some(Param::TEMPLATE4),
            50 => Some(Param::TEMPLATE5),
            51 => Some(Param::TEMPLATE6),
            52 => Some(Param::TEMPLATE7),
            53 => Some(Param::TEMPLATE8),
            54 => Some(Param::TEMPLATE9),
            55 => Some(Param::PMAG),
            56 => Some(Param::VMAG),
            70 => Some(Param::T_PX),
            71 => Some(Param::T_PY),
            72 => Some(Param::T_PA),
            73 => Some(Param::T_PB),
            74 => Some(Param::T_VX),
            75 => Some(Param::T_VY),
            76 => Some(Param::T_VA),
            77 => Some(Param::T_VB),
            78 => Some(Param::T_MAXWD),
            79 => Some(Param::T_PMAG),
            80 => Some(Param::T_VMAG),
            81 => Some(Param::T_PPHSRXY),
            82 => Some(Param::T_PPHSRXYA),
            83 => Some(Param::T_PPHSRXYAB),
            84 => Some(Param::T_VPHSRXY),
            85 => Some(Param::T_VPHSRXYA),
            86 => Some(Param::T_VPHSRXYAB),
            90 => Some(Param::T_TPX),
            91 => Some(Param::T_TPY),
            92 => Some(Param::T_TPA),
            93 => Some(Param::T_TPB),
            94 => Some(Param::T_TVX),
            95 => Some(Param::T_TVY),
            96 => Some(Param::T_TVA),
            97 => Some(Param::T_TVB),
            100 => Some(Param::T_PPHSXY),
            101 => Some(Param::T_PPHSAB),
            102 => Some(Param::T_PPHSAX),
            103 => Some(Param::T_PPHSAY),
            104 => Some(Param::T_PPHSBX),
            105 => Some(Param::T_PPHSBY),
            106 => Some(Param::T_VPHSXY),
            107 => Some(Param::T_VPHSAB),
            108 => Some(Param::T_VPHSAX),
            109 => Some(Param::T_VPHSAY),
            110 => Some(Param::T_VPHSBX),
            111 => Some(Param::T_VPHSBY),
            112 => Some(Param::T_MAXHT),
            113 => Some(Param::POS_X),
            114 => Some(Param::POS_Y),
            115 => Some(Param::TIME),
            116 => Some(Param::TIMELO),
            117 => Some(Param::TIMESTAMP),
            118 => Some(Param::VEL),
            119 => Some(Param::T_INPP3M3),
            120 => Some(Param::T_INPP3M6),
            121 => Some(Param::T_INZPM3),
            122 => Some(Param::T_INZPM6),
            123 => Some(Param::T_INZ6X),
            124 => Some(Param::T_INZ6Y),
            125 => Some(Param::T_INZ6A),
            126 => Some(Param::T_INZ6B),
            127 => Some(Param::T_INPP),
            128 => Some(Param::T_INMAX),
            129 => Some(Param::T_TPMAX),
            130 => Some(Param::T_TVMAX),
            131 => Some(Param::T_H1),
            132 => Some(Param::T_H2),
            133 => Some(Param::T_H3),
            134 => Some(Param::T_H4),
            _ => None,
        };
        proof {
            if let Some(p) = r {
                param_codes_are_unique(p);
            } else {
                assert forall|p: Param| param_code(p) != i by {
                    match p {
                        _ => {},
                    }
                }
            }
        }
        r
    }

    /// The name of this parameter: its identifier in lower case.
    pub fn name(&self) -> (r: &'static str)
        ensures
            r == param_name(*self),
    {
        match self {
            Param::PX => "px",
            Param::PY => "py",
            Param::VX => "vx",
            Param::VY => "vy",
            Param::TPX => "tpx",
            Param::TPY => "tpy",
            Param::TVX => "tvx",
            Param::TVY => "tvy",
            Param::MAXHT => "maxht",
            Param::PPHS => "pphs",
            Param::VPHS => "vphs",
            Param::DLAT => "dlat",
            Param::MAXWD => "maxwd",
            Param::XM4 => "xm4",
            Param::YM4 => "ym4",
            Param::XM2 => "xm2",
            Param::YM2 => "ym2",
            Param::X0 => "x0",
            Param::Y0 => "y0",
            Param::XP2 => "xp2",
            Param::YP2 => "yp2",
            Param::XP4 => "xp4",
            Param::YP4 => "yp4",
            Param::XP8 => "xp8",
            Param::YP8 => "yp8",
            Param::XP12 => "xp12",
            Param::YP12 => "yp12",
            Param::T0 => "t0",
            Param::PHSM4 => "phsm4",
            Param::PHSM2 => "phsm2",
            Param::PHS0 => "phs0",
            Param::PHSP2 => "phsp2",
            Param::PHSP4 => "phsp4",
            Param::PHSP8 => "phsp8",
            Param::PHSP12 => "phsp12",
            Param::AVGPHS => "avgphs",
            Param::SDPHS => "sdphs",
            Param::PAMP => "pamp",
            Param::ZCROSS => "zcross",
            Param::INZPM => "inzpm",
            Param::INZP2M2 => "inzp2m2",
            Param::INZP4M4 => "inzp4m4",
            Param::INZP8M8 => "inzp8m8",
            Param::INPM3M6 => "inpm3m6",
            Param::INPP12M12 => "inpp12m12",
            Param::TEMPLATE0 => "template0",
            Param::TEMPLATE1 => "template1",
            Param::TEMPLATE2 => "template2",
            Param::TEMPLATE3 => "template3",
            Param::TEMPLATE4 => "template4",
            Param::TEMPLATE5 => "template5",
            Param::TEMPLATE6 => "template6",
            Param::TEMPLATE7 => "template7",
            Param::TEMPLATE8 => "template8",
            Param::TEMPLATE9 => "template9",
            Param::PMAG => "pmag",
            Param::VMAG => "vmag",
            Param::T_PX => "t_px",
            Param::T_PY => "t_py",
            Param::T_PA => "t_pa",
            Param::T_PB => "t_pb",
            Param::T_VX => "t_vx",
            Param::T_VY => "t_vy",
            Param::T_VA => "t_va",
            Param::T_VB => "t_vb",
            Param::T_MAXWD => "t_maxwd",
            Param::T_PMAG => "t_pmag",
            Param::T_VMAG => "t_vmag",
            Param::T_PPHSRXY => "t_pphsrxy",
            Param::T_PPHSRXYA => "t_pphsrxya",
            Param::T_PPHSRXYAB => "t_pphsrxyab",
            Param::T_VPHSRXY => "t_vphsrxy",
            Param::T_VPHSRXYA => "t_vphsrxya",
            Param::T_VPHSRXYAB => "t_vphsrxyab",
            Param::T_TPX => "t_tpx",
            Param::T_TPY => "t_tpy",
            Param::T_TPA => "t_tpa",
            Param::T_TPB => "t_tpb",
            Param::T_TVX => "t_tvx",
            Param::T_TVY => "t_tvy",
            Param::T_TVA => "t_tva",
            Param::T_TVB => "t_tvb",
            Param::T_PPHSXY => "t_pphsxy",
            Param::T_PPHSAB => "t_pphsab",
            Param::T_PPHSAX => "t_pphsax",
            Param::T_PPHSAY => "t_pphsay",
            Param::T_PPHSBX => "t_pphsbx",
            Param::T_PPHSBY => "t_pphsby",
            Param::T_VPHSXY => "t_vphsxy",
            Param::T_VPHSAB => "t_vphsab",
            Param::T_VPHSAX => "t_vphsax",
            Param::T_VPHSAY => "t_vphsay",
            Param::T_VPHSBX => "t_vphsbx",
            Param::T_VPHSBY => "t_vphsby",
            Param::T_MAXHT => "t_maxht",
            Param::POS_X => "pos_x",
            Param::POS_Y => "pos_y",
            Param::TIME => "time",
            Param::TIMELO => "timelo",
            Param::TIMESTAMP => "timestamp",
            Param::VEL => "vel",
            Param::T_INPP3M3 => "t_inpp3m3",
            Param::T_INPP3M6 => "t_inpp3m6",
            Param::T_INZPM3 => "t_inzpm3",
            Param::T_INZPM6 => "t_inzpm6",
            Param::T_INZ6X => "t_inz6x",
            Param::T_INZ6Y => "t_inz6y",
            Param::T_INZ6A => "t_inz6a",
            Param::T_INZ6B => "t_inz6b",
            Param::T_INPP => "t_inpp",
            Param::T_INMAX => "t_inmax",
            Param::T_TPMAX => "t_tpmax",
            Param::T_TVMAX => "t_tvmax",
            Param::T_H1 => "t_h1",
            Param::T_H2 => "t_h2",
            Param::T_H3 => "t_h3",
            Param::T_H4 => "t_h4",
        }
    }
}

/// The format in which the value of `p` is stored: a short for amplitudes
/// and spatial coordinates, a double for the time, an unsigned long for the
/// timestamp, a float for the rest.
pub fn output_type(p: &Param) -> (r: FormatType)
    ensures
        r == param_format(*p),
{
    match p {
        Param::T_PX | Param::T_PY | Param::T_PA | Param::T_PB | Param::T_MAXWD | Param::T_TPX | Param::T_TPY | Param::T_TPA | Param::T_TPB | Param::T_MAXHT | Param::POS_X | Param::POS_Y => FormatType::ShortT,
        Param::TIME => FormatType::DoubleT,
        Param::TIMESTAMP => FormatType::ULongT,
        _ => FormatType::FloatT,
    }
}

/// What `str::to_lowercase` makes of a string.
pub uninterp spec fn lower_of(s: Seq<char>) -> Seq<char>;

/// Relies on `str::to_lowercase`: the lower-case form of a string depends on
/// its characters alone.
#[verifier::external_body]
fn lowercase(s: &str) -> (r: String)
    ensures
        r@ == lower_of(s@),
{
    s.to_lowercase()
}

/// Equality of two strings.
pub fn str_equal(a: &str, b: &str) -> (r: bool)
    ensures
        r == (a@ == b@),
{
    let eq = crate::header::bytes_equal(a.as_bytes(), b.as_bytes());
    proof {
        if eq {
            assert(vstd::utf8::decode_utf8(a.spec_bytes()) == vstd::utf8::decode_utf8(b.spec_bytes()));
        }
    }
    eq
}

/// The parameter whose name is exactly `lowered`, if there is one.
pub fn param_named(lowered: &str) -> (r: Option<Param>)
    ensures
        resolves(lowered@, r),
{
    let mut i: i32 = 0;
    while i < PARAM_CODE_LIMIT
        invariant
            0 <= i <= PARAM_CODE_LIMIT,
            forall|j: i32| 0 <= j < i ==> (#[trigger] param_of_code(j) matches Some(p) ==> param_name(p)@ != lowered@),
        decreases PARAM_CODE_LIMIT - i,
    {
        if let Some(p) = Param::from_code(i) {
            if str_equal(p.name(), lowered) {
                return Some(p);
            }
        }
        i = i + 1;
    }
    proof {
        assert forall|p: Param| (#[trigger] param_name(p))@ != lowered@ by {
            param_codes_are_unique(p);
        }
    }
    None
}

/// The parameter that a name stands for, in any case: `t_px` and `T_PX`
/// both give `T_PX`. Gives nothing for a name that no parameter has.
pub fn parse_param(i: &str) -> (r: Option<Param>)
    ensures
        resolves(lower_of(i@), r),
{
    let lowered = lowercase(i);
    param_named(lowered.as_str())
}

/// How a parameter is computed, for those that have a rule.
#[derive(Clone, Copy, Debug, PartialEq, Eq, Structural)]
pub enum ParamRule {
    /// The spike's time.
    Time,
    /// The midpoint of the two diodes along x.
    PosX,
    /// The midpoint of the two diodes along y.
    PosY,
    /// The amplitude of a channel at the time of the spike's global maximum.
    TetrodeAmplitude { channel: usize },
}

/// The rule that computes `p`, if it has one.
pub open spec fn param_rule(p: Param) -> Option<ParamRule> {
    match p {
        Param::TIME => Some(ParamRule::Time),
        Param::POS_X => Some(ParamRule::PosX),
        Param::POS_Y => Some(ParamRule::PosY),
        Param::T_PX => Some(ParamRule::TetrodeAmplitude { channel: 0 }),
        Param::T_PY => Some(ParamRule::TetrodeAmplitude { channel: 1 }),
        Param::T_PA => Some(ParamRule::TetrodeAmplitude { channel: 2 }),
        Param::T_PB => Some(ParamRule::TetrodeAmplitude { channel: 3 }),
        _ => None,
    }
}

/// The rule that computes `p`; nothing for a parameter that has none yet.
pub fn rule_of(p: &Param) -> (r: Option<ParamRule>)
    ensures
        r == param_rule(*p),
        r matches Some(ParamRule::TetrodeAmplitude { channel }) ==> channel < 4,
{
    match p {
        Param::TIME => Some(ParamRule::Time),
        Param::POS_X => Some(ParamRule::PosX),
        Param::POS_Y => Some(ParamRule::PosY),
        Param::T_PX => Some(ParamRule::TetrodeAmplitude { channel: 0 }),
        Param::T_PY => Some(ParamRule::TetrodeAmplitude { channel: 1 }),
        Param::T_PA => Some(ParamRule::TetrodeAmplitude { channel: 2 }),
        Param::T_PB => Some(ParamRule::TetrodeAmplitude { channel: 3 }),
        _ => None,
    }
}

/// The parameter that a name picks out, by its length and then by the
/// characters that tell it apart from the others of that length.
spec fn param_of_name(s: Seq<char>) -> Option<Param> {
    if s.len() == 2 {
        if s[0] == 'p' {
            if s[1] == 'x' {
                Some(Param::PX)
            } else if s[1] == 'y' {
                Some(Param::PY)
            } else {
                None
            }
        } else if s[0] == 'v' {
            if s[1] == 'x' {
                Some(Param::VX)
            } else if s[1] == 'y' {
                Some(Param::VY)
            } else {
                None
            }
        } else if s[0] == 'x' {
            Some(Param::X0)
        } else if s[0] == 'y' {
            Some(Param::Y0)
        } else if s[0] == 't' {
            Some(Param::T0)
        } else {
            None
        }
    } else if s.len() == 3 {
        if s[0] == 't' {
            if s[1] == 'p' {
                if s[2] == 'x' {
                    Some(Param::TPX)
                } else if s[2] == 'y' {
                    Some(Param::TPY)
                } else {
                    None
                }
            } else if s[1] == 'v' {
                if s[2] == 'x' {
                    Some(Param::TVX)
                } else if s[2] == 'y' {
                    Some(Param::TVY)
                } else {
                    None
                }
            } else {
                None
            }
        } else if s[0] == 'x' {
            if s[1] == 'm' {
                if s[2] == '4' {
                    Some(Param::XM4)
                } else if s[2] == '2' {
                    Some(Param::XM2)
                } else {
                    None
                }
            } else if s[1] == 'p' {
                if s[2] == '2' {
                    Some(Param::XP2)
                } else if s[2] == '4' {
                    Some(Param::XP4)
                } else if s[2] == '8' {
                    Some(Param::XP8)
                } else {
                    None
                }
            } else {
                None
            }
        } else if s[0] == 'y' {
            if s[1] == 'm' {
                if s[2] == '4' {
                    Some(Param::YM4)
                } else if s[2] == '2' {
                    Some(Param::YM2)
                } else {
                    None
                }
            } else if s[1] == 'p' {
                if s[2] == '2' {
                    Some(Param::YP2)
                } else if s[2] == '4' {
                    Some(Param::YP4)
                } else if s[2] == '8' {
                    Some(Param::YP8)
                } else {
                    None
                }
            } else {
                None
            }
        } else if s[0] == 'v' {
            Some(Param::VEL)
        } else {
            None
        }
    } else if s.len() == 4 {
        if s[0] == 'p' {
            if s[1] == 'p' {
                Some(Param::PPHS)
            } else if s[1] == 'h' {
                Some(Param::PHS0)
            } else if s[1] == 'a' {
                Some(Param::PAMP)
            } else if s[1] == 'm' {
                Some(Param::PMAG)
            } else {
                None
            }
        } else if s[0] == 'v' {
            if s[1] == 'p' {
                Some(Param::VPHS)
            } else if s[1] == 'm' {
                Some(Param::VMAG)
            } else {
                None
            }
        } else if s[0] == 'd' {
            Some(Param::DLAT)
        } else if s[0] == 'x' {
            Some(Param::XP12)
        } else if s[0] == 'y' {
            Some(Param::YP12)
        } else if s[0] == 't' {
            if s[1] == '_' {
                if s[2] == 'p' {
                    if s[3] == 'x' {
                        Some(Param::T_PX)
                    } else if s[3] == 'y' {
                        Some(Param::T_PY)
                    } else if s[3] == 'a' {
                        Some(Param::T_PA)
                    } else if s[3] == 'b' {
                        Some(Param::T_PB)
                    } else {
                        None
                    }
                } else if s[2] == 'v' {
                    if s[3] == 'x' {
                        Some(Param::T_VX)
                    } else if s[3] == 'y' {
                        Some(Param::T_VY)
                    } else if s[3] == 'a' {
                        Some(Param::T_VA)
                    } else if s[3] == 'b' {
                        Some(Param::T_VB)
                    } else {
                        None
                    }
                } else if s[2] == 'h' {
                    if s[3] == '1' {
                        Some(Param::T_H1)
                    } else if s[3] == '2' {
                        Some(Param::T_H2)
                    } else if s[3] == '3' {
                        Some(Param::T_H3)
                    } else if s[3] == '4' {
                        Some(Param::T_H4)
                    } else {
                        None
                    }
                } else {
                    None
                }
            } else if s[1] == 'i' {
                Some(Param::TIME)
            } else {
                None
            }
        } else {
            None
        }
    } else if s.len() == 5 {
        if s[0] == 'm' {
            if s[3] == 'h' {
                Some(Param::MAXHT)
            } else if s[3] == 'w' {
                Some(Param::MAXWD)
            } else {
                None
            }
        } else if s[0] == 'p' {
            if s[1] == 'h' {
                if s[3] == 'm' {
                    if s[4] == '4' {
                        Some(Param::PHSM4)
                    } else if s[4] == '2' {
                        Some(Param::PHSM2)
                    } else {
                        None
                    }
                } else if s[3] == 'p' {
                    if s[4] == '2' {
                        Some(Param::PHSP2)
                    } else if s[4] == '4' {
                        Some(Param::PHSP4)
                    } else if s[4] == '8' {
                        Some(Param::PHSP8)
                    } else {
                        None
                    }
                } else {
                    None
                }
            } else if s[1] == 'o' {
                if s[4] == 'x' {
                    Some(Param::POS_X)
                } else if s[4] == 'y' {
                    Some(Param::POS_Y)
                } else {
                    None
                }
            } else {
                None
            }
        } else if s[0] == 's' {
            Some(Param::SDPHS)
        } else if s[0] == 'i' {
            Some(Param::INZPM)
        } else if s[0] == 't' {
            if s[3] == 'p' {
                if s[4] == 'x' {
                    Some(Param::T_TPX)
                } else if s[4] == 'y' {
                    Some(Param::T_TPY)
                } else if s[4] == 'a' {
                    Some(Param::T_TPA)
                } else if s[4] == 'b' {
                    Some(Param::T_TPB)
                } else {
                    None
                }
            } else if s[3] == 'v' {
                if s[4] == 'x' {
                    Some(Param::T_TVX)
                } else if s[4] == 'y' {
                    Some(Param::T_TVY)
                } else if s[4] == 'a' {
                    Some(Param::T_TVA)
                } else if s[4] == 'b' {
                    Some(Param::T_TVB)
                } else {
                    None
                }
            } else {
                None
            }
        } else {
            None
        }
    } else if s.len() == 6 {
        if s[0] == 'p' {
            Some(Param::PHSP12)
        } else if s[0] == 'a' {
            Some(Param::AVGPHS)
        } else if s[0] == 'z' {
            Some(Param::ZCROSS)
        } else if s[0] == 't' {
            if s[1] == '_' {
                if s[2] == 'p' {
                    Some(Param::T_PMAG)
                } else if s[2] == 'v' {
                    Some(Param::T_VMAG)
                } else if s[2] == 'i' {
                    Some(Param::T_INPP)
                } else {
                    None
                }
            } else if s[1] == 'i' {
                Some(Param::TIMELO)
            } else {
                None
            }
        } else {
            None
        }
    } else if s.len() == 7 {
        if s[0] == 'i' {
            if s[2] == 'z' {
                if s[4] == '2' {
                    Some(Param::INZP2M2)
                } else if s[4] == '4' {
                    Some(Param::INZP4M4)
                } else if s[4] == '8' {
                    Some(Param::INZP8M8)
                } else {
                    None
                }
            } else if s[2] == 'p' {
                Some(Param::INPM3M6)
            } else {
                None
            }
        } else if s[0] == 't' {
            if s[2] == 'm' {
                if s[5] == 'w' {
                    Some(Param::T_MAXWD)
                } else if s[5] == 'h' {
                    Some(Param::T_MAXHT)
                } else {
                    None
                }
            } else if s[2] == 'i' {
                if s[4] == 'z' {
                    if s[6] == 'x' {
                        Some(Param::T_INZ6X)
                    } else if s[6] == 'y' {
                        Some(Param::T_INZ6Y)
                    } else if s[6] == 'a' {
                        Some(Param::T_INZ6A)
                    } else if s[6] == 'b' {
                        Some(Param::T_INZ6B)
                    } else {
                        None
                    }
                } else if s[4] == 'm' {
                    Some(Param::T_INMAX)
                } else {
                    None
                }
            } else if s[2] == 't' {
                if s[3] == 'p' {
                    Some(Param::T_TPMAX)
                } else if s[3] == 'v' {
                    Some(Param::T_TVMAX)
                } else {
                    None
                }
            } else {
                None
            }
        } else {
            None
        }
    } else if s.len() == 8 {
        if s[2] == 'p' {
            if s[6] == 'x' {
                Some(Param::T_PPHSXY)
            } else if s[6] == 'a' {
                if s[7] == 'b' {
                    Some(Param::T_PPHSAB)
                } else if s[7] == 'x' {
                    Some(Param::T_PPHSAX)
                } else if s[7] == 'y' {
                    Some(Param::T_PPHSAY)
                } else {
                    None
                }
            } else if s[6] == 'b' {
                if s[7] == 'x' {
                    Some(Param::T_PPHSBX)
                } else if s[7] == 'y' {
                    Some(Param::T_PPHSBY)
                } else {
                    None
                }
            } else {
                None
            }
        } else if s[2] == 'v' {
            if s[6] == 'x' {
                Some(Param::T_VPHSXY)
            } else if s[6] == 'a' {
                if s[7] == 'b' {
                    Some(Param::T_VPHSAB)
                } else if s[7] == 'x' {
                    Some(Param::T_VPHSAX)
                } else if s[7] == 'y' {
                    Some(Param::T_VPHSAY)
                } else {
                    None
                }
            } else if s[6] == 'b' {
                if s[7] == 'x' {
                    Some(Param::T_VPHSBX)
                } else if s[7] == 'y' {
                    Some(Param::T_VPHSBY)
                } else {
                    None
                }
            } else {
                None
            }
        } else if s[2] == 'i' {
            if s[7] == '3' {
                Some(Param::T_INZPM3)
            } else if s[7] == '6' {
                Some(Param::T_INZPM6)
            } else {
                None
            }
        } else {
            None
        }
    } else if s.len() == 9 {
        if s[0] == 'i' {
            Some(Param::INPP12M12)
        } else if s[0] == 't' {
            if s[1] == 'e' {
                if s[8] == '0' {
                    Some(Param::TEMPLATE0)
                } else if s[8] == '1' {
                    Some(Param::TEMPLATE1)
                } else if s[8] == '2' {
                    Some(Param::TEMPLATE2)
                } else if s[8] == '3' {
                    Some(Param::TEMPLATE3)
                } else if s[8] == '4' {
                    Some(Param::TEMPLATE4)
                } else if s[8] == '5' {
                    Some(Param::TEMPLATE5)
                } else if s[8] == '6' {
                    Some(Param::TEMPLATE6)
                } else if s[8] == '7' {
                    Some(Param::TEMPLATE7)
                } else if s[8] == '8' {
                    Some(Param::TEMPLATE8)
                } else if s[8] == '9' {
                    Some(Param::TEMPLATE9)
                } else {
                    None
                }
            } else if s[1] == '_' {
                if s[2] == 'p' {
                    Some(Param::T_PPHSRXY)
                } else if s[2] == 'v' {
                    Some(Param::T_VPHSRXY)
                } else if s[2] == 'i' {
                    if s[8] == '3' {
                        Some(Param::T_INPP3M3)
                    } else if s[8] == '6' {
                        Some(Param::T_INPP3M6)
                    } else {
                        None
                    }
                } else {
                    None
                }
            } else if s[1] == 'i' {
                Some(Param::TIMESTAMP)
            } else {
                None
            }
        } else {
            None
        }
    } else if s.len() == 10 {
        if s[2] == 'p' {
            Some(Param::T_PPHSRXYA)
        } else if s[2] == 'v' {
            Some(Param::T_VPHSRXYA)
        } else {
            None
        }
    } else if s.len() == 11 {
        if s[2] == 'p' {
            Some(Param::T_PPHSRXYAB)
        } else if s[2] == 'v' {
            Some(Param::T_VPHSRXYAB)
        } else {
            None
        }
    } else {
        None
    }
}

proof fn lemma_name_leads_back(p: Param)
    ensures
        param_of_name(param_name(p)@) == Some(p),
{
    match p {
        Param::PX => {
            reveal_strlit("px");
        },
        Param::PY => {
            reveal_strlit("py");
        },
        Param::VX => {
            reveal_strlit("vx");
        },
        Param::VY => {
            reveal_strlit("vy");
        },
        Param::TPX => {
            reveal_strlit("tpx");
        },
        Param::TPY => {
            reveal_strlit("tpy");
        },
        Param::TVX => {
            reveal_strlit("tvx");
        },
        Param::TVY => {
            reveal_strlit("tvy");
        },
        Param::MAXHT => {
            reveal_strlit("maxht");
        },
        Param::PPHS => {
            reveal_strlit("pphs");
        },
        Param::VPHS => {
            reveal_strlit("vphs");
        },
        Param::DLAT => {
            reveal_strlit("dlat");
        },
        Param::MAXWD => {
            reveal_strlit("maxwd");
        },
        Param::XM4 => {
            reveal_strlit("xm4");
        },
        Param::YM4 => {
            reveal_strlit("ym4");
        },
        Param::XM2 => {
            reveal_strlit("xm2");
        },
        Param::YM2 => {
            reveal_strlit("ym2");
        },
        Param::X0 => {
            reveal_strlit("x0");
        },
        Param::Y0 => {
            reveal_strlit("y0");
        },
        Param::XP2 => {
            reveal_strlit("xp2");
        },
        Param::YP2 => {
            reveal_strlit("yp2");
        },
        Param::XP4 => {
            reveal_strlit("xp4");
        },
        Param::YP4 => {
            reveal_strlit("yp4");
        },
        Param::XP8 => {
            reveal_strlit("xp8");
        },
        Param::YP8 => {
            reveal_strlit("yp8");
        },
        Param::XP12 => {
            reveal_strlit("xp12");
        },
        Param::YP12 => {
            reveal_strlit("yp12");
        },
        Param::T0 => {
            reveal_strlit("t0");
        },
        Param::PHSM4 => {
            reveal_strlit("phsm4");
        },
        Param::PHSM2 => {
            reveal_strlit("phsm2");
        },
        Param::PHS0 => {
            reveal_strlit("phs0");
        },
        Param::PHSP2 => {
            reveal_strlit("phsp2");
        },
        Param::PHSP4 => {
            reveal_strlit("phsp4");
        },
        Param::PHSP8 => {
            reveal_strlit("phsp8");
        },
        Param::PHSP12 => {
            reveal_strlit("phsp12");
        },
        Param::AVGPHS => {
            reveal_strlit("avgphs");
        },
        Param::SDPHS => {
            reveal_strlit("sdphs");
        },
        Param::PAMP => {
            reveal_strlit("pamp");
        },
        Param::ZCROSS => {
            reveal_strlit("zcross");
        },
        Param::INZPM => {
            reveal_strlit("inzpm");
        },
        Param::INZP2M2 => {
            reveal_strlit("inzp2m2");
        },
        Param::INZP4M4 => {
            reveal_strlit("inzp4m4");
        },
        Param::INZP8M8 => {
            reveal_strlit("inzp8m8");
        },
        Param::INPM3M6 => {
            reveal_strlit("inpm3m6");
        },
        Param::INPP12M12 => {
            reveal_strlit("inpp12m12");
        },
        Param::TEMPLATE0 => {
            reveal_strlit("template0");
        },
        Param::TEMPLATE1 => {
            reveal_strlit("template1");
        },
        Param::TEMPLATE2 => {
            reveal_strlit("template2");
        },
        Param::TEMPLATE3 => {
            reveal_strlit("template3");
        },
        Param::TEMPLATE4 => {
            reveal_strlit("template4");
        },
        Param::TEMPLATE5 => {
            reveal_strlit("template5");
        },
        Param::TEMPLATE6 => {
            reveal_strlit("template6");
        },
        Param::TEMPLATE7 => {
            reveal_strlit("template7");
        },
        Param::TEMPLATE8 => {
            reveal_strlit("template8");
        },
        Param::TEMPLATE9 => {
            reveal_strlit("template9");
        },
        Param::PMAG => {
            reveal_strlit("pmag");
        },
        Param::VMAG => {
            reveal_strlit("vmag");
        },
        Param::T_PX => {
            reveal_strlit("t_px");
        },
        Param::T_PY => {
            reveal_strlit("t_py");
        },
        Param::T_PA => {
            reveal_strlit("t_pa");
        },
        Param::T_PB => {
            reveal_strlit("t_pb");
        },
        Param::T_VX => {
            reveal_strlit("t_vx");
        },
        Param::T_VY => {
            reveal_strlit("t_vy");
        },
        Param::T_VA => {
            reveal_strlit("t_va");
        },
        Param::T_VB => {
            reveal_strlit("t_vb");
        },
        Param::T_MAXWD => {
            reveal_strlit("t_maxwd");
        },
        Param::T_PMAG => {
            reveal_strlit("t_pmag");
        },
        Param::T_VMAG => {
            reveal_strlit("t_vmag");
        },
        Param::T_PPHSRXY => {
            reveal_strlit("t_pphsrxy");
        },
        Param::T_PPHSRXYA => {
            reveal_strlit("t_pphsrxya");
        },
        Param::T_PPHSRXYAB => {
            reveal_strlit("t_pphsrxyab");
        },
        Param::T_VPHSRXY => {
            reveal_strlit("t_vphsrxy");
        },
        Param::T_VPHSRXYA => {
            reveal_strlit("t_vphsrxya");
        },
        Param::T_VPHSRXYAB => {
            reveal_strlit("t_vphsrxyab");
        },
        Param::T_TPX => {
            reveal_strlit("t_tpx");
        },
        Param::T_TPY => {
            reveal_strlit("t_tpy");
        },
        Param::T_TPA => {
            reveal_strlit("t_tpa");
        },
        Param::T_TPB => {
            reveal_strlit("t_tpb");
        },
        Param::T_TVX => {
            reveal_strlit("t_tvx");
        },
        Param::T_TVY => {
            reveal_strlit("t_tvy");
        },
        Param::T_TVA => {
            reveal_strlit("t_tva");
        },
        Param::T_TVB => {
            reveal_strlit("t_tvb");
        },
        Param::T_PPHSXY => {
            reveal_strlit("t_pphsxy");
        },
        Param::T_PPHSAB => {
            reveal_strlit("t_pphsab");
        },
        Param::T_PPHSAX => {
            reveal_strlit("t_pphsax");
        },
        Param::T_PPHSAY => {
            reveal_strlit("t_pphsay");
        },
        Param::T_PPHSBX => {
            reveal_strlit("t_pphsbx");
        },
        Param::T_PPHSBY => {
            reveal_strlit("t_pphsby");
        },
        Param::T_VPHSXY => {
            reveal_strlit("t_vphsxy");
        },
        Param::T_VPHSAB => {
            reveal_strlit("t_vphsab");
        },
        Param::T_VPHSAX => {
            reveal_strlit("t_vphsax");
        },
        Param::T_VPHSAY => {
            reveal_strlit("t_vphsay");
        },
        Param::T_VPHSBX => {
            reveal_strlit("t_vphsbx");
        },
        Param::T_VPHSBY => {
            reveal_strlit("t_vphsby");
        },
        Param::T_MAXHT => {
            reveal_strlit("t_maxht");
        },
        Param::POS_X => {
            reveal_strlit("pos_x");
        },
        Param::POS_Y => {
            reveal_strlit("pos_y");
        },
        Param::TIME => {
            reveal_strlit("time");
        },
        Param::TIMELO => {
            reveal_strlit("timelo");
        },
        Param::TIMESTAMP => {
            reveal_strlit("timestamp");
        },
        Param::VEL => {
            reveal_strlit("vel");
        },
        Param::T_INPP3M3 => {
            reveal_strlit("t_inpp3m3");
        },
        Param::T_INPP3M6 => {
            reveal_strlit("t_inpp3m6");
        },
        Param::T_INZPM3 => {
            reveal_strlit("t_inzpm3");
        },
        Param::T_INZPM6 => {
            reveal_strlit("t_inzpm6");
        },
        Param::T_INZ6X => {
            reveal_strlit("t_inz6x");
        },
        Param::T_INZ6Y => {
            reveal_strlit("t_inz6y");
        },
        Param::T_INZ6A => {
            reveal_strlit("t_inz6a");
        },
        Param::T_INZ6B => {
            reveal_strlit("t_inz6b");
        },
        Param::T_INPP => {
            reveal_strlit("t_inpp");
        },
        Param::T_INMAX => {
            reveal_strlit("t_inmax");
        },
        Param::T_TPMAX => {
            reveal_strlit("t_tpmax");
        },
        Param::T_TVMAX => {
            reveal_strlit("t_tvmax");
        },
        Param::T_H1 => {
            reveal_strlit("t_h1");
        },
        Param::T_H2 => {
            reveal_strlit("t_h2");
        },
        Param::T_H3 => {
            reveal_strlit("t_h3");
        },
        Param::T_H4 => {
            reveal_strlit("t_h4");
        },
    }
}

/// Different parameters have different names.
pub proof fn param_names_are_distinct(p: Param, q: Param)
    requires
        param_name(p)@ == param_name(q)@,
    ensures
        p == q,
{
    lemma_name_leads_back(p);
    lemma_name_leads_back(q);
}

/// Whether `r` is what looking up the name `l` gives: the parameter of that
/// name, or nothing when no parameter has it.
pub open spec fn resolves(l: Seq<char>, r: Option<Param>) -> bool {
    &&& r matches Some(p) ==> param_name(p)@ == l
    &&& r is None <==> (forall|p: Param| (#[trigger] param_name(p))@ != l)
}

/// A name resolves to one result only, and each parameter is found by its
/// own name.
pub proof fn resolution_is_exact(l: Seq<char>, r1: Option<Param>, r2: Option<Param>, p: Param)
    requires
        resolves(l, r1),
        resolves(l, r2),
    ensures
        r1 == r2,
        l == param_name(p)@ ==> r1 == Some(p),
{
    if let Some(p1) = r1 {
        if let Some(p2) = r2 {
            param_names_are_distinct(p1, p2);
        }
    }
    if l == param_name(p)@ {
        if let Some(p1) = r1 {
            param_names_are_distinct(p1, p);
        }
    }
}

/// Names that are the same in lower case resolve to the same parameter.
pub proof fn case_does_not_matter(a: Seq<char>, b: Seq<char>, ra: Option<Param>, rb: Option<Param>)
    requires
        lower_of(a) == lower_of(b),
        resolves(lower_of(a), ra),
        resolves(lower_of(b), rb),
    ensures
        ra == rb,
{
    resolution_is_exact(lower_of(a), ra, rb, Param::PX);
}

} // verus!
