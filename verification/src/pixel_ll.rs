use std::str::FromStr;

use vstd::prelude::*;

use crate::decimal::parse_u8_decimal;
use crate::decimal::u8_from_decimal;

verus! {

/// Zoom level of the slippy-map tiling, an integer between 0 and 24.
///
/// 24 is the practical ceiling for web map tile pyramids, so larger
/// levels are rejected by `parse`.
#[derive(Debug, Clone, Copy, PartialEq, Eq, Structural, PartialOrd, Ord, Hash)]
pub enum ZoomLv {
    Lv0,
    Lv1,
    Lv2,
    Lv3,
    Lv4,
    Lv5,
    Lv6,
    Lv7,
    Lv8,
    Lv9,
    Lv10,
    Lv11,
    Lv12,
    Lv13,
    Lv14,
    Lv15,
    Lv16,
    Lv17,
    Lv18,
    Lv19,
    Lv20,
    Lv21,
    Lv22,
    Lv23,
    Lv24,
}

impl ZoomLv {
    /// The numeric zoom level that this variant stands for.
    pub open spec fn as_level(self) -> u8 {
        match self {
            ZoomLv::Lv0 => 0,
            ZoomLv::Lv1 => 1,
            ZoomLv::Lv2 => 2,
            ZoomLv::Lv3 => 3,
            ZoomLv::Lv4 => 4,
            ZoomLv::Lv5 => 5,
            ZoomLv::Lv6 => 6,
            ZoomLv::Lv7 => 7,
            ZoomLv::Lv8 => 8,
            ZoomLv::Lv9 => 9,
            ZoomLv::Lv10 => 10,
            ZoomLv::Lv11 => 11,
            ZoomLv::Lv12 => 12,
            ZoomLv::Lv13 => 13,
            ZoomLv::Lv14 => 14,
            ZoomLv::Lv15 => 15,
            ZoomLv::Lv16 => 16,
            ZoomLv::Lv17 => 17,
            ZoomLv::Lv18 => 18,
            ZoomLv::Lv19 => 19,
            ZoomLv::Lv20 => 20,
            ZoomLv::Lv21 => 21,
            ZoomLv::Lv22 => 22,
            ZoomLv::Lv23 => 23,
            ZoomLv::Lv24 => 24,
        }
    }

    /// Numeric value of the zoom level, between 0 and 24.
    pub fn level(&self) -> (r: u8)
        ensures
            r == self.as_level(),
    {
        match self {
            ZoomLv::Lv0 => 0,
            ZoomLv::Lv1 => 1,
            ZoomLv::Lv2 => 2,
            ZoomLv::Lv3 => 3,
            ZoomLv::Lv4 => 4,
            ZoomLv::Lv5 => 5,
            ZoomLv::Lv6 => 6,
            ZoomLv::Lv7 => 7,
            ZoomLv::Lv8 => 8,
            ZoomLv::Lv9 => 9,
            ZoomLv::Lv10 => 10,
            ZoomLv::Lv11 => 11,
            ZoomLv::Lv12 => 12,
            ZoomLv::Lv13 => 13,
            ZoomLv::Lv14 => 14,
            ZoomLv::Lv15 => 15,
            ZoomLv::Lv16 => 16,
            ZoomLv::Lv17 => 17,
            ZoomLv::Lv18 => 18,
            ZoomLv::Lv19 => 19,
            ZoomLv::Lv20 => 20,
            ZoomLv::Lv21 => 21,
            ZoomLv::Lv22 => 22,
            ZoomLv::Lv23 => 23,
            ZoomLv::Lv24 => 24,
        }
    }

    /// Validates a raw number as a zoom level: `Ok` exactly for 0 to 24,
    /// `Err` for anything larger.
    pub fn parse(num: u8) -> (r: Result<ZoomLv, ()>)
        ensures
            r is Ok <==> num <= 24,
            r matches Ok(lv) ==> lv.as_level() == num,
    {
        match num {
            0 => Ok(ZoomLv::Lv0),
            1 => Ok(ZoomLv::Lv1),
            2 => Ok(ZoomLv::Lv2),
            3 => Ok(ZoomLv::Lv3),
            4 => Ok(ZoomLv::Lv4),
            5 => Ok(ZoomLv::Lv5),
            6 => Ok(ZoomLv::Lv6),
            7 => Ok(ZoomLv::Lv7),
            8 => Ok(ZoomLv::Lv8),
            9 => Ok(ZoomLv::Lv9),
            10 => Ok(ZoomLv::Lv10),
            11 => Ok(ZoomLv::Lv11),
            12 => Ok(ZoomLv::Lv12),
            13 => Ok(ZoomLv::Lv13),
            14 => Ok(ZoomLv::Lv14),
            15 => Ok(ZoomLv::Lv15),
            16 => Ok(ZoomLv::Lv16),
            17 => Ok(ZoomLv::Lv17),
            18 => Ok(ZoomLv::Lv18),
            19 => Ok(ZoomLv::Lv19),
            20 => Ok(ZoomLv::Lv20),
            21 => Ok(ZoomLv::Lv21),
            22 => Ok(ZoomLv::Lv22),
            23 => Ok(ZoomLv::Lv23),
            24 => Ok(ZoomLv::Lv24),
            _ => Err(()),
        }
    }

    /// Parses a decimal string as a zoom level and validates it as
    /// `parse` does; a string that does not denote a `u8` is rejected.
    pub fn parse_str(s: &str) -> (r: Result<ZoomLv, ()>)
        ensures
            r is Ok <==> (u8_from_decimal(s@) matches Some(v) && v <= 24),
            r matches Ok(lv) ==> u8_from_decimal(s@) == Some(lv.as_level()),
    {
        match parse_u8_decimal(s) {
            Some(v) => ZoomLv::parse(v),
            None => Err(()),
        }
    }
}

impl FromStr for ZoomLv {
    type Err = ();

    fn from_str(s: &str) -> Result<ZoomLv, ()> {
        ZoomLv::parse_str(s)
    }
}

/// Converts a pixel coordinate to the tile coordinate that holds it:
/// each tile is a 256-by-256 block of pixels, so both components are
/// divided by 256, truncating.
pub fn pixel2tile(pixel: (u32, u32)) -> (r: (u32, u32))
    ensures
        r.0 == pixel.0 / 256,
        r.1 == pixel.1 / 256,
{
    let (x, y) = pixel;
    (x / 256, y / 256)
}

} // verus!
