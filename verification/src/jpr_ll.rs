use std::str::FromStr;

use vstd::prelude::*;

use crate::decimal::parse_u8_decimal;
use crate::decimal::u8_from_decimal;

verus! {

/// Origin of the Japan Plane Rectangular coordinate system.
///
/// The system defines nineteen regional origins, numbered 1 to 19;
/// every coordinate in that system is relative to one of them.
#[derive(Debug, Clone, Copy, PartialEq, Eq, Structural, PartialOrd, Ord, Hash)]
pub enum JprOrigin {
    One,
    Two,
    Three,
    Four,
    Five,
    Six,
    Seven,
    Eight,
    Nine,
    Ten,
    Eleven,
    Twelve,
    Thirteen,
    Fourteen,
    Fifteen,
    Sixteen,
    Seventeen,
    Eighteen,
    Nineteen,
}

impl JprOrigin {
    /// The origin number that this variant stands for.
    pub open spec fn as_number(self) -> u8 {
        match self {
            JprOrigin::One => 1,
            JprOrigin::Two => 2,
            JprOrigin::Three => 3,
            JprOrigin::Four => 4,
            JprOrigin::Five => 5,
            JprOrigin::Six => 6,
            JprOrigin::Seven => 7,
            JprOrigin::Eight => 8,
            JprOrigin::Nine => 9,
            JprOrigin::Ten => 10,
            JprOrigin::Eleven => 11,
            JprOrigin::Twelve => 12,
            JprOrigin::Thirteen => 13,
            JprOrigin::Fourteen => 14,
            JprOrigin::Fifteen => 15,
            JprOrigin::Sixteen => 16,
            JprOrigin::Seventeen => 17,
            JprOrigin::Eighteen => 18,
            JprOrigin::Nineteen => 19,
        }
    }

    /// Numeric value of the origin, between 1 and 19.
    pub fn number(&self) -> (r: u8)
        ensures
            r == self.as_number(),
    {
        match self {
            JprOrigin::One => 1,
            JprOrigin::Two => 2,
            JprOrigin::Three => 3,
            JprOrigin::Four => 4,
            JprOrigin::Five => 5,
            JprOrigin::Six => 6,
            JprOrigin::Seven => 7,
            JprOrigin::Eight => 8,
            JprOrigin::Nine => 9,
            JprOrigin::Ten => 10,
            JprOrigin::Eleven => 11,
            JprOrigin::Twelve => 12,
            JprOrigin::Thirteen => 13,
            JprOrigin::Fourteen => 14,
            JprOrigin::Fifteen => 15,
            JprOrigin::Sixteen => 16,
            JprOrigin::Seventeen => 17,
            JprOrigin::Eighteen => 18,
            JprOrigin::Nineteen => 19,
        }
    }

    /// Validates a raw number as an origin: `Ok` exactly for 1 to 19,
    /// `Err` for 0 and for anything larger than 19.
    pub fn parse(num: u8) -> (r: Result<JprOrigin, ()>)
        ensures
            r is Ok <==> 1 <= num <= 19,
            r matches Ok(o) ==> o.as_number() == num,
    {
        match num {
            1 => Ok(JprOrigin::One),
            2 => Ok(JprOrigin::Two),
            3 => Ok(JprOrigin::Three),
            4 => Ok(JprOrigin::Four),
            5 => Ok(JprOrigin::Five),
            6 => Ok(JprOrigin::Six),
            7 => Ok(JprOrigin::Seven),
            8 => Ok(JprOrigin::Eight),
            9 => Ok(JprOrigin::Nine),
            10 => Ok(JprOrigin::Ten),
            11 => Ok(JprOrigin::Eleven),
            12 => Ok(JprOrigin::Twelve),
            13 => Ok(JprOrigin::Thirteen),
            14 => Ok(JprOrigin::Fourteen),
            15 => Ok(JprOrigin::Fifteen),
            16 => Ok(JprOrigin::Sixteen),
            17 => Ok(JprOrigin::Seventeen),
            18 => Ok(JprOrigin::Eighteen),
            19 => Ok(JprOrigin::Nineteen),
            _ => Err(()),
        }
    }

    /// Parses a decimal string as an origin number and validates it as
    /// `parse` does; a string that does not denote a `u8` is rejected.
    pub fn parse_str(s: &str) -> (r: Result<JprOrigin, ()>)
        ensures
            r is Ok <==> (u8_from_decimal(s@) matches Some(v) && 1 <= v <= 19),
            r matches Ok(o) ==> u8_from_decimal(s@) == Some(o.as_number()),
    {
        match parse_u8_decimal(s) {
            Some(v) => JprOrigin::parse(v),
            None => Err(()),
        }
    }
}

impl FromStr for JprOrigin {
    type Err = ();

    fn from_str(s: &str) -> Result<JprOrigin, ()> {
        JprOrigin::parse_str(s)
    }
}

} // verus!
