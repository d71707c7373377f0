//! Physical lengths and their conversion into the units that the renderer
//! engines and the print spooler take.
//!
//! A length is kept as a whole number of micrometres, so that every
//! conversion is exact integer arithmetic. Where a tool wants an integer the
//! value is rounded to the nearest one, halves away from zero; lengths are
//! positive, so that is upwards.

use crate::text::{decimal, decimal_string, digit_char, digit_str};
use vstd::prelude::*;
use vstd::string::*;

verus! {

/// Points for a length in micrometres: `mm * 2.83465`, rounded to the
/// nearest whole point, halves upwards.
pub open spec fn spec_points(um: nat) -> nat {
    ((um * 283_465 + 50_000_000) / 100_000_000) as nat
}

/// Tenths of a millimetre for a length in micrometres: `mm * 10`, rounded
/// to the nearest tenth, halves upwards.
pub open spec fn spec_tenths(um: nat) -> nat {
    ((um + 50) / 100) as nat
}

/// Pixels at 300 dpi for a length in micrometres: `mm * 300 / 25.4`, which
/// is `um * 3 / 254`, rounded to the nearest whole pixel, halves upwards.
pub open spec fn spec_pixels(um: nat) -> nat {
    ((um * 3 + 127) / 254) as nat
}

/// Micrometres for a whole number of points, rounded to the nearest
/// micrometre: the inverse of `spec_points` up to rounding.
pub open spec fn spec_points_to_micrometers(pt: nat) -> nat {
    ((pt * 100_000_000 + 141_732) / 283_465) as nat
}

/// Micrometres for a whole number of tenths of a millimetre.
pub open spec fn spec_tenths_to_micrometers(tenths: nat) -> nat {
    tenths * 100
}

/// The digits after the decimal point for a non-zero count of thousandths,
/// without trailing zeros.
pub open spec fn fraction_digits(thousandths: nat) -> Seq<char>
    recommends
        0 < thousandths < 1000,
{
    if thousandths % 100 == 0 {
        seq![digit_char(thousandths / 100)]
    } else if thousandths % 10 == 0 {
        seq![digit_char(thousandths / 100), digit_char(thousandths / 10 % 10)]
    } else {
        seq![
            digit_char(thousandths / 100),
            digit_char(thousandths / 10 % 10),
            digit_char(thousandths % 10),
        ]
    }
}

/// A length in millimetres as the shortest exact decimal: `62000` micrometres
/// read `62`, `62500` read `62.5`, `25` read `0.025`.
pub open spec fn spec_mm_text(um: nat) -> Seq<char> {
    if um % 1000 == 0 {
        decimal(um / 1000)
    } else {
        decimal(um / 1000) + seq!['.'] + fraction_digits(um % 1000)
    }
}

/// A count of tenths of a millimetre as millimetres with one decimal place:
/// `620` reads `62.0`.
pub open spec fn spec_tenths_text(tenths: nat) -> Seq<char> {
    decimal(tenths / 10) + seq!['.'] + seq![digit_char(tenths % 10)]
}

/// A strictly positive physical length, in micrometres.
#[derive(Clone, Copy, Debug, PartialEq, Eq, Structural)]
pub struct Millimeters {
    micrometers: u64,
}

impl Millimeters {
    /// The length in micrometres.
    pub closed spec fn um(self) -> nat {
        self.micrometers as nat
    }

    /// Every value that a constructor hands out is positive.
    pub open spec fn wf(self) -> bool {
        self.um() > 0
    }

    /// A length from a signed count of micrometres; `None` for zero and below.
    pub fn from_micrometers(micrometers: i64) -> (len: Option<Millimeters>)
        ensures
            micrometers <= 0 <==> len is None,
            len matches Some(l) ==> l.wf() && l.um() == micrometers,
    {
        if micrometers <= 0 {
            None
        } else {
            Some(Millimeters { micrometers: micrometers as u64 })
        }
    }

    /// The length in micrometres.
    pub fn micrometers(self) -> (um: u64)
        ensures
            um == self.um(),
    {
        self.micrometers
    }

    /// The length in points, rounded to the nearest whole point.
    pub fn to_points(self) -> (pt: u64)
        ensures
            pt == spec_points(self.um()),
    {
        let pt: u128 = (self.micrometers as u128 * 283_465u128 + 50_000_000u128)
            / 100_000_000u128;
        pt as u64
    }

    /// The length in tenths of a millimetre, rounded to the nearest tenth.
    pub fn to_tenths(self) -> (tenths: u64)
        ensures
            tenths == spec_tenths(self.um()),
    {
        let tenths: u128 = (self.micrometers as u128 + 50u128) / 100u128;
        tenths as u64
    }

    /// The length in pixels at the reference resolution of 300 dpi, rounded
    /// to the nearest whole pixel.
    pub fn to_pixels(self) -> (px: u64)
        ensures
            px == spec_pixels(self.um()),
    {
        let px: u128 = (self.micrometers as u128 * 3u128 + 127u128) / 254u128;
        px as u64
    }

    /// The length in millimetres, written as a decimal without rounding.
    pub fn mm_text(self) -> (text: String)
        ensures
            text@ == spec_mm_text(self.um()),
    {
        let whole: u64 = self.micrometers / 1000;
        let frac: u64 = self.micrometers % 1000;
        let mut text: String = decimal_string(whole);
        if frac != 0 {
            proof {
                reveal_strlit(".");
            }
            text.append(".");
            assert(text@ =~= decimal(whole as nat) + seq!['.']);
            text.append(digit_str(frac / 100));
            if frac % 100 != 0 {
                text.append(digit_str(frac / 10 % 10));
                if frac % 10 != 0 {
                    text.append(digit_str(frac % 10));
                }
            }
            assert(text@ =~= spec_mm_text(self.um()));
        }
        text
    }

    /// The length in millimetres with exactly one decimal place, rounded to
    /// the nearest tenth.
    pub fn tenths_text(self) -> (text: String)
        ensures
            text@ == spec_tenths_text(spec_tenths(self.um())),
    {
        let tenths: u64 = self.to_tenths();
        let mut text: String = decimal_string(tenths / 10);
        proof {
            reveal_strlit(".");
        }
        text.append(".");
        text.append(digit_str(tenths % 10));
        assert(text@ =~= spec_tenths_text(tenths as nat));
        text
    }
}

/// The conversions to points, to tenths of a millimetre and to pixels grow
/// with the length: a longer length never converts to a smaller number, and
/// the exact values before rounding, `um * 2.83465 / 1000` points and
/// `um / 100` tenths, grow strictly.
pub proof fn law_conversions_monotonic(a: Millimeters, b: Millimeters)
    requires
        a.wf(),
        b.wf(),
        a.um() <= b.um(),
    ensures
        spec_points(a.um()) <= spec_points(b.um()),
        spec_tenths(a.um()) <= spec_tenths(b.um()),
        spec_pixels(a.um()) <= spec_pixels(b.um()),
        a.um() < b.um() ==> a.um() * 283_465 < b.um() * 283_465,
        a.um() < b.um() ==> a.um() * 10 < b.um() * 10,
{
}

/// Converting to points or to tenths and back recovers the length within the
/// rounding tolerance. For points the result lies within `1 / 2.83465` mm of
/// the length, which in micrometres reads `|back - um| * 283465 <= 10^8`;
/// for tenths it lies within half a tenth, 50 micrometres.
pub proof fn law_round_trip_within_tolerance(len: Millimeters)
    requires
        len.wf(),
    ensures
        (spec_points_to_micrometers(spec_points(len.um())) - len.um()) * 283_465 <= 100_000_000,
        (len.um() - spec_points_to_micrometers(spec_points(len.um()))) * 283_465 <= 100_000_000,
        spec_tenths_to_micrometers(spec_tenths(len.um())) - len.um() <= 50,
        len.um() - spec_tenths_to_micrometers(spec_tenths(len.um())) <= 50,
{
}

} // verus!
