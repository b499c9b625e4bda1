//! Plain units used across the library: time spans and fixed-point ratios.

use vstd::prelude::*;
use vstd::string::*;
use crate::text::{decimal, decimal_string, digit_char};

verus! {

/// A span of time, counted in whole milliseconds.
#[derive(Clone, Copy, Debug, PartialEq, Eq, Structural)]
pub struct Millis {
    pub millis: u64,
}

impl Millis {
    /// The largest number of whole seconds that a span can hold.
    pub open spec fn max_secs() -> nat {
        (u64::MAX / 1000) as nat
    }

    /// The span of `millis` milliseconds.
    pub fn from_millis(millis: u64) -> (span: Millis)
        ensures
            span.millis == millis,
    {
        Millis { millis }
    }

    /// The span of `secs` seconds.
    pub fn from_secs(secs: u64) -> (span: Millis)
        requires
            secs <= Self::max_secs(),
        ensures
            span.millis == secs * 1000,
    {
        Millis { millis: secs * 1000 }
    }

    /// The number of whole milliseconds in the span.
    pub fn as_millis(&self) -> (millis: u64)
        ensures
            millis == self.millis,
    {
        self.millis
    }
}

/// A non-negative ratio in thousandths: `Permille { thousandths: 1500 }` is 1.5.
#[derive(Clone, Copy, Debug, PartialEq, Eq, Structural)]
pub struct Permille {
    pub thousandths: u32,
}

impl Permille {
    /// The ratio of `thousandths` thousandths.
    pub fn new(thousandths: u32) -> (ratio: Permille)
        ensures
            ratio.thousandths == thousandths,
    {
        Permille { thousandths }
    }

    /// The digits after the decimal point, without trailing zeros; empty for
    /// a whole number.
    pub open spec fn fraction_digits(self) -> Seq<char> {
        let fraction = (self.thousandths % 1000) as nat;
        if fraction == 0 {
            Seq::empty()
        } else if fraction % 100 == 0 {
            seq![digit_char(fraction / 100)]
        } else if fraction % 10 == 0 {
            seq![digit_char(fraction / 100), digit_char(fraction / 10 % 10)]
        } else {
            seq![digit_char(fraction / 100), digit_char(fraction / 10 % 10), digit_char(fraction % 10)]
        }
    }

    /// The ratio as a decimal number in its shortest form: `1500` thousandths
    /// read `1.5`, `800` read `0.8`, `2000` read `2`.
    pub open spec fn spec_text(self) -> Seq<char> {
        if self.thousandths % 1000 == 0 {
            decimal((self.thousandths / 1000) as nat)
        } else {
            decimal((self.thousandths / 1000) as nat) + seq!['.'] + self.fraction_digits()
        }
    }

    /// Writes the ratio as a decimal number in its shortest form.
    pub fn to_text(&self) -> (text: String)
        ensures
            text@ == self.spec_text(),
    {
        let whole = decimal_string((self.thousandths / 1000) as u64);
        let fraction = self.thousandths % 1000;
        if fraction == 0 {
            whole
        } else {
            proof {
                reveal_strlit(".");
                assert("."@ =~= seq!['.']);
            }
            let mut text = whole.concat(".");
            let hundreds = decimal_string((fraction / 100) as u64);
            let tens = decimal_string((fraction / 10 % 10) as u64);
            let ones = decimal_string((fraction % 10) as u64);
            text.append(hundreds.as_str());
            if fraction % 100 != 0 {
                text.append(tens.as_str());
                if fraction % 10 != 0 {
                    text.append(ones.as_str());
                }
            }
            assert(text@ =~= self.spec_text());
            text
        }
    }

    /// The ratio clamped into the closed range from zero to one.
    pub fn clamp_to_unit(self) -> (ratio: Permille)
        ensures
            ratio.thousandths == if self.thousandths > 1000 { 1000 } else { self.thousandths },
    {
        if self.thousandths > 1000 {
            Permille { thousandths: 1000 }
        } else {
            self
        }
    }
}

} // verus!
