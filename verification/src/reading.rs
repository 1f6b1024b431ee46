//! The temperature reading that the node's tasks share: a fixed-point number
//! of hundredths of a degree Celsius, with one value set aside to mean that
//! nothing has been measured yet.

use crate::text::decimal;
use crate::text::digit_char;
use crate::text::is_digit;
use crate::text::lemma_decimal_is_digits;
use crate::text::push_decimal;
use vstd::prelude::*;

verus! {

/// The stored value that means "no reading yet": what -250.00 degrees would be.
pub const SENTINEL_CENTI: i32 = -25000;

/// A temperature in hundredths of a degree Celsius.
///
/// The value [`SENTINEL_CENTI`] is reserved for "no reading yet", so a measured
/// -250.00 degrees cannot be told apart from it.
#[derive(Clone, Copy, Debug, PartialEq, Eq, Structural)]
pub struct TemperatureReading {
    pub centi: i32,
}

/// The magnitude of `x`.
pub open spec fn magnitude(x: int) -> nat {
    if x < 0 {
        (-x) as nat
    } else {
        x as nat
    }
}

/// Whole degrees of a fixed-point value: the hundredths are cut off, towards zero.
pub open spec fn whole_degrees_of(centi: int) -> int {
    if centi < 0 {
        -((-centi) / 100)
    } else {
        centi / 100
    }
}

/// What the panel shows in place of a temperature while none is known.
pub open spec fn unavailable_text() -> Seq<char> {
    seq!['-', '-', '.', '-', '°', 'C']
}

/// The one-decimal text of a fixed-point value: sign, whole degrees, a point,
/// one tenth digit and the unit. Hundredths are cut off towards zero, and a
/// value that shows as zero carries no sign.
pub open spec fn temperature_text(centi: int) -> Seq<char> {
    let tenths = magnitude(centi) / 10;
    let sign = if centi < 0 && tenths > 0 {
        seq!['-']
    } else {
        Seq::<char>::empty()
    };
    sign + decimal(tenths / 10) + seq!['.', digit_char((tenths % 10) as int), '°', 'C']
}

/// What the panel shows for a stored value: the unavailable marker for the
/// sentinel, the one-decimal text for anything else.
pub open spec fn readout_text(centi: int) -> Seq<char> {
    if centi == SENTINEL_CENTI {
        unavailable_text()
    } else {
        temperature_text(centi)
    }
}

impl TemperatureReading {
    /// The reading that stands for "no reading yet".
    pub fn unavailable() -> (r: Self)
        ensures
            r.centi == SENTINEL_CENTI,
    {
        TemperatureReading { centi: SENTINEL_CENTI }
    }

    /// A reading of `centi` hundredths of a degree.
    pub fn from_centi(centi: i32) -> (r: Self)
        ensures
            r.centi == centi,
    {
        TemperatureReading { centi }
    }

    /// The stored fixed-point value.
    pub fn centi(&self) -> (c: i32)
        ensures
            c == self.centi,
    {
        self.centi
    }

    /// Whether a measurement stands behind this reading.
    pub open spec fn spec_is_available(&self) -> bool {
        self.centi != SENTINEL_CENTI
    }

    /// Whether a measurement stands behind this reading.
    #[verifier::when_used_as_spec(spec_is_available)]
    pub fn is_available(&self) -> (b: bool)
        ensures
            b == (self.centi != SENTINEL_CENTI),
    {
        self.centi != SENTINEL_CENTI
    }

    /// The reading in whole degrees, hundredths cut off towards zero.
    pub fn whole_degrees(&self) -> (d: i32)
        ensures
            d == whole_degrees_of(self.centi as int),
    {
        if self.centi < 0 {
            let m: i64 = -(self.centi as i64);
            (-(m / 100)) as i32
        } else {
            self.centi / 100
        }
    }

    /// The text that the panel shows for this reading.
    pub fn readout(&self) -> (s: String)
        ensures
            s@ == readout_text(self.centi as int),
    {
        if self.centi == SENTINEL_CENTI {
            proof {
                reveal_strlit("--.-°C");
            }
            let s = String::from_str("--.-°C");
            assert(s@ =~= unavailable_text());
            s
        } else {
            let m: u32 = if self.centi < 0 {
                (-(self.centi as i64)) as u32
            } else {
                self.centi as u32
            };
            let tenths: u32 = m / 10;
            let mut s = String::new();
            if self.centi < 0 && tenths > 0 {
                proof {
                    reveal_strlit("-");
                }
                s.append("-");
                assert(s@ =~= seq!['-']);
            }
            let ghost sign = s@;
            push_decimal(&mut s, tenths / 10);
            proof {
                reveal_strlit(".");
                reveal_strlit("°C");
            }
            s.append(".");
            push_decimal(&mut s, tenths % 10);
            s.append("°C");
            proof {
                let t = (tenths % 10) as nat;
                assert(decimal(t) =~= seq![digit_char(t as int)]);
                assert(s@ =~= sign + decimal((tenths / 10) as nat) + seq![
                    '.',
                    digit_char(t as int),
                    '°',
                    'C',
                ]);
            }
            s
        }
    }
}

/// Cutting off the hundredths never moves a value by a whole degree or more,
/// and never changes its sign.
pub proof fn lemma_whole_degrees_bounds(centi: int)
    ensures
        magnitude(centi - 100 * whole_degrees_of(centi)) < 100,
        centi >= 0 ==> 0 <= 100 * whole_degrees_of(centi) <= centi,
        centi <= 0 ==> centi <= 100 * whole_degrees_of(centi) <= 0,
{
}

/// The unavailable marker holds no digit, and every temperature text does: so
/// the panel never shows the sentinel as a temperature, nor a temperature as
/// the marker.
pub proof fn lemma_unavailable_is_distinct(centi: int)
    ensures
        forall|i: int|
            0 <= i < unavailable_text().len() ==> !is_digit(#[trigger] unavailable_text()[i]),
        exists|i: int|
            0 <= i < temperature_text(centi).len() && is_digit(
                #[trigger] temperature_text(centi)[i],
            ),
        temperature_text(centi) != unavailable_text(),
        centi != SENTINEL_CENTI ==> readout_text(centi) != unavailable_text(),
        centi == SENTINEL_CENTI ==> readout_text(centi) == unavailable_text(),
{
    let u = unavailable_text();
    assert forall|i: int| 0 <= i < u.len() implies !is_digit(#[trigger] u[i]) by {
        assert(forall|d: int| 0 <= d <= 9 ==> #[trigger] digit_char(d) != u[i]);
    }
    let tenths = magnitude(centi) / 10;
    let t = temperature_text(centi);
    lemma_decimal_is_digits(tenths / 10);
    let k = t.len() - 3;
    assert(t[k] == digit_char((tenths % 10) as int));
    assert(is_digit(t[k]));
    assert(0 <= k < t.len());
    if t == u {
        assert(is_digit(u[k]));
    }
}

} // verus!
