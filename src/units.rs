//! Display units of temperature and the conversions from the canonical
//! millikelvin form to hundredths of a display unit and back.
use crate::decimal::{
    lemma_rounded_quotient_exact, lemma_rounded_quotient_near, round_div, rounded_quotient,
};
use vstd::prelude::*;
use vstd::string::*;

verus! {

/// Absolute zero on the Celsius scale, in millikelvin.
pub const CELSIUS_ZERO_MK: i64 = 273150;

/// Absolute zero on the Fahrenheit scale, in hundredths of a degree (-459.67 °F).
pub const FAHRENHEIT_ZERO_HUNDREDTHS: i64 = 45967;

#[derive(Clone, Copy, Debug, PartialEq, Eq, Structural)]
pub enum Units {
    Kelvin,
    Fahrenheit,
    Celsius,
}

/// A temperature of `mk` millikelvin in hundredths of the display unit `u`,
/// rounded to the nearest hundredth.
pub open spec fn display_hundredths(u: Units, mk: int) -> int {
    match u {
        Units::Kelvin => rounded_quotient(mk, 10),
        Units::Celsius => rounded_quotient(mk - CELSIUS_ZERO_MK, 10),
        Units::Fahrenheit => rounded_quotient(9 * mk - 50 * FAHRENHEIT_ZERO_HUNDREDTHS, 50),
    }
}

/// A temperature of `h` hundredths of the display unit `u` in millikelvin,
/// rounded to the nearest millikelvin.
pub open spec fn millikelvin_of(u: Units, h: int) -> int {
    match u {
        Units::Kelvin => 10 * h,
        Units::Celsius => 10 * h + CELSIUS_ZERO_MK,
        Units::Fahrenheit => rounded_quotient(50 * (h + FAHRENHEIT_ZERO_HUNDREDTHS), 9),
    }
}

/// The units that a command-line name selects.
pub open spec fn units_named(name: Seq<char>) -> Option<Units> {
    if name == "celsius"@ {
        Some(Units::Celsius)
    } else if name == "fahrenheit"@ {
        Some(Units::Fahrenheit)
    } else if name == "kelvin"@ {
        Some(Units::Kelvin)
    } else {
        None
    }
}

fn same_text(a: &str, b: &str) -> (r: bool)
    ensures
        r == (a@ == b@),
{
    a.to_owned() == b.to_owned()
}

impl Units {
    /// The temperature `temperature_mk` (millikelvin) in hundredths of this unit.
    pub fn convert_temperature(&self, temperature_mk: u32) -> (r: i64)
        ensures
            r as int == display_hundredths(*self, temperature_mk as int),
    {
        let mk = temperature_mk as i64;
        match *self {
            Units::Kelvin => round_div(mk, 10),
            Units::Celsius => round_div(mk - CELSIUS_ZERO_MK, 10),
            Units::Fahrenheit => round_div(9 * mk - 50 * FAHRENHEIT_ZERO_HUNDREDTHS, 50),
        }
    }

    /// A temperature of `hundredths` hundredths of this unit in millikelvin.
    pub fn to_millikelvin(&self, hundredths: i32) -> (r: i64)
        ensures
            r as int == millikelvin_of(*self, hundredths as int),
    {
        let h = hundredths as i64;
        match *self {
            Units::Kelvin => 10 * h,
            Units::Celsius => 10 * h + CELSIUS_ZERO_MK,
            Units::Fahrenheit => round_div(50 * (h + FAHRENHEIT_ZERO_HUNDREDTHS), 9),
        }
    }

    /// The name under which the unit is the command line's default choice:
    /// `celsius` and `fahrenheit` have one, `kelvin` has none.
    pub fn value(&self) -> (r: Option<&'static str>)
        ensures
            *self == Units::Celsius ==> (r matches Some(s) && s@ == "celsius"@),
            *self == Units::Fahrenheit ==> (r matches Some(s) && s@ == "fahrenheit"@),
            *self == Units::Kelvin ==> r is None,
    {
        match *self {
            Units::Celsius => Some("celsius"),
            Units::Fahrenheit => Some("fahrenheit"),
            Units::Kelvin => None,
        }
    }

    /// The names that the command line accepts.
    pub fn variants() -> (r: Vec<&'static str>)
        ensures
            r@.len() == 3,
            r@[0]@ == "celsius"@,
            r@[1]@ == "fahrenheit"@,
            r@[2]@ == "kelvin"@,
    {
        let mut r: Vec<&'static str> = Vec::new();
        r.push("celsius");
        r.push("fahrenheit");
        r.push("kelvin");
        r
    }

    /// The units named `name`, if any.
    pub fn from_name(name: &str) -> (r: Option<Units>)
        ensures
            r == units_named(name@),
    {
        if same_text(name, "celsius") {
            Some(Units::Celsius)
        } else if same_text(name, "fahrenheit") {
            Some(Units::Fahrenheit)
        } else if same_text(name, "kelvin") {
            Some(Units::Kelvin)
        } else {
            None
        }
    }
}

impl std::str::FromStr for Units {
    type Err = String;

    fn from_str(s: &str) -> Result<Units, String> {
        match Units::from_name(s) {
            Some(u) => Ok(u),
            None => Err("unknown units".to_owned()),
        }
    }
}

/// Converting hundredths of a display unit to millikelvin and back gives
/// the same hundredths.
pub proof fn lemma_display_round_trip(u: Units, h: int)
    ensures
        display_hundredths(u, millikelvin_of(u, h)) == h,
{
    match u {
        Units::Kelvin => {
            lemma_rounded_quotient_exact(10 * h, 10, h);
        },
        Units::Celsius => {
            lemma_rounded_quotient_exact(10 * h + CELSIUS_ZERO_MK - CELSIUS_ZERO_MK, 10, h);
        },
        Units::Fahrenheit => {
            let n = 50 * (h + FAHRENHEIT_ZERO_HUNDREDTHS);
            let mk = rounded_quotient(n, 9);
            lemma_rounded_quotient_near(n, 9);
            lemma_rounded_quotient_exact(9 * mk - 50 * FAHRENHEIT_ZERO_HUNDREDTHS, 50, h);
        },
    }
}

} // verus!
