//! The measurement value of one fetch: temperature, pressure and relative
//! humidity, held as scaled integers.
use vstd::prelude::*;

verus! {

/// The largest relative humidity, in hundredths of a percent (100.00 %).
pub const HUMIDITY_MAX: u16 = 10000;

/// Relative humidity in hundredths of a percent, within `0.00 ..= 100.00`.
#[derive(Clone, Copy, Debug, PartialEq, Eq, Structural)]
pub struct Humidity {
    value: u16,
}

impl Humidity {
    #[verifier::type_invariant]
    spec fn inv(&self) -> bool {
        self.value <= HUMIDITY_MAX
    }

    pub closed spec fn spec_hundredths(&self) -> int {
        self.value as int
    }

    pub open spec fn wf(&self) -> bool {
        0 <= self.spec_hundredths() <= HUMIDITY_MAX
    }

    /// A humidity of `hundredths` hundredths of a percent; a value outside
    /// `0 ..= 10000` is a programming error.
    pub fn new(hundredths: i64) -> (r: Humidity)
        requires
            0 <= hundredths <= HUMIDITY_MAX,
        ensures
            r.wf(),
            r.spec_hundredths() == hundredths,
    {
        Humidity { value: hundredths as u16 }
    }

    /// Whether `hundredths` hundredths of a percent is a valid humidity.
    pub fn is_valid(hundredths: i64) -> (r: bool)
        ensures
            r == (0 <= hundredths <= HUMIDITY_MAX),
    {
        0 <= hundredths && hundredths <= HUMIDITY_MAX as i64
    }

    /// A humidity of `hundredths` hundredths of a percent, or `None` where
    /// the value lies outside `0 ..= 10000`.
    pub fn checked(hundredths: i64) -> (r: Option<Humidity>)
        ensures
            r is Some <==> 0 <= hundredths <= HUMIDITY_MAX,
            r matches Some(h) ==> h.wf() && h.spec_hundredths() == hundredths,
    {
        if Humidity::is_valid(hundredths) {
            Some(Humidity::new(hundredths))
        } else {
            None
        }
    }

    pub fn hundredths(&self) -> (r: u16)
        ensures
            r == self.spec_hundredths(),
            r <= HUMIDITY_MAX,
    {
        proof {
            use_type_invariant(self);
        }
        self.value
    }
}

/// One fetched weather snapshot: temperature in millikelvin, pressure in
/// hundredths of a pascal, relative humidity.
#[derive(Clone, Copy, Debug, PartialEq, Eq, Structural)]
pub struct CurrentWeather {
    temperature: u32,
    pressure: u32,
    humidity: Humidity,
}

impl CurrentWeather {
    pub closed spec fn spec_temperature(&self) -> int {
        self.temperature as int
    }

    pub closed spec fn spec_pressure(&self) -> int {
        self.pressure as int
    }

    pub closed spec fn spec_humidity(&self) -> Humidity {
        self.humidity
    }

    pub open spec fn wf(&self) -> bool {
        self.spec_humidity().wf()
    }

    /// A snapshot of `temperature_mk` millikelvin, `pressure_cpa` hundredths of
    /// a pascal and `humidity` hundredths of a percent; a humidity outside
    /// `0 ..= 10000` is a programming error.
    pub fn new(temperature_mk: u32, pressure_cpa: u32, humidity: i64) -> (r: CurrentWeather)
        requires
            0 <= humidity <= HUMIDITY_MAX,
        ensures
            r.wf(),
            r.spec_temperature() == temperature_mk,
            r.spec_pressure() == pressure_cpa,
            r.spec_humidity().spec_hundredths() == humidity,
    {
        CurrentWeather {
            temperature: temperature_mk,
            pressure: pressure_cpa,
            humidity: Humidity::new(humidity),
        }
    }

    /// Temperature in millikelvin.
    pub fn get_temperature(&self) -> (r: u32)
        ensures
            r == self.spec_temperature(),
    {
        self.temperature
    }

    /// Pressure in hundredths of a pascal.
    pub fn get_pressure(&self) -> (r: u32)
        ensures
            r == self.spec_pressure(),
    {
        self.pressure
    }

    pub fn get_humidity(&self) -> (r: Humidity)
        ensures
            r == self.spec_humidity(),
            r.wf(),
    {
        proof {
            use_type_invariant(&self.humidity);
        }
        self.humidity
    }
}

} // verus!
