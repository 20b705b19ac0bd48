//! Parts of the weather service's report that hold no measurement.
use crate::weather_client::{error_report_message, error_report_text};
use vstd::prelude::*;

verus! {

/// A weather condition of the report.
#[derive(Clone, Debug, PartialEq, Eq)]
pub struct Weather {
    pub id: u32,
    pub main: String,
    pub description: String,
    pub icon: String,
}

/// Cloudiness, in percent.
#[derive(Clone, Copy, Debug, PartialEq, Eq, Structural)]
pub struct Clouds {
    pub all: i32,
}

/// Part of the day of a forecast.
#[derive(Clone, Debug, PartialEq, Eq)]
pub struct System {
    pub pod: String,
}

/// An error report of the service in place of a weather report.
#[derive(Clone, Debug, PartialEq, Eq)]
pub struct ErrorReport {
    pub cod: u32,
    pub message: String,
}

impl ErrorReport {
    /// `Error code <cod> with message "<message>"`
    pub fn describe(&self) -> (r: String)
        ensures
            r@ == error_report_text(self.cod, self.message@),
    {
        error_report_message(self.cod, self.message.as_str())
    }
}

} // verus!
