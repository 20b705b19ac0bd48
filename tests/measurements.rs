use outdoor::decimal::{format_fixed, round_div};
use outdoor::logging::{verbosity_to_severity, Severity};
use outdoor::units::Units;
use outdoor::weather::{CurrentWeather, Humidity};

#[test]
fn common_severities_converted() {
    assert_eq!(Severity::Error, verbosity_to_severity(0));
    assert_eq!(Severity::Warning, verbosity_to_severity(1));
    assert_eq!(Severity::Info, verbosity_to_severity(2));
    assert_eq!(Severity::Debug, verbosity_to_severity(3));
    assert_eq!(Severity::Trace, verbosity_to_severity(4));
    assert_eq!(Severity::Trace, verbosity_to_severity(255));
}

#[test]
fn weather_pressure_ok() {
    // 15.7 K, 1001.0 hPa, 55.1 %
    let t = CurrentWeather::new(15_700, 10_010_000, 5_510);
    let v = t.get_pressure();
    assert_eq!(v, 10_010_000, "This pressure {} should be 100100", v / 100);
    let v2 = t.get_pressure();
    assert_eq!(v2 / 100, 100_100, "This pressure {} should be 100100", v2 / 100);
}

#[test]
fn weather_temperature_ok() {
    let t = CurrentWeather::new(283_300, 10_010_000, 5_510);
    let v = Units::Celsius.convert_temperature(t.get_temperature());
    assert_eq!(v, 1_015, "This temperature {} should be 10.15", v);
    let v2 = Units::Celsius.convert_temperature(t.get_temperature());
    assert_eq!(format_fixed(v2, 2), "10.15");
}

#[test]
fn weather_humidity_ok() {
    let t = CurrentWeather::new(283_300, 10_010_000, 5_510);
    let v = t.get_humidity().hundredths();
    assert_eq!(v, 5_510, "This humidity {} should be 55.1", v);
}

#[test]
fn humidity_ok() {
    let t = Humidity::new(3_200);
    assert_eq!(t.hundredths(), 3_200);
}

#[test]
fn humidity_valid() {
    assert!(Humidity::is_valid(0));
    assert!(Humidity::is_valid(10_000));
    assert!(!Humidity::is_valid(-1));
    assert!(!Humidity::is_valid(10_001));
}

#[test]
fn humidity_out_of_range_is_refused() {
    assert_eq!(Humidity::checked(13_200), None);
    assert_eq!(Humidity::checked(-100), None);
    assert_eq!(Humidity::checked(10_001), None);
    assert_eq!(Humidity::checked(i64::MIN), None);
}

#[test]
fn humidity_in_range_is_kept() {
    for h in [0i64, 1, 5_510, 9_999, 10_000] {
        let v = Humidity::checked(h).unwrap();
        assert_eq!(v.hundredths() as i64, h);
    }
}

#[test]
fn temperature_in_each_unit() {
    assert_eq!(Units::Kelvin.convert_temperature(283_150), 28_315);
    assert_eq!(Units::Celsius.convert_temperature(283_150), 1_000);
    assert_eq!(Units::Fahrenheit.convert_temperature(283_150), 5_000);
    assert_eq!(Units::Celsius.convert_temperature(0), -27_315);
    assert_eq!(Units::Fahrenheit.convert_temperature(0), -45_967);
    // 0.005 K rounds away from zero
    assert_eq!(Units::Kelvin.convert_temperature(5), 1);
    assert_eq!(Units::Kelvin.convert_temperature(4), 0);
}

#[test]
fn kelvin_round_trip_in_each_unit() {
    for u in [Units::Kelvin, Units::Celsius, Units::Fahrenheit] {
        for h in [-45_967i32, -1, 0, 1, 1_000, 5_000, 7_315, 12_345] {
            let mk = u.to_millikelvin(h);
            if mk >= 0 {
                assert_eq!(u.convert_temperature(mk as u32), h as i64);
            }
        }
    }
    assert_eq!(Units::Celsius.to_millikelvin(1_000), 283_150);
    assert_eq!(Units::Fahrenheit.to_millikelvin(5_000), 283_150);
    assert_eq!(Units::Kelvin.to_millikelvin(28_315), 283_150);
}

#[test]
fn units_names() {
    assert_eq!(Units::Celsius.value(), Some("celsius"));
    assert_eq!(Units::Fahrenheit.value(), Some("fahrenheit"));
    assert_eq!(Units::Kelvin.value(), None);
    assert_eq!(Units::variants(), vec!["celsius", "fahrenheit", "kelvin"]);
    assert_eq!(Units::from_name("kelvin"), Some(Units::Kelvin));
    assert_eq!(Units::from_name("celsius"), Some(Units::Celsius));
    assert_eq!(Units::from_name("fahrenheit"), Some(Units::Fahrenheit));
    assert_eq!(Units::from_name("Kelvin"), None);
    assert_eq!("fahrenheit".parse::<Units>(), Ok(Units::Fahrenheit));
    assert!("rankine".parse::<Units>().is_err());
}

#[test]
fn fixed_point_text() {
    assert_eq!(format_fixed(1_000, 2), "10.00");
    assert_eq!(format_fixed(10_010_000, 2), "100100.00");
    assert_eq!(format_fixed(551, 1), "55.1");
    assert_eq!(format_fixed(-5, 2), "-0.05");
    assert_eq!(format_fixed(7, 0), "7");
    assert_eq!(format_fixed(0, 1), "0.0");
    assert_eq!(format_fixed(i64::MIN, 0), "-9223372036854775808");
    assert_eq!(format_fixed(123_456, 6), "0.123456");
}

#[test]
fn rounding_division() {
    assert_eq!(round_div(5_515, 10), 552);
    assert_eq!(round_div(5_514, 10), 551);
    assert_eq!(round_div(-15, 10), -2);
    assert_eq!(round_div(-14, 10), -1);
    assert_eq!(round_div(0, 7), 0);
}
