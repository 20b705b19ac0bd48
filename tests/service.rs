use outdoor::arguments::{ApiKey, MqttConnectionArgs, Password, User};
use outdoor::location::{Decimal, LocationSpecifier};
use outdoor::weather_client::{
    error_report_message, get_current_weather_url, UrlError, DEFAULT_BASE_URL,
};
use outdoor::weather_types::ErrorReport;

fn pairs(ps: &[(&str, &str)]) -> Vec<(String, String)> {
    ps.iter().map(|(k, v)| (k.to_string(), v.to_string())).collect()
}

fn dec(m: i64, s: u32) -> Decimal {
    Decimal::new(m, s).unwrap()
}

#[test]
fn city_and_country() {
    let l = LocationSpecifier::CityAndCountryName {
        city: "Brno".to_string(),
        country: "cz".to_string(),
    };
    assert_eq!(l.format(), pairs(&[("q", "Brno,cz")]));
    let l = LocationSpecifier::CityAndCountryName {
        city: "Brno".to_string(),
        country: String::new(),
    };
    assert_eq!(l.format(), pairs(&[("q", "Brno")]));
}

#[test]
fn city_id_and_zip() {
    assert_eq!(
        LocationSpecifier::CityId("3078610".to_string()).format(),
        pairs(&[("id", "3078610")])
    );
    let l = LocationSpecifier::ZipCode { zip: "60200".to_string(), country: "cz".to_string() };
    assert_eq!(l.format(), pairs(&[("zip", "60200,cz")]));
}

#[test]
fn coordinates_and_areas() {
    let l = LocationSpecifier::Coordinates { lat: dec(4919, 2), lon: dec(-1661, 2) };
    assert_eq!(l.format(), pairs(&[("lat", "49.19"), ("lon", "-16.61")]));
    let l = LocationSpecifier::BoundingBox {
        lon_left: dec(12, 0),
        lat_bottom: dec(32, 0),
        lon_right: dec(15, 0),
        lat_top: dec(37, 0),
        zoom: dec(10, 0),
    };
    assert_eq!(l.format(), pairs(&[("bbox", "12,32,15,37,10")]));
    let l = LocationSpecifier::Circle { lat: dec(555, 1), lon: dec(375, 1), count: 10 };
    assert_eq!(l.format(), pairs(&[("lat", "55.5"), ("lon", "37.5"), ("cnt", "10")]));
    let l = LocationSpecifier::CityIds(vec!["1".to_string(), "22".to_string()]);
    assert_eq!(l.format(), pairs(&[("id", "122")]));
    assert!(Decimal::new(1, 19).is_none());
}

#[test]
fn weather_url() {
    let l = LocationSpecifier::CityId("3078610".to_string());
    assert_eq!(
        get_current_weather_url(&l, "KEY".to_string(), DEFAULT_BASE_URL),
        Ok("https://api.openweathermap.org/data/2.5/weather?id=3078610&APPID=KEY".to_string())
    );
    let l = LocationSpecifier::CityAndCountryName {
        city: "São Paulo".to_string(),
        country: "br".to_string(),
    };
    assert_eq!(
        get_current_weather_url(&l, "K".to_string(), "http://localhost:8080/api/"),
        Ok("http://localhost:8080/api/weather?q=S%C3%A3o+Paulo%2Cbr&APPID=K".to_string())
    );
    assert_eq!(
        get_current_weather_url(&l, "K".to_string(), "no base"),
        Err(UrlError::InvalidBase)
    );
}

#[test]
fn error_reports() {
    assert_eq!(
        error_report_message(401, "Invalid API key"),
        "Error code 401 with message \"Invalid API key\""
    );
    let r = ErrorReport { cod: 404, message: "city not found".to_string() };
    assert_eq!(r.describe(), "Error code 404 with message \"city not found\"");
}

#[test]
fn secrets_convert_to_strings() {
    let k: ApiKey = "SECRET-REDACTED".parse().unwrap();
    assert_eq!(String::from(k), "SECRET-REDACTED");
    let u: User = "user".parse().unwrap();
    assert_eq!(String::from(u), "user");
    let p = Password::new("pw");
    assert_eq!(String::from(p), "pw");
}

#[test]
fn credentials_need_both_parts() {
    let mut a = MqttConnectionArgs {
        mqtt_host: "localhost".to_string(),
        mqtt_port: 1883,
        mqtt_user: Some(User::new("u")),
        mqtt_password: Some(Password::new("p")),
        mqtt_id: "weather".to_string(),
        mqtt_keepalive: 30,
        mqtt_throttle_ms: 500,
    };
    assert_eq!(a.credentials(), Some(("u".to_string(), "p".to_string())));
    a.mqtt_password = None;
    assert_eq!(a.credentials(), None);
    a.mqtt_password = Some(Password::new("p"));
    a.mqtt_user = None;
    assert_eq!(a.credentials(), None);
}
