use outdoor::arguments::MqttPublishingArgs;
use outdoor::topic::{Humidity, Pressure, Temperature, Topic};

fn args(prefix: Option<&str>) -> MqttPublishingArgs {
    MqttPublishingArgs {
        device_name: "d1".to_string(),
        topic_prefix: prefix.map(|p| p.to_string()),
        channel_thermometer: "0:0".to_string(),
        channel_barometer: "0:1".to_string(),
        channel_hygrometer: "0:2".to_string(),
    }
}

#[test]
fn temperature_topic_without_prefix() {
    let t = Temperature::new(&None, "d1", "0:0");
    assert_eq!(t.get_value(), "node/d1/thermometer/0:0/temperature");
}

#[test]
fn temperature_topic_with_prefix() {
    let t = Temperature::new(&Some("home/".to_string()), "d1", "0:0");
    assert_eq!(t.get_value(), "home/node/d1/thermometer/0:0/temperature");
}

#[test]
fn topics_from_publishing_args() {
    let a = args(None);
    assert_eq!(
        Temperature::from_publishing_args(&a).get_value(),
        "node/d1/thermometer/0:0/temperature"
    );
    assert_eq!(
        Pressure::from_publishing_args(&a).get_value(),
        "node/d1/barometer/0:1/pressure"
    );
    assert_eq!(
        Humidity::from_publishing_args(&a).get_value(),
        "node/d1/hygrometer/0:2/relative-humidity"
    );
    let b = args(Some("home/"));
    assert_eq!(
        Pressure::from_publishing_args(&b).get_value(),
        "home/node/d1/barometer/0:1/pressure"
    );
}

#[test]
fn topics_from_new() {
    assert_eq!(
        Pressure::new(&None, "dev", "1:0").get_value(),
        "node/dev/barometer/1:0/pressure"
    );
    assert_eq!(
        Humidity::new(&Some("x/".to_string()), "dev", "2:0").get_value(),
        "x/node/dev/hygrometer/2:0/relative-humidity"
    );
}
