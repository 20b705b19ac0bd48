use outdoor::arguments::{MqttConnectionArgs, Password, User};
use outdoor::connection::{connection_args_are_valid, create_connection_options};
use outdoor::relay::{PublishRequest, QoS};
use std::time::Duration;

fn args() -> MqttConnectionArgs {
    MqttConnectionArgs {
        mqtt_host: "broker".to_string(),
        mqtt_port: 1884,
        mqtt_user: Some(User::new("u")),
        mqtt_password: Some(Password::new("p")),
        mqtt_id: "weather".to_string(),
        mqtt_keepalive: 30,
        mqtt_throttle_ms: 500,
    }
}

#[test]
fn connection_options_carry_the_settings() {
    let o = create_connection_options(args());
    assert_eq!(o.client_id(), "weather");
    assert_eq!(o.broker_address(), ("broker".to_string(), 1884));
    assert_eq!(o.credentials(), Some(("u".to_string(), "p".to_string())));
    assert_eq!(o.keep_alive(), Duration::from_secs(30));
    assert_eq!(o.throttle(), Duration::from_millis(500));
}

#[test]
fn connection_options_without_password_have_no_credentials() {
    let mut a = args();
    a.mqtt_password = None;
    let o = create_connection_options(a);
    assert_eq!(o.credentials(), None);
}

#[test]
fn connection_settings_validity() {
    assert!(connection_args_are_valid(&args()));
    let mut a = args();
    a.mqtt_id = String::new();
    assert!(!connection_args_are_valid(&a));
    let mut a = args();
    a.mqtt_id = " weather".to_string();
    assert!(!connection_args_are_valid(&a));
    let mut a = args();
    a.mqtt_keepalive = 4;
    assert!(!connection_args_are_valid(&a));
    a.mqtt_keepalive = 5;
    assert!(connection_args_are_valid(&a));
}

#[test]
fn publish_request_becomes_a_publish_packet() {
    let r = PublishRequest {
        topic: "node/d1/thermometer/0:0/temperature".to_string(),
        payload: "10.00".to_string(),
        qos: QoS::AtLeastOnce,
    };
    match r.into_request() {
        rumq_client::Request::Publish(p) => {
            assert_eq!(p.topic_name, "node/d1/thermometer/0:0/temperature");
            assert_eq!(p.payload, b"10.00".to_vec());
            assert_eq!(p.qos, rumq_client::QoS::AtLeastOnce);
            assert!(!p.retain);
            assert!(!p.dup);
        }
        other => panic!("not a publish: {:?}", other),
    }
}
