//! The options of the message-bus connection, made from the settings.
use crate::arguments::MqttConnectionArgs;
use vstd::prelude::*;

verus! {

#[verifier::external_type_specification]
#[verifier::external_body]
pub struct ExMqttOptions(rumq_client::MqttOptions);

/// Relies on `rumq_client::MqttOptions::new`, which panics on a client id
/// that is empty or starts with a space.
#[verifier::external_body]
fn mqtt_options(id: String, host: String, port: u16) -> rumq_client::MqttOptions
    requires
        id@.len() > 0,
        id@[0] != ' ',
{
    rumq_client::MqttOptions::new(id, host, port)
}

/// Relies on `rumq_client::MqttOptions::set_credentials`.
#[verifier::external_body]
fn set_credentials(options: &mut rumq_client::MqttOptions, user: String, password: String) {
    options.set_credentials(user, password);
}

/// Relies on `rumq_client::MqttOptions::set_keep_alive`, which panics below
/// five seconds.
#[verifier::external_body]
fn set_keep_alive(options: &mut rumq_client::MqttOptions, secs: u16)
    requires
        secs >= 5,
{
    options.set_keep_alive(secs);
}

/// Relies on `rumq_client::MqttOptions::set_throttle`.
#[verifier::external_body]
fn set_throttle(options: &mut rumq_client::MqttOptions, millis: u64) {
    options.set_throttle(std::time::Duration::from_millis(millis));
}

/// Whether the connection options can be made from `args`: a client id
/// that is not empty and does not start with a space, and a keep-alive of
/// at least five seconds.
pub open spec fn connection_args_valid(args: MqttConnectionArgs) -> bool {
    &&& args.mqtt_id@.len() > 0
    &&& args.mqtt_id@[0] != ' '
    &&& args.mqtt_keepalive >= 5
}

/// Whether `args` satisfies `connection_args_valid`.
pub fn connection_args_are_valid(args: &MqttConnectionArgs) -> (r: bool)
    ensures
        r == connection_args_valid(*args),
{
    let id = args.mqtt_id.as_str();
    !id.is_empty() && !starts_with_space(id) && args.mqtt_keepalive >= 5
}

fn starts_with_space(s: &str) -> (r: bool)
    requires
        s@.len() > 0,
    ensures
        r == (s@[0] == ' '),
{
    s.get_char(0) == ' '
}

/// The connection options of `args`: client id, host and port, the
/// credentials where both user and password are given, keep-alive and
/// throttle.
pub fn create_connection_options(args: MqttConnectionArgs) -> rumq_client::MqttOptions
    requires
        connection_args_valid(args),
{
    let credentials = args.credentials();
    let keep_alive = args.mqtt_keepalive;
    let throttle = args.mqtt_throttle_ms;
    let mut options = mqtt_options(args.mqtt_id, args.mqtt_host, args.mqtt_port);
    if let Some((user, password)) = credentials {
        set_credentials(&mut options, user, password);
    }
    set_keep_alive(&mut options, keep_alive);
    set_throttle(&mut options, throttle);
    options
}

} // verus!
