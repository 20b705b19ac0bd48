//! Settings of the bridge as plain values: how topics are named, how the
//! message bus is reached, and the secrets that the services take.
use crate::topic::PublishingInfo;
use vstd::prelude::*;

verus! {

/// How the published topics are named.
#[derive(Debug)]
pub struct MqttPublishingArgs {
    /// Identification of this agent in published weather information.
    pub device_name: String,
    /// Prefix put before every topic.
    pub topic_prefix: Option<String>,
    pub channel_thermometer: String,
    pub channel_barometer: String,
    pub channel_hygrometer: String,
}

impl PublishingInfo for MqttPublishingArgs {
    open spec fn spec_prefix(&self) -> Seq<char> {
        crate::topic::prefix_text(&self.topic_prefix)
    }

    open spec fn spec_device_name(&self) -> Seq<char> {
        self.device_name@
    }

    open spec fn spec_channel_thermometer(&self) -> Seq<char> {
        self.channel_thermometer@
    }

    open spec fn spec_channel_barometer(&self) -> Seq<char> {
        self.channel_barometer@
    }

    open spec fn spec_channel_hygrometer(&self) -> Seq<char> {
        self.channel_hygrometer@
    }

    fn get_prefix(&self) -> (r: &Option<String>) {
        &self.topic_prefix
    }

    fn get_device_name(&self) -> (r: &str) {
        self.device_name.as_str()
    }

    fn get_channel_thermometer(&self) -> (r: &str) {
        self.channel_thermometer.as_str()
    }

    fn get_channel_barometer(&self) -> (r: &str) {
        self.channel_barometer.as_str()
    }

    fn get_channel_hygrometer(&self) -> (r: &str) {
        self.channel_hygrometer.as_str()
    }
}

/// A secret key of the weather service.
#[derive(Debug)]
pub struct ApiKey {
    value: String,
}

impl ApiKey {
    pub closed spec fn spec_value(&self) -> Seq<char> {
        self.value@
    }

    pub fn new(s: &str) -> (r: ApiKey)
        ensures
            r.spec_value() == s@,
    {
        ApiKey { value: s.to_owned() }
    }
}

impl From<ApiKey> for String {
    fn from(k: ApiKey) -> (r: String) {
        k.value
    }
}

impl vstd::std_specs::convert::FromSpecImpl<ApiKey> for String {
    open spec fn obeys_from_spec() -> bool {
        true
    }

    closed spec fn from_spec(k: ApiKey) -> String {
        k.value
    }
}

impl std::str::FromStr for ApiKey {
    type Err = String;

    fn from_str(s: &str) -> Result<ApiKey, String> {
        Ok(ApiKey::new(s))
    }
}

/// A user name on the message bus.
#[derive(Debug)]
pub struct User(String);

impl User {
    pub closed spec fn spec_value(&self) -> Seq<char> {
        self.0@
    }

    pub fn new(s: &str) -> (r: User)
        ensures
            r.spec_value() == s@,
    {
        User(s.to_owned())
    }
}

impl From<User> for String {
    fn from(u: User) -> (r: String) {
        u.0
    }
}

impl vstd::std_specs::convert::FromSpecImpl<User> for String {
    open spec fn obeys_from_spec() -> bool {
        true
    }

    closed spec fn from_spec(u: User) -> String {
        u.0
    }
}

impl std::str::FromStr for User {
    type Err = String;

    fn from_str(s: &str) -> Result<User, String> {
        Ok(User::new(s))
    }
}

/// A password on the message bus.
#[derive(Debug)]
pub struct Password(String);

impl Password {
    pub closed spec fn spec_value(&self) -> Seq<char> {
        self.0@
    }

    pub fn new(s: &str) -> (r: Password)
        ensures
            r.spec_value() == s@,
    {
        Password(s.to_owned())
    }
}

impl From<Password> for String {
    fn from(p: Password) -> (r: String) {
        p.0
    }
}

impl vstd::std_specs::convert::FromSpecImpl<Password> for String {
    open spec fn obeys_from_spec() -> bool {
        true
    }

    closed spec fn from_spec(p: Password) -> String {
        p.0
    }
}

impl std::str::FromStr for Password {
    type Err = String;

    fn from_str(s: &str) -> Result<Password, String> {
        Ok(Password::new(s))
    }
}

/// How the message bus is reached.
#[derive(Debug)]
pub struct MqttConnectionArgs {
    pub mqtt_host: String,
    pub mqtt_port: u16,
    pub mqtt_user: Option<User>,
    pub mqtt_password: Option<Password>,
    pub mqtt_id: String,
    /// Seconds between keep-alive pings.
    pub mqtt_keepalive: u16,
    /// Least delay between two outgoing packets, in milliseconds.
    pub mqtt_throttle_ms: u64,
}

impl MqttConnectionArgs {
    /// The user name and password to log in with: present only where both are given.
    pub fn credentials(&self) -> (r: Option<(String, String)>)
        ensures
            r is Some <==> (self.mqtt_user is Some && self.mqtt_password is Some),
            r matches Some((u, p)) ==> u@ == self.mqtt_user->Some_0.spec_value() && p@
                == self.mqtt_password->Some_0.spec_value(),
    {
        match (&self.mqtt_user, &self.mqtt_password) {
            (Some(u), Some(p)) => Some((u.0.clone(), p.0.clone())),
            _ => None,
        }
    }
}

} // verus!
