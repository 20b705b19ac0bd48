//! Topic names of the three measurement kinds, computed once from the
//! publishing settings and reused for every publish.
use vstd::prelude::*;
use vstd::string::*;

verus! {

/// The text of an optional topic prefix: empty where there is none.
pub open spec fn prefix_text(prefix: &Option<String>) -> Seq<char> {
    match prefix {
        Some(p) => p@,
        None => Seq::empty(),
    }
}

/// `<prefix>node/<device>/<sensor>/<channel>/<quantity>`
pub open spec fn topic_path(
    prefix: Seq<char>,
    device: Seq<char>,
    sensor: Seq<char>,
    channel: Seq<char>,
    quantity: Seq<char>,
) -> Seq<char> {
    prefix + "node/"@ + device + "/"@ + sensor + "/"@ + channel + "/"@ + quantity
}

/// The settings from which the topics are named.
pub trait PublishingInfo {
    spec fn spec_prefix(&self) -> Seq<char>;

    spec fn spec_device_name(&self) -> Seq<char>;

    spec fn spec_channel_thermometer(&self) -> Seq<char>;

    spec fn spec_channel_barometer(&self) -> Seq<char>;

    spec fn spec_channel_hygrometer(&self) -> Seq<char>;

    fn get_prefix(&self) -> (r: &Option<String>)
        ensures
            prefix_text(r) == self.spec_prefix(),
    ;

    fn get_device_name(&self) -> (r: &str)
        ensures
            r@ == self.spec_device_name(),
    ;

    fn get_channel_thermometer(&self) -> (r: &str)
        ensures
            r@ == self.spec_channel_thermometer(),
    ;

    fn get_channel_barometer(&self) -> (r: &str)
        ensures
            r@ == self.spec_channel_barometer(),
    ;

    fn get_channel_hygrometer(&self) -> (r: &str)
        ensures
            r@ == self.spec_channel_hygrometer(),
    ;
}

/// A destination on the message bus.
pub trait Topic {
    spec fn spec_topic(&self) -> Seq<char>;

    fn get_value(&self) -> (r: String)
        ensures
            r@ == self.spec_topic(),
    ;
}

fn topic_string(prefix: &str, device: &str, sensor: &str, channel: &str, quantity: &str) -> (r:
    String)
    ensures
        r@ == topic_path(prefix@, device@, sensor@, channel@, quantity@),
{
    let mut r = String::new();
    r.append(prefix);
    r.append("node/");
    r.append(device);
    r.append("/");
    r.append(sensor);
    r.append("/");
    r.append(channel);
    r.append("/");
    r.append(quantity);
    assert(r@ =~= topic_path(prefix@, device@, sensor@, channel@, quantity@));
    r
}

fn prefix_string(prefix: &Option<String>) -> (r: String)
    ensures
        r@ == prefix_text(prefix),
{
    match prefix {
        Some(p) => p.clone(),
        None => String::new(),
    }
}

fn owned(s: &str) -> (r: String)
    ensures
        r@ == s@,
{
    s.to_owned()
}

/// The topic of the thermometer's temperature.
#[derive(Debug)]
pub struct Temperature {
    prefix: String,
    device: String,
    channel: String,
}

impl Temperature {
    pub closed spec fn spec_parts(&self) -> (Seq<char>, Seq<char>, Seq<char>) {
        (self.prefix@, self.device@, self.channel@)
    }

    pub fn new(prefix: &Option<String>, device: &str, channel: &str) -> (r: Self)
        ensures
            r.spec_parts() == (prefix_text(prefix), device@, channel@),
    {
        Temperature { prefix: prefix_string(prefix), device: owned(device), channel: owned(channel) }
    }

    pub fn from_publishing_args<P: PublishingInfo>(args: &P) -> (r: Self)
        ensures
            r.spec_parts() == (
                args.spec_prefix(),
                args.spec_device_name(),
                args.spec_channel_thermometer(),
            ),
    {
        Self::new(args.get_prefix(), args.get_device_name(), args.get_channel_thermometer())
    }
}

impl Topic for Temperature {
    open spec fn spec_topic(&self) -> Seq<char> {
        let (prefix, device, channel) = self.spec_parts();
        topic_path(prefix, device, "thermometer"@, channel, "temperature"@)
    }

    fn get_value(&self) -> (r: String) {
        topic_string(
            self.prefix.as_str(),
            self.device.as_str(),
            "thermometer",
            self.channel.as_str(),
            "temperature",
        )
    }
}

/// The topic of the barometer's pressure.
#[derive(Debug)]
pub struct Pressure {
    prefix: String,
    device: String,
    channel: String,
}

impl Pressure {
    pub closed spec fn spec_parts(&self) -> (Seq<char>, Seq<char>, Seq<char>) {
        (self.prefix@, self.device@, self.channel@)
    }

    pub fn new(prefix: &Option<String>, device: &str, channel: &str) -> (r: Self)
        ensures
            r.spec_parts() == (prefix_text(prefix), device@, channel@),
    {
        Pressure { prefix: prefix_string(prefix), device: owned(device), channel: owned(channel) }
    }

    pub fn from_publishing_args<P: PublishingInfo>(args: &P) -> (r: Self)
        ensures
            r.spec_parts() == (
                args.spec_prefix(),
                args.spec_device_name(),
                args.spec_channel_barometer(),
            ),
    {
        Self::new(args.get_prefix(), args.get_device_name(), args.get_channel_barometer())
    }
}

impl Topic for Pressure {
    open spec fn spec_topic(&self) -> Seq<char> {
        let (prefix, device, channel) = self.spec_parts();
        topic_path(prefix, device, "barometer"@, channel, "pressure"@)
    }

    fn get_value(&self) -> (r: String) {
        topic_string(
            self.prefix.as_str(),
            self.device.as_str(),
            "barometer",
            self.channel.as_str(),
            "pressure",
        )
    }
}

/// The topic of the hygrometer's relative humidity.
#[derive(Debug)]
pub struct Humidity {
    prefix: String,
    device: String,
    channel: String,
}

impl Humidity {
    pub closed spec fn spec_parts(&self) -> (Seq<char>, Seq<char>, Seq<char>) {
        (self.prefix@, self.device@, self.channel@)
    }

    pub fn new(prefix: &Option<String>, device: &str, channel: &str) -> (r: Self)
        ensures
            r.spec_parts() == (prefix_text(prefix), device@, channel@),
    {
        Humidity { prefix: prefix_string(prefix), device: owned(device), channel: owned(channel) }
    }

    pub fn from_publishing_args<P: PublishingInfo>(args: &P) -> (r: Self)
        ensures
            r.spec_parts() == (
                args.spec_prefix(),
                args.spec_device_name(),
                args.spec_channel_hygrometer(),
            ),
    {
        Self::new(args.get_prefix(), args.get_device_name(), args.get_channel_hygrometer())
    }
}

impl Topic for Humidity {
    open spec fn spec_topic(&self) -> Seq<char> {
        let (prefix, device, channel) = self.spec_parts();
        topic_path(prefix, device, "hygrometer"@, channel, "relative-humidity"@)
    }

    fn get_value(&self) -> (r: String) {
        topic_string(
            self.prefix.as_str(),
            self.device.as_str(),
            "hygrometer",
            self.channel.as_str(),
            "relative-humidity",
        )
    }
}

} // verus!
