//! The publish relay: each measurement value becomes three publish
//! requests, one per measurement kind, and the next value is taken only
//! once all three have completed.
use crate::decimal::{fixed_text, format_fixed, round_div, rounded_quotient};
use crate::topic::{Humidity, Pressure, Temperature, Topic};
use crate::units::{display_hundredths, Units};
use crate::weather::CurrentWeather;
use vstd::prelude::*;

verus! {

/// Delivery guarantee of a publish.
#[derive(Clone, Copy, Debug, PartialEq, Eq, Structural)]
pub enum QoS {
    AtMostOnce,
    AtLeastOnce,
    ExactlyOnce,
}

/// One message to publish: its topic, its payload text and its delivery level.
#[derive(Clone, Debug, PartialEq, Eq)]
pub struct PublishRequest {
    pub topic: String,
    pub payload: String,
    pub qos: QoS,
}

pub open spec fn request_view(r: PublishRequest) -> (Seq<char>, Seq<char>, QoS) {
    (r.topic@, r.payload@, r.qos)
}

pub open spec fn requests_view(rs: Seq<PublishRequest>) -> Seq<(Seq<char>, Seq<char>, QoS)> {
    rs.map_values(|r: PublishRequest| request_view(r))
}

#[verifier::external_type_specification]
#[verifier::external_body]
pub struct ExRequest(rumq_client::Request);

/// Relies on `rumq_client::Publish::new`, wrapped as a publish request of
/// the connection: `payload` is sent as its UTF-8 bytes.
#[verifier::external_body]
fn publish_packet(topic: String, qos: QoS, payload: String) -> rumq_client::Request {
    let qos = match qos {
        QoS::AtMostOnce => rumq_client::QoS::AtMostOnce,
        QoS::AtLeastOnce => rumq_client::QoS::AtLeastOnce,
        QoS::ExactlyOnce => rumq_client::QoS::ExactlyOnce,
    };
    rumq_client::Request::Publish(rumq_client::Publish::new(topic, qos, payload.into_bytes()))
}

impl PublishRequest {
    /// The request that hands this publish to the connection.
    pub fn into_request(self) -> rumq_client::Request {
        publish_packet(self.topic, self.qos, self.payload)
    }
}

/// An at-least-once publish of `msg` under the topic `top`.
pub fn create_publish_request(msg: String, top: &str) -> (r: PublishRequest)
    ensures
        request_view(r) == (top@, msg@, QoS::AtLeastOnce),
{
    PublishRequest { topic: top.to_owned(), payload: msg, qos: QoS::AtLeastOnce }
}

/// The three topics, computed once.
#[derive(Clone, Debug, PartialEq, Eq)]
pub struct Topics {
    pub temperature: String,
    pub pressure: String,
    pub humidity: String,
}

pub open spec fn topics_view(t: Topics) -> (Seq<char>, Seq<char>, Seq<char>) {
    (t.temperature@, t.pressure@, t.humidity@)
}

impl Topics {
    pub fn new(temperature: &Temperature, pressure: &Pressure, humidity: &Humidity) -> (r: Topics)
        ensures
            topics_view(r) == (
                temperature.spec_topic(),
                pressure.spec_topic(),
                humidity.spec_topic(),
            ),
    {
        Topics {
            temperature: temperature.get_value(),
            pressure: pressure.get_value(),
            humidity: humidity.get_value(),
        }
    }
}

/// Temperature payload: hundredths of the display unit, two decimals.
pub open spec fn temperature_payload(units: Units, v: CurrentWeather) -> Seq<char> {
    fixed_text(display_hundredths(units, v.spec_temperature()), 2)
}

/// Pressure payload: pascals, two decimals.
pub open spec fn pressure_payload(v: CurrentWeather) -> Seq<char> {
    fixed_text(v.spec_pressure(), 2)
}

/// Humidity payload: percent, one decimal.
pub open spec fn humidity_payload(v: CurrentWeather) -> Seq<char> {
    fixed_text(rounded_quotient(v.spec_humidity().spec_hundredths(), 10), 1)
}

/// The three requests of one value: temperature, pressure, humidity.
pub open spec fn cycle_requests(
    topics: (Seq<char>, Seq<char>, Seq<char>),
    units: Units,
    v: CurrentWeather,
) -> Seq<(Seq<char>, Seq<char>, QoS)> {
    seq![
        (topics.0, temperature_payload(units, v), QoS::AtLeastOnce),
        (topics.1, pressure_payload(v), QoS::AtLeastOnce),
        (topics.2, humidity_payload(v), QoS::AtLeastOnce),
    ]
}

/// The requests issued for `values`, taken in order, one cycle after another.
pub open spec fn relay_trace(
    topics: (Seq<char>, Seq<char>, Seq<char>),
    units: Units,
    values: Seq<CurrentWeather>,
) -> Seq<(Seq<char>, Seq<char>, QoS)>
    decreases values.len(),
{
    if values.len() == 0 {
        Seq::empty()
    } else {
        relay_trace(topics, units, values.drop_last()) + cycle_requests(
            topics,
            units,
            values.last(),
        )
    }
}

/// The three publish requests of the value `v`.
pub fn publish_requests(topics: &Topics, units: Units, v: &CurrentWeather) -> (r: Vec<
    PublishRequest,
>)
    ensures
        requests_view(r@) == cycle_requests(topics_view(*topics), units, *v),
{
    let temperature = units.convert_temperature(v.get_temperature());
    let pressure = v.get_pressure() as i64;
    let humidity = round_div(v.get_humidity().hundredths() as i64, 10);
    let mut r: Vec<PublishRequest> = Vec::new();
    r.push(create_publish_request(format_fixed(temperature, 2), topics.temperature.as_str()));
    r.push(create_publish_request(format_fixed(pressure, 2), topics.pressure.as_str()));
    r.push(create_publish_request(format_fixed(humidity, 1), topics.humidity.as_str()));
    assert(requests_view(r@) =~= cycle_requests(topics_view(*topics), units, *v));
    r
}

/// A send of one publish request that failed, described in words.
#[derive(Clone, Debug, PartialEq, Eq)]
pub struct SendError {
    pub message: String,
}

/// Why the publish relay ended.
#[derive(Clone, Debug, PartialEq, Eq)]
pub enum PublishError {
    /// Sends of the last cycle failed; the failures, in request order.
    Send(Vec<SendError>),
    /// The queue of measurement values was closed.
    QueueClosed,
}

/// The failures among the results of a cycle's sends, in order.
pub open spec fn send_failures(results: Seq<Result<(), SendError>>) -> Seq<SendError>
    decreases results.len(),
{
    if results.len() == 0 {
        Seq::empty()
    } else {
        let rest = send_failures(results.drop_last());
        match results.last() {
            Ok(_) => rest,
            Err(e) => rest.push(e),
        }
    }
}

/// The state of the publish relay: its topics and unit, whether a cycle is
/// in flight, and (as ghost state) the values taken so far.
pub struct PublishRelay {
    topics: Topics,
    units: Units,
    in_flight: bool,
    taken: Ghost<Seq<CurrentWeather>>,
}

impl PublishRelay {
    pub closed spec fn spec_topics(&self) -> (Seq<char>, Seq<char>, Seq<char>) {
        topics_view(self.topics)
    }

    pub closed spec fn spec_units(&self) -> Units {
        self.units
    }

    pub closed spec fn spec_in_flight(&self) -> bool {
        self.in_flight
    }

    /// The values taken from the queue so far, in order.
    pub closed spec fn spec_taken(&self) -> Seq<CurrentWeather> {
        self.taken@
    }

    /// The requests issued so far, in order.
    pub open spec fn spec_issued(&self) -> Seq<(Seq<char>, Seq<char>, QoS)> {
        relay_trace(self.spec_topics(), self.spec_units(), self.spec_taken())
    }

    pub fn new(topics: Topics, units: Units) -> (r: PublishRelay)
        ensures
            r.spec_topics() == topics_view(topics),
            r.spec_units() == units,
            !r.spec_in_flight(),
            r.spec_taken() == Seq::<CurrentWeather>::empty(),
    {
        PublishRelay { topics, units, in_flight: false, taken: Ghost(Seq::empty()) }
    }

    /// Whether the relay may take the next value.
    pub fn is_idle(&self) -> (r: bool)
        ensures
            r == !self.spec_in_flight(),
    {
        !self.in_flight
    }

    /// Takes the next value and issues its three requests; the cycle is then
    /// in flight until `complete`.
    pub fn take(&mut self, v: CurrentWeather) -> (r: Vec<PublishRequest>)
        requires
            !old(self).spec_in_flight(),
        ensures
            requests_view(r@) == cycle_requests(old(self).spec_topics(), old(self).spec_units(), v),
            final(self).spec_in_flight(),
            final(self).spec_taken() == old(self).spec_taken().push(v),
            final(self).spec_topics() == old(self).spec_topics(),
            final(self).spec_units() == old(self).spec_units(),
            final(self).spec_issued() == old(self).spec_issued() + requests_view(r@),
    {
        let r = publish_requests(&self.topics, self.units, &v);
        self.in_flight = true;
        self.taken = Ghost(self.taken@.push(v));
        proof {
            assert(self.taken@.drop_last() =~= old(self).taken@);
        }
        r
    }

    /// All sends of the cycle in flight have completed with `results`: the
    /// relay is idle again, and fails where any send failed.
    pub fn complete(&mut self, results: Vec<Result<(), SendError>>) -> (r: Result<(), PublishError>)
        requires
            old(self).spec_in_flight(),
        ensures
            !final(self).spec_in_flight(),
            final(self).spec_taken() == old(self).spec_taken(),
            final(self).spec_topics() == old(self).spec_topics(),
            final(self).spec_units() == old(self).spec_units(),
            r is Ok <==> send_failures(results@).len() == 0,
            r matches Err(e) ==> (e matches PublishError::Send(fs) && fs@ == send_failures(
                results@,
            )),
    {
        self.in_flight = false;
        let ghost all = results@;
        let mut rest = results;
        let mut failures: Vec<SendError> = Vec::new();
        while rest.len() > 0
            invariant
                send_failures(all) == send_failures(rest@) + failures@,
            decreases rest.len(),
        {
            let ghost before = rest@;
            let last = rest.pop();
            proof {
                assert(rest@ =~= before.drop_last());
            }
            match last {
                Some(Err(e)) => {
                    failures.insert(0, e);
                    assert(send_failures(all) =~= send_failures(rest@) + failures@);
                },
                _ => {},
            }
        }
        assert(send_failures(all) =~= failures@);
        if failures.len() == 0 {
            Ok(())
        } else {
            Err(PublishError::Send(failures))
        }
    }

    /// The queue of values was closed: the relay ends.
    pub fn on_queue_closed(&self) -> (r: PublishError)
        ensures
            r == PublishError::QueueClosed,
    {
        PublishError::QueueClosed
    }
}

/// Requests leave the relay in the order in which the values were taken:
/// the requests of the `k`-th value are exactly the three at `3k`, `3k + 1`
/// and `3k + 2`, after all those of earlier values and before all those of
/// later ones.
pub proof fn lemma_relay_fifo(
    topics: (Seq<char>, Seq<char>, Seq<char>),
    units: Units,
    values: Seq<CurrentWeather>,
    k: int,
    m: int,
)
    requires
        0 <= k < values.len(),
        0 <= m < 3,
    ensures
        relay_trace(topics, units, values).len() == 3 * values.len(),
        relay_trace(topics, units, values)[3 * k + m] == cycle_requests(topics, units, values[k])[m],
    decreases values.len(),
{
    let prefix = values.drop_last();
    lemma_relay_trace_len(topics, units, prefix);
    if k < values.len() - 1 {
        lemma_relay_fifo(topics, units, prefix, k, m);
    }
}

proof fn lemma_relay_trace_len(
    topics: (Seq<char>, Seq<char>, Seq<char>),
    units: Units,
    values: Seq<CurrentWeather>,
)
    ensures
        relay_trace(topics, units, values).len() == 3 * values.len(),
    decreases values.len(),
{
    if values.len() > 0 {
        lemma_relay_trace_len(topics, units, values.drop_last());
    }
}

} // verus!
