//! Weather-to-message-bus bridge: the measurement model, topic naming,
//! payload formatting and the decision logic of the fetch loop, the
//! publish relay, the transport loop and their supervisor.

pub mod arguments;
pub mod connection;
pub mod decimal;
pub mod fetch;
pub mod location;
pub mod logging;
pub mod relay;
pub mod supervisor;
pub mod topic;
pub mod transport;
pub mod units;
pub mod weather;
pub mod weather_client;
pub mod weather_types;
