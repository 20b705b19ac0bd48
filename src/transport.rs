//! Decisions of the transport loop: every notification of the connection
//! is observed, and a terminal one, or the end of the stream, ends the loop
//! with an error.
use vstd::prelude::*;

verus! {

/// The underlying failure behind a terminal notification.
#[derive(Clone, Debug, PartialEq, Eq)]
pub enum TerminalCause {
    Timeout,
    Network(String),
    ProtocolState(String),
    Io(String),
    Other(String),
}

/// A notification of the message-bus connection.
#[derive(Clone, Debug, PartialEq, Eq)]
pub enum Notification {
    Connected,
    /// An inbound publish under the given topic (not expected, only observed).
    Publish(String),
    Puback(u16),
    Pubrec(u16),
    Pubcomp(u16),
    Suback(u16),
    Unsuback(u16),
    /// The connection failed for good.
    Abort(TerminalCause),
}

/// Why the transport loop ended; it never ends without one.
#[derive(Clone, Debug, PartialEq, Eq)]
pub enum TransportError {
    /// The connection could not be made, or failed later.
    Terminal(TerminalCause),
    /// The stream of notifications ended.
    StreamEnded,
}

pub open spec fn is_terminal(n: Notification) -> bool {
    n is Abort
}

/// What one notification does to the loop: `None` to go on, or the error
/// that ends it.
pub open spec fn notification_outcome(n: Notification) -> Option<TransportError> {
    match n {
        Notification::Abort(c) => Some(TransportError::Terminal(c)),
        _ => None,
    }
}

/// The error that ends a loop which receives `ns` and then sees its stream end.
pub open spec fn transport_run(ns: Seq<Notification>) -> TransportError
    decreases ns.len(),
{
    if ns.len() == 0 {
        TransportError::StreamEnded
    } else {
        match notification_outcome(ns[0]) {
            Some(e) => e,
            None => transport_run(ns.drop_first()),
        }
    }
}

/// Observes one notification: `None` to go on, or the error that ends the loop.
pub fn on_notification(n: Notification) -> (r: Option<TransportError>)
    ensures
        r == notification_outcome(n),
        r is Some <==> is_terminal(n),
{
    match n {
        Notification::Abort(c) => Some(TransportError::Terminal(c)),
        _ => None,
    }
}

/// The connection could not be made.
pub fn on_connect_error(cause: TerminalCause) -> (r: TransportError)
    ensures
        r == TransportError::Terminal(cause),
{
    TransportError::Terminal(cause)
}

/// The stream of notifications ended.
pub fn on_stream_end() -> (r: TransportError)
    ensures
        r == TransportError::StreamEnded,
{
    TransportError::StreamEnded
}

/// A stream that ends after notifications none of which is terminal ends
/// the loop with `StreamEnded`; one with a terminal notification ends it with
/// the cause of the first.
pub proof fn lemma_transport_run(ns: Seq<Notification>, k: int)
    requires
        0 <= k <= ns.len(),
        forall|i: int| 0 <= i < k ==> !is_terminal(#[trigger] ns[i]),
        k < ns.len() ==> is_terminal(ns[k]),
    ensures
        k == ns.len() ==> transport_run(ns) == TransportError::StreamEnded,
        k < ns.len() ==> transport_run(ns) == TransportError::Terminal(ns[k]->Abort_0),
    decreases k,
{
    if k > 0 {
        let rest = ns.drop_first();
        assert(!is_terminal(ns[0]));
        assert forall|i: int| 0 <= i < k - 1 implies !is_terminal(#[trigger] rest[i]) by {
            assert(rest[i] == ns[i + 1]);
        }
        lemma_transport_run(rest, k - 1);
    }
}

} // verus!
