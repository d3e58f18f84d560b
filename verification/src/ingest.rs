//! The raw PCM listener: which connection step follows which event, and what
//! each read from a client means.

use vstd::prelude::*;

verus! {

/// What happened last at the PCM listener.
#[derive(Clone, Copy, Debug, PartialEq, Eq, Structural)]
pub enum ListenerEvent {
    /// The listener is bound and ready.
    Bound,
    /// A client connected.
    Accepted,
    /// Accepting a connection failed.
    AcceptFailed,
    /// The connected client's stream ended, cleanly or not.
    ClientEnded,
    /// A stop was requested.
    Cancelled,
}

/// What the PCM listener does next.
#[derive(Clone, Copy, Debug, PartialEq, Eq, Structural)]
pub enum ListenerStep {
    /// Wait for the next connection.
    AwaitConnection,
    /// Pump the connected client's stream into the bridge.
    ServeClient,
    /// Leave cleanly.
    Stop,
    /// Leave with the accept error.
    Fail,
}

/// The next step of the PCM listener: it keeps waiting for connections and
/// serving them one at a time, going back to waiting whenever a client's
/// stream ends, until a stop is requested or accepting fails.
pub fn next_listener_step(event: ListenerEvent) -> (r: ListenerStep)
    ensures
        r == (match event {
            ListenerEvent::Bound => ListenerStep::AwaitConnection,
            ListenerEvent::Accepted => ListenerStep::ServeClient,
            ListenerEvent::AcceptFailed => ListenerStep::Fail,
            ListenerEvent::ClientEnded => ListenerStep::AwaitConnection,
            ListenerEvent::Cancelled => ListenerStep::Stop,
        }),
{
    match event {
        ListenerEvent::Bound => ListenerStep::AwaitConnection,
        ListenerEvent::Accepted => ListenerStep::ServeClient,
        ListenerEvent::AcceptFailed => ListenerStep::Fail,
        ListenerEvent::ClientEnded => ListenerStep::AwaitConnection,
        ListenerEvent::Cancelled => ListenerStep::Stop,
    }
}

/// What one wait on a connected client gave.
#[derive(Clone, Copy, Debug, PartialEq, Eq, Structural)]
pub enum PumpEvent {
    /// This many bytes were read into the buffer.
    Read(usize),
    /// Reading failed.
    ReadFailed,
    /// A stop was requested.
    Cancelled,
}

/// What the client pump does next.
#[derive(Clone, Copy, Debug, PartialEq, Eq, Structural)]
pub enum PumpStep {
    /// Broadcast the first `len` bytes of the buffer, then read again.
    Forward { len: usize },
    /// The client is done (it disconnected or a stop was requested).
    Finish,
    /// The client's stream failed.
    Fail,
}

/// The next step of the client pump: every non-empty read is forwarded, a
/// read of nothing means the client disconnected.
pub fn next_pump_step(event: PumpEvent) -> (r: PumpStep)
    ensures
        r == (match event {
            PumpEvent::Read(n) => if n == 0 {
                PumpStep::Finish
            } else {
                PumpStep::Forward { len: n }
            },
            PumpEvent::ReadFailed => PumpStep::Fail,
            PumpEvent::Cancelled => PumpStep::Finish,
        }),
{
    match event {
        PumpEvent::Read(n) => if n == 0 {
            PumpStep::Finish
        } else {
            PumpStep::Forward { len: n }
        },
        PumpEvent::ReadFailed => PumpStep::Fail,
        PumpEvent::Cancelled => PumpStep::Finish,
    }
}

} // verus!
