//! How a relay ends: the terminal signals of its two sides.

use vstd::prelude::*;

verus! {

/// The terminal signals of the local frame transport.
#[derive(Clone, Copy, Debug, PartialEq, Eq, Structural)]
pub enum TransportError {
    /// The byte stream ended inside a frame, or could not be read further.
    Truncated,
    /// A frame could not be written.
    WriteFailed,
    /// The byte stream ended on a frame boundary: an orderly end.
    Closed,
}

/// The terminal signals of the bus session.
#[derive(Clone, Copy, Debug, PartialEq, Eq, Structural)]
pub enum BusError {
    /// The connection or its channel could not be opened.
    ConnectFailed,
    /// The exchange, the queue or the binding could not be declared.
    TopologyFailed,
    /// The subscription on the queue could not be opened.
    SubscribeFailed,
    /// The broker did not take a published message.
    PublishFailed,
    /// The broker reported an error on the subscription.
    DeliveryError,
    /// The subscription or its channel closed: an orderly end.
    Closed,
}

/// The status with which a relay terminates.
#[derive(Clone, Copy, Debug, PartialEq, Eq, Structural)]
pub enum Status {
    /// The local side ended the relay.
    Transport(TransportError),
    /// The bus side ended the relay.
    Bus(BusError),
}

impl TransportError {
    /// Whether the signal reports a fault rather than an orderly end.
    pub open spec fn spec_is_fault(self) -> bool {
        self != TransportError::Closed
    }

    /// Whether the signal reports a fault rather than an orderly end.
    #[verifier::when_used_as_spec(spec_is_fault)]
    pub fn is_fault(self) -> (fault: bool)
        ensures
            fault == self.spec_is_fault(),
    {
        match self {
            TransportError::Closed => false,
            _ => true,
        }
    }
}

impl BusError {
    /// Whether the signal reports a fault rather than an orderly end.
    pub open spec fn spec_is_fault(self) -> bool {
        self != BusError::Closed
    }

    /// Whether the signal reports a fault rather than an orderly end.
    #[verifier::when_used_as_spec(spec_is_fault)]
    pub fn is_fault(self) -> (fault: bool)
        ensures
            fault == self.spec_is_fault(),
    {
        match self {
            BusError::Closed => false,
            _ => true,
        }
    }

    /// Whether the signal can only come from establishing the session.
    pub open spec fn spec_is_startup(self) -> bool {
        self == BusError::ConnectFailed || self == BusError::TopologyFailed || self
            == BusError::SubscribeFailed
    }

    /// Whether the signal can only come from establishing the session.
    #[verifier::when_used_as_spec(spec_is_startup)]
    pub fn is_startup(self) -> (startup: bool)
        ensures
            startup == self.spec_is_startup(),
    {
        match self {
            BusError::ConnectFailed => true,
            BusError::TopologyFailed => true,
            BusError::SubscribeFailed => true,
            _ => false,
        }
    }
}

impl Status {
    /// Whether the status reports a fault rather than a peer that closed.
    pub open spec fn spec_is_fault(self) -> bool {
        match self {
            Status::Transport(e) => e.spec_is_fault(),
            Status::Bus(e) => e.spec_is_fault(),
        }
    }

    /// Whether the status reports a fault rather than a peer that closed.
    #[verifier::when_used_as_spec(spec_is_fault)]
    pub fn is_fault(self) -> (fault: bool)
        ensures
            fault == self.spec_is_fault(),
    {
        match self {
            Status::Transport(e) => e.is_fault(),
            Status::Bus(e) => e.is_fault(),
        }
    }

    /// Whether the relay ended before its bus session was established.
    pub open spec fn spec_is_startup(self) -> bool {
        match self {
            Status::Transport(_) => false,
            Status::Bus(e) => e.spec_is_startup(),
        }
    }

    /// Whether the relay ended before its bus session was established.
    #[verifier::when_used_as_spec(spec_is_startup)]
    pub fn is_startup(self) -> (startup: bool)
        ensures
            startup == self.spec_is_startup(),
    {
        match self {
            Status::Transport(_) => false,
            Status::Bus(e) => e.is_startup(),
        }
    }

    /// The exit code a supervisor sees: zero when a peer closed, one on a fault.
    pub open spec fn spec_exit_code(self) -> u8 {
        if self.spec_is_fault() {
            1
        } else {
            0
        }
    }

    /// The exit code a supervisor sees: zero when a peer closed, one on a fault.
    #[verifier::when_used_as_spec(spec_exit_code)]
    pub fn exit_code(self) -> (code: u8)
        ensures
            code == self.spec_exit_code(),
    {
        if self.is_fault() {
            1
        } else {
            0
        }
    }

    /// The line the process reports when it ends with this status.
    pub open spec fn spec_message(self) -> Seq<char> {
        match self {
            Status::Transport(TransportError::Truncated) => "Error reading from browser"@,
            Status::Transport(TransportError::WriteFailed) => "Error sending to browser"@,
            Status::Transport(TransportError::Closed) => "browser input stream closed"@,
            Status::Bus(BusError::ConnectFailed) => "Failed to initialize rabbit"@,
            Status::Bus(BusError::TopologyFailed) => "Failed to initialize rabbit"@,
            Status::Bus(BusError::SubscribeFailed) => "Failed to create rabbit consumer"@,
            Status::Bus(BusError::PublishFailed) => "Error publishing to rabbit"@,
            Status::Bus(BusError::DeliveryError) => "Rabbit error"@,
            Status::Bus(BusError::Closed) => "Rabbit connection was dropped"@,
        }
    }

    /// The line the process reports when it ends with this status.
    pub fn message(self) -> (text: String)
        ensures
            text@ == self.spec_message(),
    {
        let line = match self {
            Status::Transport(TransportError::Truncated) => "Error reading from browser",
            Status::Transport(TransportError::WriteFailed) => "Error sending to browser",
            Status::Transport(TransportError::Closed) => "browser input stream closed",
            Status::Bus(BusError::ConnectFailed) => "Failed to initialize rabbit",
            Status::Bus(BusError::TopologyFailed) => "Failed to initialize rabbit",
            Status::Bus(BusError::SubscribeFailed) => "Failed to create rabbit consumer",
            Status::Bus(BusError::PublishFailed) => "Error publishing to rabbit",
            Status::Bus(BusError::DeliveryError) => "Rabbit error",
            Status::Bus(BusError::Closed) => "Rabbit connection was dropped",
        };
        line.to_owned()
    }
}

} // verus!
