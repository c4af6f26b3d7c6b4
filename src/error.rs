use vstd::prelude::*;

verus! {

/// Errors reported by the push and relation services.
#[derive(PartialEq, Eq, Structural, Clone, Copy, Debug)]
pub enum Error {
    /// A stored push rule yields more than one of notify, dont_notify and coalesce.
    MalformedPushRule,
    /// The room's name state event holds content that is not a valid room name.
    InvalidRoomName,
    /// The pusher's destination cannot be turned into a request.
    InvalidDestination,
    /// The push gateway answered with a body that does not decode.
    BadGatewayResponse,
    /// The request could not be delivered (connection, timeout, name resolution).
    Transport,
    /// No further short event id can be allocated.
    ShortIdExhausted,
}

impl Error {
    /// Whether the error reports corrupt persisted data.
    pub open spec fn is_data_integrity(self) -> bool {
        self == Error::MalformedPushRule || self == Error::InvalidRoomName
    }

    /// Whether the error reports a failed delivery to a push gateway.
    pub open spec fn is_delivery(self) -> bool {
        self == Error::InvalidDestination || self == Error::BadGatewayResponse
            || self == Error::Transport
    }
}

} // verus!
