//! The broker's side of the conversation, as far as the bridge looks at it.

use vstd::prelude::*;

verus! {

/// The delivery guarantee of a subscription.
#[derive(Clone, Copy, Debug, PartialEq, Eq, Structural)]
pub enum QoS {
    AtMostOnce,
    AtLeastOnce,
    ExactlyOnce,
}

/// The broker's answer to one topic of a subscribe request.
#[derive(Clone, Copy, Debug, PartialEq, Eq, Structural)]
pub enum SubscribeReasonCode {
    Success(QoS),
    Failure,
}

/// The broker's answer to a connect request.
#[derive(Clone, Copy, Debug, PartialEq, Eq, Structural)]
pub enum ConnectReturnCode {
    Success,
    RefusedProtocolVersion,
    BadClientId,
    ServiceUnavailable,
    BadUserNamePassword,
    NotAuthorized,
}

/// A message received from the broker.
#[derive(Debug, PartialEq, Eq)]
pub struct Publication {
    pub topic: String,
    pub payload: Vec<u8>,
}

/// What one poll of the broker connection yields.
#[derive(Debug, PartialEq, Eq)]
pub enum Notification {
    /// A message arrived.
    Publish(Publication),
    /// The broker answered a subscribe request, with one code per topic.
    SubAck { return_codes: Vec<SubscribeReasonCode> },
    /// The broker answered the connect request.
    ConnAck { code: ConnectReturnCode },
    /// The broker announced that it closes the connection.
    Disconnect,
    /// Any other packet, incoming or outgoing.
    Other,
    /// The poll failed; `detail` describes the failure.
    PollError { detail: String },
}

} // verus!
