use vstd::prelude::*;

verus! {

/// The error taxonomy of the bridge layer. Every failure is scoped to the
/// single invocation or stream item that produced it; none is fatal to the
/// process, and nothing is retried by this layer.
#[derive(Debug)]
pub enum BridgeError {
    /// The inbound JSON payload does not match the expected request shape.
    /// Carries the parse diagnostic shown to the caller.
    MalformedRequest(String),
    /// The executor's response could not be rendered back to JSON text.
    /// Carries the serializer's diagnostic.
    SerializationFailure(String),
    /// The invocation named a command outside the recognized set. Carries the
    /// full rejection text.
    UnknownCommand(String),
    /// An event push towards a torn-down caller session failed; treated as
    /// implicit cancellation of the stream.
    DeliveryFailure,
}

impl BridgeError {
    /// The human-readable text that the caller sees for this error.
    pub open spec fn message_view(&self) -> Seq<char> {
        match self {
            BridgeError::MalformedRequest(m) => m@,
            BridgeError::SerializationFailure(m) => m@,
            BridgeError::UnknownCommand(m) => m@,
            BridgeError::DeliveryFailure => "subscription event delivery failed"@,
        }
    }

    pub fn message(&self) -> (r: String)
        ensures
            r@ == self.message_view(),
    {
        match self {
            BridgeError::MalformedRequest(m) => m.clone(),
            BridgeError::SerializationFailure(m) => m.clone(),
            BridgeError::UnknownCommand(m) => m.clone(),
            BridgeError::DeliveryFailure => String::from_str("subscription event delivery failed"),
        }
    }
}

} // verus!
