//! The failures a signaling session can report.

use vstd::prelude::*;
use vstd::string::StringExecFns;

verus! {

/// Why an operation of the signaling core did not go through.
#[derive(Debug, Clone, Copy, PartialEq, Eq, Structural)]
pub enum SignalError {
    /// The configuration is unusable. Fatal at startup.
    Config,
    /// An inbound signaling payload is malformed.
    Decode,
    /// An outbound signaling payload could not be written.
    Encode,
    /// A call into the connection engine failed.
    Engine,
    /// A signaling message was not delivered within the allowed attempts.
    SignalDeliveryFailed,
    /// A message was to be sent before any data channel was established.
    ChannelNotReady,
    /// The event does not fit the state the session is in.
    InvalidState,
}

/// The human-readable text of each failure.
pub open spec fn error_text(error: SignalError) -> Seq<char> {
    match error {
        SignalError::Config => "Failed to load config file"@,
        SignalError::Decode => "Failed to deserialize signaling payload"@,
        SignalError::Encode => "Failed to serialize signaling payload"@,
        SignalError::Engine => "Connection engine rejected the operation"@,
        SignalError::SignalDeliveryFailed => "Failed to send request after 5 attempts"@,
        SignalError::ChannelNotReady => "Data channel not initialized"@,
        SignalError::InvalidState => "Signaling event does not fit the session state"@,
    }
}

impl SignalError {
    /// The text shown to the user for this failure.
    pub fn message(&self) -> (text: String)
        ensures
            text@ == error_text(*self),
    {
        match self {
            SignalError::Config => String::from_str("Failed to load config file"),
            SignalError::Decode => String::from_str("Failed to deserialize signaling payload"),
            SignalError::Encode => String::from_str("Failed to serialize signaling payload"),
            SignalError::Engine => String::from_str("Connection engine rejected the operation"),
            SignalError::SignalDeliveryFailed => String::from_str(
                "Failed to send request after 5 attempts",
            ),
            SignalError::ChannelNotReady => String::from_str("Data channel not initialized"),
            SignalError::InvalidState => String::from_str(
                "Signaling event does not fit the session state",
            ),
        }
    }

    /// Whether the process has to stop on this failure. Only an unusable
    /// configuration is fatal; after any other failure the offending
    /// operation is abandoned and the process keeps running.
    pub fn is_fatal(&self) -> (fatal: bool)
        ensures
            fatal == (*self is Config),
    {
        match self {
            SignalError::Config => true,
            _ => false,
        }
    }
}

} // verus!
