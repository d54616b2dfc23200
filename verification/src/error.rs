use vstd::prelude::*;

verus! {

/// Everything that can go wrong while decoding a frame or shaking hands.
#[derive(Clone, Copy, Debug, PartialEq, Eq, Structural)]
pub enum ProtocolError {
    /// A parse asked for more bytes than the buffer still holds.
    TruncatedInput,
    /// A 16-byte address field does not hold an IPv4-mapped address.
    InvalidAddressFamily,
    /// The decoded envelope carries a command other than the expected one.
    CommandMismatch,
    /// The transport reported a failed read or write.
    TransportFailure,
}

impl ProtocolError {
    /// A short human-readable description of the error.
    pub fn describe(&self) -> (s: String)
        ensures
            s@ == describe_spec(*self),
    {
        match self {
            ProtocolError::TruncatedInput => "buffer too small".to_string(),
            ProtocolError::InvalidAddressFamily => "not an IPv4-mapped address".to_string(),
            ProtocolError::CommandMismatch => "wrong command".to_string(),
            ProtocolError::TransportFailure => "transport failure".to_string(),
        }
    }
}

/// The text that `describe` gives for each error.
pub open spec fn describe_spec(e: ProtocolError) -> Seq<char> {
    match e {
        ProtocolError::TruncatedInput => "buffer too small"@,
        ProtocolError::InvalidAddressFamily => "not an IPv4-mapped address"@,
        ProtocolError::CommandMismatch => "wrong command"@,
        ProtocolError::TransportFailure => "transport failure"@,
    }
}

} // verus!
