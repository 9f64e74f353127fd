//! Errors of the connection wrapper.
use vstd::prelude::*;

verus! {

/// What went wrong in a call of the connection wrapper.
#[derive(Debug, Clone, PartialEq, Eq)]
pub enum ClientError {
    /// The address is not a URL, or its scheme or path is not accepted; the
    /// text gives the reason.
    InvalidAddress(String),
    /// An operation that needs a connection ran before one was made.
    NotConnected,
    /// The transport could not take the address.
    ConnectionError(String),
    /// The remote call failed; the text describes the cause.
    RpcError(String),
}

pub open spec fn error_text(e: ClientError) -> Seq<char> {
    match e {
        ClientError::InvalidAddress(m) => "Invalid address: "@ + m@,
        ClientError::NotConnected => "Client not connected"@,
        ClientError::ConnectionError(m) => "Connection failed: "@ + m@,
        ClientError::RpcError(m) => "Remote call failed: "@ + m@,
    }
}

impl ClientError {
    /// A line of text for a person to read.
    pub fn message(&self) -> (r: String)
        ensures
            r@ == error_text(*self),
    {
        match self {
            ClientError::InvalidAddress(m) => String::from_str("Invalid address: ").concat(
                m.as_str(),
            ),
            ClientError::NotConnected => String::from_str("Client not connected"),
            ClientError::ConnectionError(m) => String::from_str("Connection failed: ").concat(
                m.as_str(),
            ),
            ClientError::RpcError(m) => String::from_str("Remote call failed: ").concat(
                m.as_str(),
            ),
        }
    }
}

} // verus!
