//! The two ways in which opening a connection fails.

use vstd::prelude::*;

verus! {

/// Why no stream could be handed out.
#[derive(Debug, Clone, Copy, PartialEq, Eq, Structural)]
pub enum Error {
    /// The platform refused the address before any handshake began.
    UnsupportedUrlScheme,
    /// The error signal of the handshake fired before the ready signal.
    ConnectionClosed,
}

impl Error {
    /// The text that describes this error to a user.
    pub open spec fn text(self) -> Seq<char> {
        match self {
            Error::UnsupportedUrlScheme => "URL scheme not supported"@,
            Error::ConnectionClosed => "Connection closed"@,
        }
    }

    /// Renders the error as its user-facing text.
    pub fn message(&self) -> (s: String)
        ensures
            s@ == self.text(),
    {
        match self {
            Error::UnsupportedUrlScheme => "URL scheme not supported".to_owned(),
            Error::ConnectionClosed => "Connection closed".to_owned(),
        }
    }
}

} // verus!
