//! The failures that the library reports.

use vstd::prelude::*;

verus! {

/// Every failure of a session or of the identity registry.
#[derive(Debug)]
pub enum Error {
    /// The transport failed to connect or to close, with its message.
    ConnectionFailed(String),
    /// No host process listens for the connection.
    DiscordNotRunning,
    /// The transport failed to send an update or a clear, with its message.
    ActivityUpdateFailed(String),
    /// A configuration file could not be read or parsed.
    ConfigLoadFailed(String),
    /// A configuration file could not be written.
    ConfigSaveFailed(String),
    /// The application identity is empty or the transport refused it.
    InvalidApplicationId(String),
    /// The session is not connected.
    Disconnected,
    /// The previous update or clear was too recent.
    RateLimited,
    /// Identity indices start at 1; 0 names none.
    InvalidIndex,
    /// No identity is registered under `index`; `registered` lists those
    /// that are, in increasing order.
    NotFound { index: u32, registered: Vec<u32> },
}

} // verus!
