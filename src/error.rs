use vstd::prelude::*;

verus! {

/// The request that an account-service failure belongs to.
#[derive(Debug, Clone, Copy, PartialEq, Eq, Structural)]
pub enum RequestKind {
    Login,
    Register,
    CreateCharacter,
}

/// Why a bootstrap or a launch stopped.
#[derive(Debug)]
pub enum Error {
    /// The server endpoint could not be parsed, or names no host.
    InvalidServerUrl,
    /// The transport could not reach an endpoint.
    NetworkError(String),
    /// The account service answered with a status outside 200..=299.
    ServerError { request: RequestKind, status: u16, body: String },
    /// A response body did not match the expected schema.
    MalformedResponse(String),
    /// The session token is not exactly sixteen characters long.
    TokenLength,
    /// The configuration file could not be written.
    WriteFailed(String),
    /// A menu choice named no entry of the menu that was shown.
    InvalidSelection(usize),
    /// An event came that the current stage of a bootstrap does not expect.
    UnexpectedEvent,
}

} // verus!
