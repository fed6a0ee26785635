//! Launch configuration for the game client: the record that the launcher
//! reads, and the pipeline that fills it from an account service.
use vstd::prelude::*;
use vstd::string::StrSliceExecFns;

pub mod account;
pub mod bootstrap;
pub mod config;
pub mod endpoint;
pub mod error;
pub mod kinds;

pub use config::{Character, LoginResponse, MezFes, MhfConfig, Notice, User};
pub use bootstrap::{Action, Bootstrap, Event};
pub use account::{AuthMode, Request};
pub use error::{Error, RequestKind};
pub use kinds::{CliFlags, MezFesStall, MhfVersion};

verus! {

/// Length, in characters, that a session token must have for a launch.
pub const TOKEN_LEN: usize = 16;

/// Whether a configuration may be handed to the launcher.
pub open spec fn launchable(config: MhfConfig) -> bool {
    config.user_token@.len() == TOKEN_LEN
}

/// Whether a session token has the length that a launch needs.
pub fn token_launchable(token: &str) -> (r: bool)
    ensures
        r == (token@.len() == TOKEN_LEN),
{
    token.unicode_len() == TOKEN_LEN
}

/// Launch-time validation: a configuration whose session token is not exactly
/// sixteen characters long is refused; any other is handed back unchanged,
/// ready for the launcher.
pub fn run(config: MhfConfig) -> (r: Result<MhfConfig, Error>)
    ensures
        launchable(config) ==> r == Ok::<MhfConfig, Error>(config),
        !launchable(config) ==> r == Err::<MhfConfig, Error>(Error::TokenLength),
{
    if !token_launchable(config.user_token.as_str()) {
        return Err(Error::TokenLength);
    }
    Ok(config)
}

} // verus!
