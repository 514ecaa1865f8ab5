use crate::config::{Config, Profile};
use crate::error::RuntimeError;
use vstd::prelude::*;

verus! {

/// The arguments of the daemon mode.
#[derive(Debug)]
pub struct DaemonCommand {
    /// Port to listen on
    pub port: u16,
    /// Address to bind to
    pub address: String,
}

/// Accepts a start of the daemon. The daemon itself runs outside this library.
pub fn run(_args: DaemonCommand, _config: &Config, _profile: &Profile) -> (r: Result<
    (),
    RuntimeError,
>)
    ensures
        r is Ok,
{
    Ok(())
}

} // verus!
