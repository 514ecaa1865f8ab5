use crate::config::{Config, Profile};
use crate::error::RuntimeError;
use vstd::prelude::*;

verus! {

/// The arguments of the removal of an installation.
#[derive(Debug)]
pub struct UninstallCommand {
    /// Remove without confirmation
    pub force: bool,
}

/// Accepts a removal. The removal itself is done outside this library.
pub fn run(_args: UninstallCommand, _config: &Config, _profile: &Profile) -> (r: Result<
    (),
    RuntimeError,
>)
    ensures
        r is Ok,
{
    Ok(())
}

} // verus!
