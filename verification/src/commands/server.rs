use crate::config::{Config, Profile};
use crate::error::RuntimeError;
use vstd::prelude::*;

verus! {

/// The arguments of a server instance.
#[derive(Debug)]
pub struct ServerCommand {
    /// Model to use
    pub model: Option<String>,
    /// Port to listen on
    pub port: u16,
    /// Address to bind to
    pub address: String,
    /// Context size
    pub ctx_size: Option<u32>,
    /// Number of layers to offload to GPU
    pub gpu_layers: Option<u32>,
}

/// Accepts a start of a server. The server itself runs outside this library.
pub fn run(_args: ServerCommand, _config: &Config, _profile: &Profile) -> (r: Result<
    (),
    RuntimeError,
>)
    ensures
        r is Ok,
{
    Ok(())
}

} // verus!
