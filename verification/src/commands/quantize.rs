use crate::config::{Config, Profile};
use crate::error::RuntimeError;
use vstd::prelude::*;

verus! {

/// The arguments of a quantisation.
#[derive(Debug)]
pub struct QuantizeCommand {
    /// Path to the input GGUF file
    pub input: String,
    /// Path to the output GGUF file
    pub output: String,
    /// Quantization type
    pub quant: String,
}

/// Accepts a quantisation. The quantisation itself is done outside this library.
pub fn run(_args: QuantizeCommand, _config: &Config, _profile: &Profile) -> (r: Result<
    (),
    RuntimeError,
>)
    ensures
        r is Ok,
{
    Ok(())
}

} // verus!
