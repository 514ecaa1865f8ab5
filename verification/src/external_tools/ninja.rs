//! The build executor. The build generator runs it; the installation only makes
//! sure that it is there.

use crate::external_tools::{Capability, ExternalTool};
use std::path::PathBuf;
use vstd::prelude::*;

verus! {

/// The build executor.
#[derive(Debug, PartialEq, Eq)]
pub struct Ninja {
    path: PathBuf,
}

impl ExternalTool for Ninja {
    closed spec fn program(&self) -> PathBuf {
        self.path
    }

    open spec fn spec_capability() -> Capability {
        Capability::BuildExecutor
    }

    fn new(path: PathBuf) -> (tool: Self) {
        Ninja { path }
    }

    fn capability() -> (capability: Capability) {
        let capability = Capability::BuildExecutor;
        assert(capability == Self::spec_capability());
        capability
    }

    fn path(&self) -> (path: &PathBuf) {
        &self.path
    }
}

} // verus!
