use vstd::prelude::*;

verus! {

/// The arguments of the choice of the active instance.
#[derive(Debug)]
pub struct SetInstanceCommand {
    /// Name of the instance to set as active
    pub instance_name: String,
}

} // verus!
