use vstd::prelude::*;

verus! {

/// Command-line arguments: the oven's IP address.
pub struct Args {
    /// IP address of the oven
    pub address: String,
}

} // verus!
