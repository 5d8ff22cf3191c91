//! Device extensions.

use vstd::prelude::*;

verus! {

/// The extensions a device must offer to be selected.
#[derive(Clone, Copy, Debug)]
pub struct DeviceExtension {
    pub names: [&'static str; 1],
}

} // verus!
