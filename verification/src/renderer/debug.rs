//! Validation layers.

use vstd::prelude::*;

verus! {

/// Whether validation is on, and the layers it needs.
#[derive(Clone, Copy, Debug)]
pub struct ValidationInfo {
    pub is_enable: bool,
    pub required_validation_layers: [&'static str; 1],
}

impl ValidationInfo {
    /// The layers to request: the required ones when validation is on, none
    /// when it is off.
    pub open spec fn requested_layers(self) -> Seq<Seq<char>> {
        if self.is_enable {
            self.required_validation_layers.deep_view()
        } else {
            Seq::empty()
        }
    }
}

} // verus!
