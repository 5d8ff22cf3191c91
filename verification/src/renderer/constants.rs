//! The engine's configuration.

use vstd::prelude::*;
use crate::renderer::debug::ValidationInfo;
use crate::renderer::extension_names::{khr_swapchain, swapchain_name};
use crate::renderer::structures::DeviceExtension;

verus! {

pub const WINDOW_TITLE: &'static str = "Laios";

pub const ENGINE_NAME: &'static str = "Laios Engine";

pub const WINDOW_WIDTH: u32 = 896;

pub const WINDOW_HEIGHT: u32 = 504;

pub const APPLICATION_VERSION: u32 = 4194304;

pub const ENGINE_VERSION: u32 = 4194304;

pub const API_VERSION: u32 = 4194396;

pub const VALIDATION_ENABLED: bool = true;

pub const VALIDATION_LAYER: &'static str = "VK_LAYER_LUNARG_standard_validation";

pub const SWAPCHAIN_EXTENSION: &'static str = "VK_KHR_swapchain";

pub const MAX_FRAMES_IN_FLIGHT: usize = 2;

pub const IS_PAINT_FPS_COUNTER: bool = false;

/// The validation configuration: on, with the standard validation layer.
pub fn validation_config() -> (validation: ValidationInfo)
    ensures
        validation.is_enable == VALIDATION_ENABLED,
        validation.required_validation_layers.deep_view() == seq![VALIDATION_LAYER@],
        validation.requested_layers() == seq![VALIDATION_LAYER@],
{
    let validation = ValidationInfo {
        is_enable: VALIDATION_ENABLED,
        required_validation_layers: [VALIDATION_LAYER],
    };
    assert(validation.required_validation_layers.deep_view() =~= seq![VALIDATION_LAYER@]);
    validation
}

/// The device extensions: the one for presenting through a swapchain.
pub fn required_device_extensions() -> (extensions: DeviceExtension)
    ensures
        extensions.names.deep_view() == seq![SWAPCHAIN_EXTENSION@],
{
    let extensions = DeviceExtension { names: [SWAPCHAIN_EXTENSION] };
    assert(extensions.names.deep_view() =~= seq![SWAPCHAIN_EXTENSION@]);
    extensions
}

impl DeviceExtension {
    /// The names as the bindings spell them.
    pub fn get_extensions_raw_names(&self) -> (names: [String; 1])
        ensures
            names[0]@ == khr_swapchain(),
    {
        [swapchain_name()]
    }
}

} // verus!
