use laios::error::{FailedStep, StartupError};
use laios::renderer::constants::{
    required_device_extensions, validation_config, API_VERSION, APPLICATION_VERSION, ENGINE_NAME,
    ENGINE_VERSION, IS_PAINT_FPS_COUNTER, MAX_FRAMES_IN_FLIGHT, SWAPCHAIN_EXTENSION,
    VALIDATION_ENABLED, VALIDATION_LAYER, WINDOW_HEIGHT, WINDOW_TITLE, WINDOW_WIDTH,
};
use laios::renderer::platforms::{required_instance_extensions, Platform};
use laios::renderer::version::{make_version, Version};

#[test]
fn unix_requires_surface_and_xlib_surface() {
    let names = required_instance_extensions(Platform::Unix).unwrap();
    assert_eq!(names, vec!["VK_KHR_surface".to_string(), "VK_KHR_xlib_surface".to_string()]);
}

#[test]
fn macos_requires_surface_and_macos_surface() {
    let names = required_instance_extensions(Platform::MacOs).unwrap();
    assert_eq!(names, vec!["VK_KHR_surface".to_string(), "VK_MVK_macos_surface".to_string()]);
}

#[test]
fn windows_requires_surface_and_win32_surface() {
    let names = required_instance_extensions(Platform::Windows).unwrap();
    assert_eq!(names, vec!["VK_KHR_surface".to_string(), "VK_KHR_win32_surface".to_string()]);
}

#[test]
fn unsupported_platform_is_an_error() {
    assert_eq!(
        required_instance_extensions(Platform::Unsupported),
        Err(StartupError::UnsupportedPlatform)
    );
}

#[test]
fn every_supported_platform_has_one_platform_surface_extension() {
    let specific = ["VK_KHR_xlib_surface", "VK_MVK_macos_surface", "VK_KHR_win32_surface"];
    for platform in [Platform::Unix, Platform::MacOs, Platform::Windows] {
        let names = required_instance_extensions(platform).unwrap();
        assert!(!names.is_empty());
        assert_eq!(names.iter().filter(|name| name.as_str() == "VK_KHR_surface").count(), 1);
        assert_eq!(names.iter().filter(|name| specific.contains(&name.as_str())).count(), 1);
    }
}

#[test]
fn device_extensions_are_the_swapchain() {
    let extensions = required_device_extensions();
    assert_eq!(extensions.names, ["VK_KHR_swapchain"]);
    assert_eq!(SWAPCHAIN_EXTENSION, "VK_KHR_swapchain");
}

#[test]
fn raw_device_extension_names_come_from_the_bindings() {
    let names = required_device_extensions().get_extensions_raw_names();
    assert_eq!(names, ["VK_KHR_swapchain".to_string()]);
    assert_eq!(
        names[0].as_bytes(),
        ash::extensions::khr::Swapchain::name().to_bytes()
    );
}

#[test]
fn validation_is_on_with_the_standard_layer() {
    let validation = validation_config();
    assert!(validation.is_enable);
    assert!(VALIDATION_ENABLED);
    assert_eq!(validation.required_validation_layers, ["VK_LAYER_LUNARG_standard_validation"]);
    assert_eq!(VALIDATION_LAYER, "VK_LAYER_LUNARG_standard_validation");
}

#[test]
fn window_constants() {
    assert_eq!(WINDOW_TITLE, "Laios");
    assert_eq!(ENGINE_NAME, "Laios Engine");
    assert_eq!(WINDOW_WIDTH, 896);
    assert_eq!(WINDOW_HEIGHT, 504);
    assert_eq!(MAX_FRAMES_IN_FLIGHT, 2);
    assert!(!IS_PAINT_FPS_COUNTER);
}

#[test]
fn make_version_packs_three_parts() {
    assert_eq!(make_version(1, 0, 0), 4194304);
    assert_eq!(make_version(1, 0, 92), 4194396);
    assert_eq!(make_version(0, 1, 0), 4096);
    assert_eq!(make_version(0, 0, 1), 1);
    assert_eq!(make_version(1, 2, 3), (1 << 22) | (2 << 12) | 3);
    assert_eq!(make_version(1023, 1023, 4095), u32::MAX);
}

#[test]
fn version_constants_are_packed_versions() {
    assert_eq!(APPLICATION_VERSION, make_version(1, 0, 0));
    assert_eq!(ENGINE_VERSION, make_version(1, 0, 0));
    assert_eq!(API_VERSION, make_version(1, 0, 92));
    assert_eq!(Version::new(1, 0, 92).pack(), API_VERSION);
}

#[test]
fn version_new_keeps_its_parts() {
    let version = Version::new(1, 2, 3);
    assert_eq!(version, Version { major: 1, minor: 2, patch: 3 });
    assert_eq!(version.pack(), 4202499);
}

#[test]
fn startup_error_messages_name_the_step() {
    assert_eq!(
        StartupError::StartupFailure(FailedStep::WindowCreation).message(),
        "Failed to create window."
    );
    assert_eq!(
        StartupError::StartupFailure(FailedStep::InstanceCreation).message(),
        "Failed to create Vulkan Instance!"
    );
    assert_eq!(StartupError::UnsupportedPlatform.message(), "Unsupported platform.");
}
