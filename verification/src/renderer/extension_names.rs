//! The extension names that the bindings publish.
//!
//! Each function here asks `ash` for one name. Verus takes their contracts on
//! trust: they repeat the byte strings in the bindings' source.

use vstd::prelude::*;

verus! {

/// `VK_KHR_surface`, the surface extension that every platform needs.
pub open spec fn khr_surface() -> Seq<char> {
    "VK_KHR_surface"@
}

/// `VK_KHR_xlib_surface`, the surface extension of X11.
pub open spec fn khr_xlib_surface() -> Seq<char> {
    "VK_KHR_xlib_surface"@
}

/// `VK_KHR_win32_surface`, the surface extension of Windows.
pub open spec fn khr_win32_surface() -> Seq<char> {
    "VK_KHR_win32_surface"@
}

/// `VK_MVK_macos_surface`, the surface extension of macOS.
pub open spec fn mvk_macos_surface() -> Seq<char> {
    "VK_MVK_macos_surface"@
}

/// `VK_KHR_swapchain`, the device extension for presentation.
pub open spec fn khr_swapchain() -> Seq<char> {
    "VK_KHR_swapchain"@
}

/// Calls `ash::extensions::khr::Surface::name`. Trusted: the name it returns
/// is `VK_KHR_surface`.
#[verifier::external_body]
pub(crate) fn surface_name() -> (name: String)
    ensures
        name@ == khr_surface(),
{
    ash::extensions::khr::Surface::name().to_string_lossy().into_owned()
}

/// Calls `ash::extensions::khr::XlibSurface::name`. Trusted: the name it
/// returns is `VK_KHR_xlib_surface`.
#[verifier::external_body]
pub(crate) fn xlib_surface_name() -> (name: String)
    ensures
        name@ == khr_xlib_surface(),
{
    ash::extensions::khr::XlibSurface::name().to_string_lossy().into_owned()
}

/// Calls `ash::extensions::khr::Win32Surface::name`. Trusted: the name it
/// returns is `VK_KHR_win32_surface`.
#[verifier::external_body]
pub(crate) fn win32_surface_name() -> (name: String)
    ensures
        name@ == khr_win32_surface(),
{
    ash::extensions::khr::Win32Surface::name().to_string_lossy().into_owned()
}

/// Calls `ash::extensions::mvk::MacOSSurface::name`. Trusted: the name it
/// returns is `VK_MVK_macos_surface`.
#[verifier::external_body]
pub(crate) fn macos_surface_name() -> (name: String)
    ensures
        name@ == mvk_macos_surface(),
{
    ash::extensions::mvk::MacOSSurface::name().to_string_lossy().into_owned()
}

/// Calls `ash::extensions::khr::Swapchain::name`. Trusted: the name it returns
/// is `VK_KHR_swapchain`.
#[verifier::external_body]
pub(crate) fn swapchain_name() -> (name: String)
    ensures
        name@ == khr_swapchain(),
{
    ash::extensions::khr::Swapchain::name().to_string_lossy().into_owned()
}

} // verus!
