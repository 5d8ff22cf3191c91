//! Which instance extensions a platform needs to present to a window.

use vstd::prelude::*;
use crate::error::StartupError;
use crate::renderer::extension_names::{
    khr_surface, khr_win32_surface, khr_xlib_surface, macos_surface_name, mvk_macos_surface,
    surface_name, win32_surface_name, xlib_surface_name,
};

verus! {

/// The host system the program is built for.
#[derive(Clone, Copy, Debug, PartialEq, Eq, Structural)]
pub enum Platform {
    /// A Unix with X11: neither macOS nor Android.
    Unix,
    MacOs,
    Windows,
    /// Any other target: no surface extension is known for it.
    Unsupported,
}

impl Platform {
    pub open spec fn supported(self) -> bool {
        self != Platform::Unsupported
    }

    /// The surface extension of this platform's window system.
    pub open spec fn surface_extension(self) -> Seq<char>
        recommends
            self.supported(),
    {
        match self {
            Platform::Unix => khr_xlib_surface(),
            Platform::MacOs => mvk_macos_surface(),
            Platform::Windows => khr_win32_surface(),
            Platform::Unsupported => Seq::empty(),
        }
    }
}

/// `name` is the surface extension of some supported platform.
pub open spec fn is_platform_surface_extension(name: Seq<char>) -> bool {
    exists|platform: Platform| platform.supported() && name == #[trigger] platform.surface_extension()
}

/// The extensions an instance on `platform` is created with: the generic
/// surface extension, then the platform's own.
pub open spec fn instance_extensions(platform: Platform) -> Seq<Seq<char>>
    recommends
        platform.supported(),
{
    seq![khr_surface(), platform.surface_extension()]
}

/// The instance extensions required on `platform`, in the order they are
/// requested. An unsupported platform is an error, never an empty list.
pub fn required_instance_extensions(platform: Platform) -> (result: Result<Vec<String>, StartupError>)
    ensures
        platform.supported() ==> result is Ok && result->Ok_0.deep_view() == instance_extensions(platform),
        platform.supported() ==> result->Ok_0@.len() == 2 && result->Ok_0@[0]@ == khr_surface()
            && result->Ok_0@[1]@ == platform.surface_extension(),
        !platform.supported() ==> result == Err::<Vec<String>, StartupError>(StartupError::UnsupportedPlatform),
{
    let specific = match platform {
        Platform::Unix => xlib_surface_name(),
        Platform::MacOs => macos_surface_name(),
        Platform::Windows => win32_surface_name(),
        Platform::Unsupported => {
            return Err(StartupError::UnsupportedPlatform);
        },
    };
    let mut names: Vec<String> = Vec::new();
    names.push(surface_name());
    names.push(specific);
    assert(names.deep_view() =~= instance_extensions(platform));
    Ok(names)
}

/// The generic surface extension is the surface extension of no platform,
/// and two supported platforms never share theirs.
pub proof fn lemma_surface_extensions_differ(a: Platform, b: Platform)
    requires
        a.supported(),
        b.supported(),
    ensures
        a.surface_extension() != khr_surface(),
        a != b ==> a.surface_extension() != b.surface_extension(),
{
    reveal_strlit("VK_KHR_surface");
    reveal_strlit("VK_KHR_xlib_surface");
    reveal_strlit("VK_KHR_win32_surface");
    reveal_strlit("VK_MVK_macos_surface");
    assert(khr_surface().len() == 14);
    assert(khr_xlib_surface().len() == 19);
    assert(khr_win32_surface().len() == 20);
    assert(mvk_macos_surface().len() == 20);
    assert(khr_win32_surface()[3] == 'K');
    assert(mvk_macos_surface()[3] == 'M');
}

/// On every supported platform the required list is not empty and holds the
/// generic surface extension and the platform's own surface extension; no
/// other entry of it is the surface extension of any platform.
pub proof fn lemma_one_platform_surface_extension(platform: Platform)
    requires
        platform.supported(),
    ensures
        instance_extensions(platform).len() > 0,
        instance_extensions(platform).contains(khr_surface()),
        instance_extensions(platform).contains(platform.surface_extension()),
        forall|i: int|
            0 <= i < instance_extensions(platform).len() && is_platform_surface_extension(
                #[trigger] instance_extensions(platform)[i],
            ) ==> instance_extensions(platform)[i] == platform.surface_extension(),
        forall|i: int, j: int|
            0 <= i < instance_extensions(platform).len() && 0 <= j < instance_extensions(
                platform,
            ).len() && is_platform_surface_extension(#[trigger] instance_extensions(platform)[i])
                && is_platform_surface_extension(#[trigger] instance_extensions(platform)[j]) ==> i
                == j,
{
    let names = instance_extensions(platform);
    assert(names[0] == khr_surface());
    assert(names[1] == platform.surface_extension());
    assert(!is_platform_surface_extension(khr_surface())) by {
        assert forall|other: Platform| other.supported() implies khr_surface()
            != #[trigger] other.surface_extension() by {
            lemma_surface_extensions_differ(other, other);
        }
    }
}

} // verus!
