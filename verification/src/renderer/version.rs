//! Vulkan version numbers: three parts packed into one 32-bit word.

use vstd::prelude::*;

verus! {

/// The word that holds `major` in its top ten bits, `minor` in the next ten
/// and `patch` in the low twelve.
pub open spec fn packed(major: u32, minor: u32, patch: u32) -> u32 {
    (major << 22) | (minor << 12) | patch
}

/// Packs a version as Vulkan does.
pub fn make_version(major: u32, minor: u32, patch: u32) -> (version: u32)
    ensures
        version == packed(major, minor, patch),
{
    (major << 22) | (minor << 12) | patch
}

/// A version in three parts.
#[derive(Clone, Copy, Debug, PartialEq, Eq, Structural)]
pub struct Version {
    pub major: u32,
    pub minor: u32,
    pub patch: u32,
}

impl Version {
    /// Each part fits the bits that the packed word has for it.
    pub open spec fn fits(self) -> bool {
        self.major < 1024 && self.minor < 1024 && self.patch < 4096
    }

    /// The packed word of this version.
    pub open spec fn packed(self) -> u32 {
        packed(self.major, self.minor, self.patch)
    }

    pub fn new(major: u32, minor: u32, patch: u32) -> (version: Version)
        ensures
            version == (Version { major, minor, patch }),
    {
        Version { major, minor, patch }
    }

    /// Packs this version.
    pub fn pack(&self) -> (word: u32)
        ensures
            word == self.packed(),
    {
        make_version(self.major, self.minor, self.patch)
    }
}

/// A version whose parts fit packs to `major * 2^22 + minor * 2^12 + patch`.
pub proof fn lemma_packed_is_positional(version: Version)
    requires
        version.fits(),
    ensures
        version.packed() == version.major * 0x40_0000 + version.minor * 0x1000 + version.patch,
{
    let major = version.major;
    let minor = version.minor;
    let patch = version.patch;
    assert(major < 1024 && minor < 1024 && patch < 4096 ==> ((major << 22) | (minor << 12) | patch)
        == major * 0x40_0000 + minor * 0x1000 + patch) by (bit_vector);
}

/// Two versions whose parts fit pack to the same word only if they are equal.
pub proof fn lemma_packed_is_injective(a: Version, b: Version)
    requires
        a.fits(),
        b.fits(),
        a.packed() == b.packed(),
    ensures
        a == b,
{
    lemma_packed_is_positional(a);
    lemma_packed_is_positional(b);
}

} // verus!
