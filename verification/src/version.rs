//! Packed API versions, as the XR runtime and Vulkan encode them.
//!
//! Session setup has to compare the Vulkan version it targets against the
//! range the XR runtime supports, and hand Vulkan a packed `u32` version.
//! Both packings are fixed bit layouts, so they are computed and compared
//! here with exact contracts.

use vstd::prelude::*;

verus! {

/// An XR runtime version: 16 bits of major, 16 of minor, 32 of patch,
/// packed into a `u64` ordered lexicographically by (major, minor, patch).
#[derive(Clone, Copy, PartialEq, Eq, Structural, Debug)]
pub struct XrVersion {
    pub major: u16,
    pub minor: u16,
    pub patch: u32,
}

impl XrVersion {
    /// The packed value as an integer: major, then minor, then patch,
    /// in disjoint bit ranges.
    pub open spec fn spec_packed(self) -> u64 {
        ((self.major as u64) * 0x1_0000_0000_0000 + (self.minor as u64) * 0x1_0000_0000 + (
        self.patch as u64)) as u64
    }

    pub fn new(major: u16, minor: u16, patch: u32) -> (r: XrVersion)
        ensures
            r == (XrVersion { major, minor, patch }),
    {
        XrVersion { major, minor, patch }
    }

    /// The packed `u64` form used on the wire.
    pub fn packed(&self) -> (r: u64)
        ensures
            r == self.spec_packed(),
    {
        let r: u64 = ((self.major as u64) << 48u64) | ((self.minor as u64) << 32u64)
            | (self.patch as u64);
        proof {
            let ma = self.major as u64;
            let mi = self.minor as u64;
            let pa = self.patch as u64;
            assert(((ma << 48u64) | (mi << 32u64) | pa) == ma * 0x1_0000_0000_0000 + mi
                * 0x1_0000_0000 + pa) by (bit_vector)
                requires
                    ma < 0x1_0000,
                    mi < 0x1_0000,
                    pa < 0x1_0000_0000,
            ;
        }
        r
    }

    /// Packed comparison, the order the runtime's requirements use.
    pub fn lt(&self, other: &XrVersion) -> (r: bool)
        ensures
            r == (self.spec_packed() < other.spec_packed()),
    {
        self.packed() < other.packed()
    }
}

/// Whether the targeted Vulkan version satisfies the runtime's graphics
/// requirements: not below the minimum supported version, and not of a
/// later major line than the maximum supported one. A `false` here is a
/// fatal setup error; there is no degraded fallback.
pub fn graphics_requirements_ok(
    target: &XrVersion,
    min_supported: &XrVersion,
    max_supported: &XrVersion,
) -> (r: bool)
    ensures
        r == !(target.spec_packed() < min_supported.spec_packed() || target.major
            > max_supported.major),
{
    !(target.lt(min_supported) || target.major > max_supported.major)
}

/// A packed Vulkan API version: 3 bits of variant, 7 of major, 10 of
/// minor, 12 of patch. The fields must fit those widths.
pub open spec fn spec_vk_api_version(variant: u32, major: u32, minor: u32, patch: u32) -> u32 {
    ((variant * 0x2000_0000) + (major * 0x40_0000) + (minor * 0x1000) + patch) as u32
}

/// Computes the packed Vulkan API version handed to instance creation.
pub fn vk_api_version(variant: u32, major: u32, minor: u32, patch: u32) -> (r: u32)
    requires
        variant < 8,
        major < 128,
        minor < 1024,
        patch < 4096,
    ensures
        r == spec_vk_api_version(variant, major, minor, patch),
{
    let r: u32 = (variant << 29u32) | (major << 22u32) | (minor << 12u32) | patch;
    proof {
        let v = variant;
        let ma = major;
        let mi = minor;
        let pa = patch;
        assert(((v << 29u32) | (ma << 22u32) | (mi << 12u32) | pa) == ((v * 0x2000_0000) + (ma
            * 0x40_0000) + (mi * 0x1000) + pa) as u32) by (bit_vector)
            requires
                v < 8,
                ma < 128,
                mi < 1024,
                pa < 4096,
        ;
    }
    r
}

} // verus!
