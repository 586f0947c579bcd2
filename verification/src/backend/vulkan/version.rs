//! Packed API versions, and the one platform-specific rule of the bootstrap.

use crate::backend::vulkan::flags::INSTANCE_ENUMERATE_PORTABILITY;
use crate::backend::vulkan::flags::enumerate_portability_flag;
use crate::backend::vulkan::names::{
    names, physical_device_properties2_extension, physical_device_properties2_name,
    portability_enumeration_extension, portability_enumeration_name,
    portability_subset_extension, portability_subset_name,
};
use vstd::prelude::*;

verus! {

/// The packed form of an API version: variant in the top three bits, then
/// seven bits of major, ten of minor and twelve of patch.
pub open spec fn packed_version(variant: u32, major: u32, minor: u32, patch: u32) -> u32 {
    (variant << 29u32) | (major << 22u32) | (minor << 12u32) | patch
}

/// `ash::vk::make_api_version` packs its four arguments by shifting and
/// or-ing them, exactly as `packed_version` does; bits shifted past the top
/// are dropped.
pub assume_specification[ ash::vk::make_api_version ](
    variant: u32,
    major: u32,
    minor: u32,
    patch: u32,
) -> (version: u32)
    ensures
        version == packed_version(variant, major, minor, patch),
;

/// Version 1.0.0, packed: what a loader that cannot report its version has.
pub const API_VERSION_1_0: u32 = 4194304;

/// Version 1.3.216, packed: from here on macOS needs the portability subset.
pub const PORTABILITY_MACOS_VERSION: u32 = 4206808;

/// The operating-system family the host runs on, as far as the bootstrap
/// cares.
#[derive(Clone, Copy, Debug, PartialEq, Eq, Structural)]
pub enum OsFamily {
    MacOs,
    Other,
}

/// The version to plan for, given what the loader reported.
pub open spec fn spec_effective_version(reported: Option<u32>) -> u32 {
    match reported {
        Some(version) => version,
        None => API_VERSION_1_0,
    }
}

/// The version to plan for: the reported one, or 1.0.0 where the loader
/// predates the query.
pub fn effective_version(reported: Option<u32>) -> (version: u32)
    ensures
        version == spec_effective_version(reported),
{
    assert(packed_version(0, 1, 0, 0) == 4194304u32) by (bit_vector);
    match reported {
        Some(version) => version,
        None => ash::vk::make_api_version(0, 1, 0, 0),
    }
}

/// Whether the portability subset has to be requested.
pub open spec fn spec_portability_required(instance_version: u32, os: OsFamily) -> bool {
    os == OsFamily::MacOs && instance_version >= PORTABILITY_MACOS_VERSION
}

/// Whether the portability subset has to be requested: on macOS, from
/// loader version 1.3.216 on.
pub fn portability_required(instance_version: u32, os: OsFamily) -> (required: bool)
    ensures
        required == spec_portability_required(instance_version, os),
{
    assert(packed_version(0, 1, 3, 216) == 4206808u32) by (bit_vector);
    os == OsFamily::MacOs && instance_version >= ash::vk::make_api_version(0, 1, 3, 216)
}

/// What a platform adds to the requests, at both places where it matters.
#[derive(Debug)]
pub struct PlatformCompatibility {
    /// Extensions to add at instance creation.
    pub instance_extensions: Vec<String>,
    /// Extensions to add at device creation.
    pub device_extensions: Vec<String>,
    /// Flags to set at instance creation.
    pub instance_flags: u32,
}

/// The instance extensions that come with `required`.
pub open spec fn compatibility_instance_extensions(required: bool) -> Seq<Seq<char>> {
    if required {
        seq![physical_device_properties2_extension(), portability_enumeration_extension()]
    } else {
        Seq::empty()
    }
}

/// The device extensions that come with `required`.
pub open spec fn compatibility_device_extensions(required: bool) -> Seq<Seq<char>> {
    if required {
        seq![portability_subset_extension()]
    } else {
        Seq::empty()
    }
}

/// The instance flags that come with `required`.
pub open spec fn compatibility_instance_flags(required: bool) -> u32 {
    if required {
        INSTANCE_ENUMERATE_PORTABILITY
    } else {
        0
    }
}

/// The additions for the given loader version and platform: nothing unless
/// the portability subset is required; else two instance extensions, one
/// device extension and the portability-enumeration flag.
pub fn platform_compatibility_extensions(
    instance_version: u32,
    os: OsFamily,
) -> (c: PlatformCompatibility)
    ensures
        names(c.instance_extensions@) == compatibility_instance_extensions(
            spec_portability_required(instance_version, os),
        ),
        names(c.device_extensions@) == compatibility_device_extensions(
            spec_portability_required(instance_version, os),
        ),
        c.instance_flags == compatibility_instance_flags(
            spec_portability_required(instance_version, os),
        ),
{
    let mut instance_extensions: Vec<String> = Vec::new();
    let mut device_extensions: Vec<String> = Vec::new();
    let mut instance_flags: u32 = 0;
    if portability_required(instance_version, os) {
        instance_extensions.push(physical_device_properties2_name());
        instance_extensions.push(portability_enumeration_name());
        device_extensions.push(portability_subset_name());
        instance_flags = enumerate_portability_flag();
    }
    PlatformCompatibility { instance_extensions, device_extensions, instance_flags }
}

} // verus!
