//! The flag bits that the bootstrap reads and sets, as raw values.

use vstd::prelude::*;

verus! {

/// Queue capability: graphics operations.
pub const QUEUE_GRAPHICS: u32 = 0x1;

/// Instance creation: also enumerate portability devices.
pub const INSTANCE_ENUMERATE_PORTABILITY: u32 = 0x1;

/// Message severity: verbose.
pub const SEVERITY_VERBOSE: u32 = 0x1;

/// Message severity: informational.
pub const SEVERITY_INFO: u32 = 0x10;

/// Message severity: warning.
pub const SEVERITY_WARNING: u32 = 0x100;

/// Message severity: error.
pub const SEVERITY_ERROR: u32 = 0x1000;

/// Every severity at once.
pub const SEVERITY_ALL: u32 = 0x1111;

/// Message category: general.
pub const MESSAGE_TYPE_GENERAL: u32 = 0x1;

/// Message category: validation.
pub const MESSAGE_TYPE_VALIDATION: u32 = 0x2;

/// Message category: performance.
pub const MESSAGE_TYPE_PERFORMANCE: u32 = 0x4;

/// The general, validation and performance categories at once.
pub const MESSAGE_TYPE_ALL: u32 = 0x7;

/// Whether every bit of `wanted` is set in `flags`.
pub open spec fn has_flags(flags: u32, wanted: u32) -> bool {
    flags & wanted == wanted
}

/// `ash::vk::QueueFlags::contains`, asked of the given raw flags for
/// `QueueFlags::GRAPHICS`: true when the graphics bit, the lowest one, is set.
#[verifier::external_body]
pub(crate) fn includes_graphics(queue_flags: u32) -> (yes: bool)
    ensures
        yes == has_flags(queue_flags, QUEUE_GRAPHICS),
{
    ash::vk::QueueFlags::from_raw(queue_flags).contains(ash::vk::QueueFlags::GRAPHICS)
}

/// The raw value of `ash::vk::InstanceCreateFlags::ENUMERATE_PORTABILITY_KHR`:
/// the lowest bit.
#[verifier::external_body]
pub(crate) fn enumerate_portability_flag() -> (flag: u32)
    ensures
        flag == INSTANCE_ENUMERATE_PORTABILITY,
{
    ash::vk::InstanceCreateFlags::ENUMERATE_PORTABILITY_KHR.as_raw()
}

/// The four message severities, each as its raw bit.
pub(crate) struct SeverityBits {
    pub error: u32,
    pub warning: u32,
    pub info: u32,
    pub verbose: u32,
}

/// The three message categories that the bootstrap listens to, each as its
/// raw bit.
pub(crate) struct MessageTypeBits {
    pub general: u32,
    pub validation: u32,
    pub performance: u32,
}

/// The raw values of the constants `ERROR`, `WARNING`, `INFO` and `VERBOSE`
/// of `ash::vk::DebugUtilsMessageSeverityFlagsEXT`: bits 12, 8, 4 and 0.
#[verifier::external_body]
pub(crate) fn severity_bits() -> (bits: SeverityBits)
    ensures
        bits.error == SEVERITY_ERROR,
        bits.warning == SEVERITY_WARNING,
        bits.info == SEVERITY_INFO,
        bits.verbose == SEVERITY_VERBOSE,
{
    SeverityBits {
        error: ash::vk::DebugUtilsMessageSeverityFlagsEXT::ERROR.as_raw(),
        warning: ash::vk::DebugUtilsMessageSeverityFlagsEXT::WARNING.as_raw(),
        info: ash::vk::DebugUtilsMessageSeverityFlagsEXT::INFO.as_raw(),
        verbose: ash::vk::DebugUtilsMessageSeverityFlagsEXT::VERBOSE.as_raw(),
    }
}

/// The raw values of the constants `GENERAL`, `VALIDATION` and
/// `PERFORMANCE` of `ash::vk::DebugUtilsMessageTypeFlagsEXT`: bits 0, 1
/// and 2.
#[verifier::external_body]
pub(crate) fn message_type_bits() -> (bits: MessageTypeBits)
    ensures
        bits.general == MESSAGE_TYPE_GENERAL,
        bits.validation == MESSAGE_TYPE_VALIDATION,
        bits.performance == MESSAGE_TYPE_PERFORMANCE,
{
    MessageTypeBits {
        general: ash::vk::DebugUtilsMessageTypeFlagsEXT::GENERAL.as_raw(),
        validation: ash::vk::DebugUtilsMessageTypeFlagsEXT::VALIDATION.as_raw(),
        performance: ash::vk::DebugUtilsMessageTypeFlagsEXT::PERFORMANCE.as_raw(),
    }
}

} // verus!
