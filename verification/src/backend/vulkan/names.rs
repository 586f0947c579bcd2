//! Names of the layers and extensions that the bootstrap asks for.

use vstd::prelude::*;
use vstd::string::*;

verus! {

/// The standard validation layer.
pub const VALIDATION_LAYER_NAME: &'static str = "VK_LAYER_KHRONOS_validation";

/// The instance extension that carries diagnostic messages.
pub open spec fn debug_utils_extension() -> Seq<char> {
    "VK_EXT_debug_utils"@
}

/// The instance extension that portability enumeration depends on.
pub open spec fn physical_device_properties2_extension() -> Seq<char> {
    "VK_KHR_get_physical_device_properties2"@
}

/// The instance extension that lets portability devices be enumerated.
pub open spec fn portability_enumeration_extension() -> Seq<char> {
    "VK_KHR_portability_enumeration"@
}

/// The device extension that a portability device must be created with.
pub open spec fn portability_subset_extension() -> Seq<char> {
    "VK_KHR_portability_subset"@
}

/// The names held by a list, in order.
pub open spec fn names(list: Seq<String>) -> Seq<Seq<char>> {
    Seq::new(list.len(), |i: int| list[i]@)
}

/// The constant `ash::vk::EXT_DEBUG_UTILS_NAME` as a string, without its
/// terminator: it reads `VK_EXT_debug_utils`.
#[verifier::external_body]
pub(crate) fn debug_utils_name() -> (name: String)
    ensures
        name@ == debug_utils_extension(),
{
    ash::vk::EXT_DEBUG_UTILS_NAME.to_string_lossy().into_owned()
}

/// The constant `ash::vk::KHR_GET_PHYSICAL_DEVICE_PROPERTIES2_NAME` as a
/// string, without its terminator: it reads
/// `VK_KHR_get_physical_device_properties2`.
#[verifier::external_body]
pub(crate) fn physical_device_properties2_name() -> (name: String)
    ensures
        name@ == physical_device_properties2_extension(),
{
    ash::vk::KHR_GET_PHYSICAL_DEVICE_PROPERTIES2_NAME.to_string_lossy().into_owned()
}

/// The constant `ash::vk::KHR_PORTABILITY_ENUMERATION_NAME` as a string,
/// without its terminator: it reads `VK_KHR_portability_enumeration`.
#[verifier::external_body]
pub(crate) fn portability_enumeration_name() -> (name: String)
    ensures
        name@ == portability_enumeration_extension(),
{
    ash::vk::KHR_PORTABILITY_ENUMERATION_NAME.to_string_lossy().into_owned()
}

/// The constant `ash::vk::KHR_PORTABILITY_SUBSET_NAME` as a string, without
/// its terminator: it reads `VK_KHR_portability_subset`.
#[verifier::external_body]
pub(crate) fn portability_subset_name() -> (name: String)
    ensures
        name@ == portability_subset_extension(),
{
    ash::vk::KHR_PORTABILITY_SUBSET_NAME.to_string_lossy().into_owned()
}

/// Whether `name` occurs in `list`.
pub fn contains_name(list: &Vec<String>, name: &String) -> (found: bool)
    ensures
        found == names(list@).contains(name@),
{
    let mut i: usize = 0;
    while i < list.len()
        invariant
            i <= list.len(),
            forall|j: int| 0 <= j < i ==> names(list@)[j] != name@,
        decreases list.len() - i,
    {
        if list[i] == *name {
            assert(names(list@)[i as int] == name@);
            return true;
        }
        i += 1;
    }
    false
}

} // verus!
