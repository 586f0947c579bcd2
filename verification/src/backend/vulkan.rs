//! The Vulkan backend: what to ask of the native layer, and in which order.
//!
//! The host drives the bootstrap and the library decides each step:
//!
//! 1. The host queries the loader and the window system and calls
//!    [`create_instance`], which negotiates extensions and layers. The host
//!    creates the instance (and the debug messenger, if one was asked for)
//!    from the request and wraps the handles in a [`Vulkan`] context.
//! 2. [`Vulkan::begin_surface`] grants leave to bind a surface;
//!    [`Vulkan::create_surface`] records the outcome.
//! 3. [`Vulkan::begin_device`] grants leave to create the logical device.
//!    The host probes the physical devices and calls [`device::plan_device`],
//!    which selects one and plans its queues; [`Vulkan::create_device`]
//!    records the outcome.
//! 4. [`Vulkan::destroy`] says what to destroy, in order. The host calls it
//!    once it is done, however far the bootstrap got.
//!
//! Handles cross the boundary as raw 64-bit values, flags as raw 32-bit
//! values, native result codes as `i32`, and names as strings.

use crate::backend::{Error, ErrorKind, ErrorView};
use vstd::prelude::*;

pub use crate::backend::vulkan::context::Vulkan;
pub use crate::backend::vulkan::device::pick_physical_device;
pub use crate::backend::vulkan::instance::create_instance;

pub mod context;
pub mod device;
pub mod diagnostics;
pub mod flags;
pub mod instance;
pub mod names;
pub mod queue;
pub mod version;

verus! {

/// The content of an error raised by this backend.
pub open spec fn vulkan_error(kind: ErrorKind, msg: Seq<char>) -> ErrorView {
    ErrorView { backend: "Vulkan"@, kind, msg }
}

/// What `ash` prints for a native result code: a sentence for the codes of
/// the core API, the code's name or number for the others.
pub uninterp spec fn result_text(code: i32) -> Seq<char>;

/// `Display` of `ash::vk::Result`, applied to the result with the given raw
/// code. The text depends on the code alone.
#[verifier::external_body]
fn describe_result(code: i32) -> (text: String)
    ensures
        text@ == result_text(code),
{
    ash::vk::Result::from_raw(code).to_string()
}

impl Error {
    /// An error of the Vulkan backend.
    pub fn new(kind: ErrorKind, msg: String) -> (e: Error)
        ensures
            e@ == vulkan_error(kind, msg@),
    {
        Error::with_backend("Vulkan", kind, msg)
    }

    /// The native layer failed while the instance was being set up.
    pub fn instance_creation_failed(code: i32) -> (e: Error)
        ensures
            e@ == vulkan_error(ErrorKind::InstanceCreationFailed(code), result_text(code)),
    {
        Error::new(ErrorKind::InstanceCreationFailed(code), describe_result(code))
    }

    /// The native layer failed to bind the window.
    pub fn surface_creation_failed(code: i32) -> (e: Error)
        ensures
            e@ == vulkan_error(ErrorKind::SurfaceCreationFailed, result_text(code)),
    {
        Error::new(ErrorKind::SurfaceCreationFailed, describe_result(code))
    }

    /// The native layer failed while the logical device was being set up.
    pub fn device_creation_failed(code: i32) -> (e: Error)
        ensures
            e@ == vulkan_error(ErrorKind::DeviceCreationFailed(code), result_text(code)),
    {
        Error::new(ErrorKind::DeviceCreationFailed(code), describe_result(code))
    }
}

} // verus!
