//! Device selection and the request for a logical device.

use crate::backend::vulkan::names::names;
use crate::backend::vulkan::queue::{
    addressable, check_physical_device, is_first_graphics, is_first_present,
    spec_queue_requests, suitable, QueueFamily, QueueFamilyIndices, QueueRequest,
};
use crate::backend::vulkan::version::{
    compatibility_device_extensions, effective_version, platform_compatibility_extensions,
    spec_effective_version, spec_portability_required, OsFamily,
};
use crate::backend::vulkan::vulkan_error;
use crate::backend::{Error, ErrorKind, ErrorView};
use vstd::prelude::*;
use vstd::string::*;

verus! {

/// A physical device as the host enumerated it: its handle, and its queue
/// families probed against the surface.
#[derive(Debug)]
pub struct PhysicalDevice {
    pub handle: u64,
    pub queue_families: Vec<QueueFamily>,
}

/// Every device's family list is addressable.
pub open spec fn all_addressable(devices: Seq<PhysicalDevice>) -> bool {
    forall|i: int| 0 <= i < devices.len() ==> addressable((#[trigger] devices[i]).queue_families@)
}

/// `i` is the position of the first suitable device in enumeration order.
pub open spec fn is_first_suitable(devices: Seq<PhysicalDevice>, i: int) -> bool {
    &&& 0 <= i < devices.len()
    &&& suitable(devices[i].queue_families@)
    &&& forall|j: int| 0 <= j < i ==> !suitable((#[trigger] devices[j]).queue_families@)
}

/// Some device in the list is suitable.
pub open spec fn any_suitable(devices: Seq<PhysicalDevice>) -> bool {
    exists|i: int| 0 <= i < devices.len() && suitable((#[trigger] devices[i]).queue_families@)
}

/// The error for an empty enumeration.
pub open spec fn no_physical_devices() -> ErrorView {
    vulkan_error(ErrorKind::NoPhysicalDevices, "No physical devices found"@)
}

/// The error for an enumeration without a suitable device.
pub open spec fn no_suitable_device() -> ErrorView {
    vulkan_error(ErrorKind::NoSuitableDevice, "No suitable physical device"@)
}

/// The error that selection over `devices` ends in when it fails.
pub open spec fn selection_error(devices: Seq<PhysicalDevice>) -> ErrorView {
    if devices.len() == 0 {
        no_physical_devices()
    } else {
        no_suitable_device()
    }
}

/// Picks the device to use: the first suitable one in enumeration order.
/// There is no ranking. An unsuitable device is passed over and never fails
/// the selection by itself. Returns the position of the chosen device.
///
/// An empty list fails with `NoPhysicalDevices` before any device is
/// looked at; a list without a suitable device fails with
/// `NoSuitableDevice`.
pub fn pick_physical_device(devices: &Vec<PhysicalDevice>) -> (result: Result<usize, Error>)
    requires
        all_addressable(devices@),
    ensures
        result is Ok <==> any_suitable(devices@),
        result matches Ok(chosen) ==> is_first_suitable(devices@, chosen as int),
        result matches Err(e) ==> e@ == selection_error(devices@),
{
    if devices.len() == 0 {
        return Err(
            Error::new(
                ErrorKind::NoPhysicalDevices,
                String::from_str("No physical devices found"),
            ),
        );
    }
    let mut i: usize = 0;
    while i < devices.len()
        invariant
            i <= devices.len(),
            all_addressable(devices@),
            forall|j: int| 0 <= j < i ==> !suitable((#[trigger] devices@[j]).queue_families@),
        decreases devices.len() - i,
    {
        if check_physical_device(&devices[i].queue_families).is_ok() {
            return Ok(i);
        }
        i += 1;
    }
    Err(Error::new(ErrorKind::NoSuitableDevice, String::from_str("No suitable physical device")))
}

/// The first suitable device is unique: selection has one possible
/// outcome.
pub proof fn lemma_first_suitable_unique(devices: Seq<PhysicalDevice>, a: int, b: int)
    requires
        is_first_suitable(devices, a),
        is_first_suitable(devices, b),
    ensures
        a == b,
{
}

/// A suitable device at `k` means a first suitable one at or before `k`.
pub proof fn lemma_first_suitable_exists(devices: Seq<PhysicalDevice>, k: int) -> (i: int)
    requires
        0 <= k < devices.len(),
        suitable(devices[k].queue_families@),
    ensures
        0 <= i <= k,
        is_first_suitable(devices, i),
    decreases k,
{
    if exists|j: int| 0 <= j < k && suitable((#[trigger] devices[j]).queue_families@) {
        let j = choose|j: int| 0 <= j < k && suitable((#[trigger] devices[j]).queue_families@);
        lemma_first_suitable_exists(devices, j)
    } else {
        k
    }
}

/// An unsuitable device does not end the selection: with an unsuitable
/// device at `skipped` and a suitable one at `usable`, wherever in the
/// list, a device is selected, and it is not the unsuitable one.
pub proof fn lemma_unsuitable_device_is_skipped(
    devices: Seq<PhysicalDevice>,
    skipped: int,
    usable: int,
) -> (chosen: int)
    requires
        0 <= skipped < devices.len(),
        0 <= usable < devices.len(),
        !suitable(devices[skipped].queue_families@),
        suitable(devices[usable].queue_families@),
    ensures
        any_suitable(devices),
        is_first_suitable(devices, chosen),
        chosen != skipped,
        chosen <= usable,
{
    lemma_first_suitable_exists(devices, usable)
}

/// Selection is stable under what follows the chosen device: two lists
/// that agree up to and including the device chosen from the first have
/// the same device chosen from the second, whatever else the second holds.
pub proof fn lemma_selection_ignores_later_devices(
    devices: Seq<PhysicalDevice>,
    others: Seq<PhysicalDevice>,
    chosen: int,
)
    requires
        is_first_suitable(devices, chosen),
        chosen < others.len(),
        forall|j: int|
            0 <= j <= chosen ==> (#[trigger] others[j]).queue_families@
                == devices[j].queue_families@,
    ensures
        is_first_suitable(others, chosen),
{
}

/// Everything the host needs to create the logical device.
#[derive(Debug)]
pub struct DeviceRequest {
    /// Position of the chosen device in the enumerated list.
    pub device_index: usize,
    /// Handle of the chosen device.
    pub physical_device: u64,
    /// The family for each role.
    pub indices: QueueFamilyIndices,
    /// Which queue of its family serves each role: the host fetches it for
    /// both roles once the device exists.
    pub queue_index: u32,
    /// One entry per distinct family.
    pub queues: Vec<QueueRequest>,
    /// Device extensions, in the order they are to be passed. No device
    /// feature is requested beyond the defaults.
    pub extensions: Vec<String>,
}

/// The mathematical content of a [`DeviceRequest`].
pub struct DeviceRequestView {
    pub device_index: int,
    pub physical_device: u64,
    pub indices: QueueFamilyIndices,
    pub queue_index: u32,
    pub queues: Seq<QueueRequest>,
    pub extensions: Seq<Seq<char>>,
}

impl View for DeviceRequest {
    type V = DeviceRequestView;

    open spec fn view(&self) -> DeviceRequestView {
        DeviceRequestView {
            device_index: self.device_index as int,
            physical_device: self.physical_device,
            indices: self.indices,
            queue_index: self.queue_index,
            queues: self.queues@,
            extensions: names(self.extensions@),
        }
    }
}

/// `request` is the one to make for `devices` on the given platform.
pub open spec fn is_device_request(
    request: DeviceRequestView,
    devices: Seq<PhysicalDevice>,
    portability: bool,
) -> bool {
    &&& is_first_suitable(devices, request.device_index)
    &&& request.physical_device == devices[request.device_index].handle
    &&& is_first_graphics(
        devices[request.device_index].queue_families@,
        request.indices.graphics as int,
    )
    &&& is_first_present(
        devices[request.device_index].queue_families@,
        request.indices.present as int,
    )
    &&& request.queue_index == 0
    &&& request.queues == spec_queue_requests(request.indices)
    &&& request.extensions == compatibility_device_extensions(portability)
}

/// Plans the logical device over the enumerated devices.
///
/// Selects the first suitable device, resolves its queue families, asks
/// for one queue of each distinct family, so that queue 0 serves each role,
/// and adds the portability-subset extension where the platform requires
/// it. Fails exactly when selection fails, with the selection's error.
pub fn plan_device(
    os: OsFamily,
    reported_version: Option<u32>,
    devices: &Vec<PhysicalDevice>,
) -> (result: Result<DeviceRequest, Error>)
    requires
        all_addressable(devices@),
    ensures
        result is Ok <==> any_suitable(devices@),
        result matches Ok(request) ==> is_device_request(
            request@,
            devices@,
            spec_portability_required(spec_effective_version(reported_version), os),
        ),
        result matches Err(e) ==> e@ == selection_error(devices@),
{
    let instance_version = effective_version(reported_version);
    let device_index = match pick_physical_device(devices) {
        Ok(chosen) => chosen,
        Err(e) => {
            return Err(e);
        },
    };
    let device = &devices[device_index];
    let indices = QueueFamilyIndices::get(&device.queue_families).unwrap();
    let queues = indices.queue_requests();
    let compatibility = platform_compatibility_extensions(instance_version, os);
    Ok(
        DeviceRequest {
            device_index,
            physical_device: device.handle,
            indices,
            queue_index: 0,
            queues,
            extensions: compatibility.device_extensions,
        },
    )
}

} // verus!
