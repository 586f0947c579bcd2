use w_gfx::backend::vulkan::device::{plan_device, PhysicalDevice};
use w_gfx::backend::vulkan::flags::QUEUE_GRAPHICS;
use w_gfx::backend::vulkan::pick_physical_device;
use w_gfx::backend::vulkan::queue::{
    check_physical_device, first_graphics_family, first_present_family, QueueFamily,
    QueueFamilyIndices, QueueRequest, SuitabilityError, FULL_PRIORITY_BITS,
};
use w_gfx::backend::vulkan::version::{OsFamily, PORTABILITY_MACOS_VERSION};
use w_gfx::backend::ErrorKind;

const COMPUTE: u32 = 0b10;
const TRANSFER: u32 = 0b100;

fn family(queue_flags: u32, present: bool) -> QueueFamily {
    QueueFamily { queue_flags, surface_support: Ok(present) }
}

fn single(family_index: u32) -> QueueRequest {
    QueueRequest { family_index, queue_count: 1, priority_bits: 1.0_f32.to_bits() }
}

fn device(handle: u64, queue_families: Vec<QueueFamily>) -> PhysicalDevice {
    PhysicalDevice { handle, queue_families }
}

fn unsuitable(handle: u64) -> PhysicalDevice {
    device(handle, vec![family(COMPUTE, true), family(TRANSFER, false)])
}

fn suitable(handle: u64) -> PhysicalDevice {
    device(handle, vec![family(TRANSFER, false), family(QUEUE_GRAPHICS | COMPUTE, true)])
}

#[test]
fn graphics_bit_is_the_one_the_binding_names() {
    assert_eq!(QUEUE_GRAPHICS, ash::vk::QueueFlags::GRAPHICS.as_raw());
    assert!(family(0b1, false).supports_graphics());
    assert!(family(0b1111, false).supports_graphics());
    assert!(!family(0b10, false).supports_graphics());
    assert!(!family(0b1110, false).supports_graphics());
    assert!(!family(0, false).supports_graphics());
}

#[test]
fn failed_support_query_counts_as_unsupported() {
    let failed = QueueFamily { queue_flags: QUEUE_GRAPHICS, surface_support: Err(-2) };
    assert!(!failed.supports_present());
    assert!(family(0, true).supports_present());
    assert!(!family(0, false).supports_present());

    let families = vec![failed];
    assert_eq!(QueueFamilyIndices::get(&families), Err(SuitabilityError::MissingQueueFamilies));
}

#[test]
fn indices_resolve_to_lowest_matching_families() {
    let families = vec![
        family(TRANSFER, false),
        family(QUEUE_GRAPHICS, false),
        family(COMPUTE, true),
        family(QUEUE_GRAPHICS | COMPUTE, true),
    ];
    assert_eq!(first_graphics_family(&families), Some(1));
    assert_eq!(first_present_family(&families), Some(2));
    assert_eq!(
        QueueFamilyIndices::get(&families),
        Ok(QueueFamilyIndices { graphics: 1, present: 2 })
    );
}

#[test]
fn indices_may_coincide() {
    let families = vec![family(TRANSFER, false), family(QUEUE_GRAPHICS, true)];
    assert_eq!(
        QueueFamilyIndices::get(&families),
        Ok(QueueFamilyIndices { graphics: 1, present: 1 })
    );
    let families = vec![family(QUEUE_GRAPHICS, true), family(QUEUE_GRAPHICS, true)];
    assert_eq!(
        QueueFamilyIndices::get(&families),
        Ok(QueueFamilyIndices { graphics: 0, present: 0 })
    );
}

#[test]
fn missing_graphics_family_fails_suitability() {
    let families = vec![family(COMPUTE, true), family(TRANSFER, true)];
    assert_eq!(first_graphics_family(&families), None);
    assert_eq!(QueueFamilyIndices::get(&families), Err(SuitabilityError::MissingQueueFamilies));
    assert_eq!(check_physical_device(&families), Err(SuitabilityError::MissingQueueFamilies));
}

#[test]
fn missing_present_family_fails_suitability() {
    let families = vec![family(QUEUE_GRAPHICS, false), family(COMPUTE, false)];
    assert_eq!(first_present_family(&families), None);
    assert_eq!(QueueFamilyIndices::get(&families), Err(SuitabilityError::MissingQueueFamilies));
    assert_eq!(check_physical_device(&families), Err(SuitabilityError::MissingQueueFamilies));
}

#[test]
fn device_without_families_is_unsuitable() {
    assert_eq!(QueueFamilyIndices::get(&Vec::new()), Err(SuitabilityError::MissingQueueFamilies));
    assert_eq!(check_physical_device(&Vec::new()), Err(SuitabilityError::MissingQueueFamilies));
}

#[test]
fn suitability_error_says_what_is_missing() {
    assert_eq!(SuitabilityError::MissingQueueFamilies.message(), "Missing required queue families");
}

#[test]
fn suitable_device_passes_the_check() {
    assert_eq!(check_physical_device(&suitable(1).queue_families), Ok(()));
}

#[test]
fn full_priority_is_one() {
    assert_eq!(FULL_PRIORITY_BITS, 0x3F80_0000);
    assert_eq!(f32::from_bits(FULL_PRIORITY_BITS), 1.0);
}

#[test]
fn same_family_yields_one_queue_request() {
    let indices = QueueFamilyIndices { graphics: 3, present: 3 };
    assert_eq!(indices.unique_families(), vec![3]);
    assert_eq!(indices.queue_requests(), vec![single(3)]);
}

#[test]
fn different_families_yield_two_queue_requests() {
    let indices = QueueFamilyIndices { graphics: 2, present: 0 };
    assert_eq!(indices.unique_families(), vec![2, 0]);
    assert_eq!(
        indices.queue_requests(),
        vec![
            single(2),
            single(0),
        ]
    );
}

#[test]
fn empty_device_list_fails_with_no_physical_devices() {
    let error = pick_physical_device(&Vec::new()).err().expect("there is nothing to pick");
    assert_eq!(error.kind(), ErrorKind::NoPhysicalDevices);
    assert_eq!(error.to_string(), "Graphics Error (Vulkan): No physical devices found");
}

#[test]
fn no_suitable_device_fails_with_no_suitable_device() {
    let devices = vec![unsuitable(10), device(11, Vec::new()), unsuitable(12)];
    let error = pick_physical_device(&devices).err().expect("no device qualifies");
    assert_eq!(error.kind(), ErrorKind::NoSuitableDevice);
    assert_eq!(error.message(), "No suitable physical device");
    assert_eq!(error.to_string(), "Graphics Error (Vulkan): No suitable physical device");
}

#[test]
fn selection_returns_first_suitable_device() {
    let devices = vec![unsuitable(10), suitable(11), suitable(12)];
    assert_eq!(pick_physical_device(&devices).ok(), Some(1));
}

#[test]
fn selection_does_not_depend_on_later_devices() {
    let devices = vec![unsuitable(10), suitable(11), suitable(12)];
    let shorter = vec![unsuitable(10), suitable(11)];
    let changed = vec![unsuitable(10), suitable(11), unsuitable(12), device(13, Vec::new())];
    assert_eq!(pick_physical_device(&devices).ok(), Some(1));
    assert_eq!(pick_physical_device(&shorter).ok(), Some(1));
    assert_eq!(pick_physical_device(&changed).ok(), Some(1));
}

#[test]
fn unsuitable_device_does_not_abort_selection() {
    let devices = vec![unsuitable(10), unsuitable(11), device(12, Vec::new()), suitable(13)];
    assert_eq!(pick_physical_device(&devices).ok(), Some(3));
}

#[test]
fn selection_takes_the_first_device_when_it_qualifies() {
    let devices = vec![suitable(10), unsuitable(11)];
    assert_eq!(pick_physical_device(&devices).ok(), Some(0));
}

#[test]
fn device_plan_names_device_families_and_queues() {
    let devices = vec![unsuitable(10), suitable(11), suitable(12)];
    let request = plan_device(OsFamily::Other, Some(PORTABILITY_MACOS_VERSION), &devices)
        .expect("a device qualifies");
    assert_eq!(request.device_index, 1);
    assert_eq!(request.physical_device, 11);
    assert_eq!(request.indices, QueueFamilyIndices { graphics: 1, present: 1 });
    assert_eq!(request.queue_index, 0);
    assert_eq!(request.queues, vec![single(1)]);
    assert!(request.extensions.is_empty());
}

#[test]
fn device_plan_with_separate_families() {
    let devices = vec![device(
        7,
        vec![family(COMPUTE, true), family(TRANSFER, false), family(QUEUE_GRAPHICS, false)],
    )];
    let request = plan_device(OsFamily::Other, None, &devices).expect("the device qualifies");
    assert_eq!(request.device_index, 0);
    assert_eq!(request.physical_device, 7);
    assert_eq!(request.indices, QueueFamilyIndices { graphics: 2, present: 0 });
    assert_eq!(request.queue_index, 0);
    assert_eq!(
        request.queues,
        vec![
            single(2),
            single(0),
        ]
    );
}

#[test]
fn device_plan_adds_portability_subset_where_required() {
    let devices = vec![suitable(5)];
    let request = plan_device(OsFamily::MacOs, Some(PORTABILITY_MACOS_VERSION), &devices)
        .expect("the device qualifies");
    assert_eq!(request.extensions, vec!["VK_KHR_portability_subset".to_string()]);

    let request = plan_device(OsFamily::MacOs, Some(PORTABILITY_MACOS_VERSION - 1), &devices)
        .expect("the device qualifies");
    assert!(request.extensions.is_empty());

    let request = plan_device(OsFamily::MacOs, None, &devices).expect("the device qualifies");
    assert!(request.extensions.is_empty());
}

#[test]
fn device_plan_fails_as_selection_fails() {
    let error = plan_device(OsFamily::Other, None, &Vec::new()).err().expect("nothing to plan");
    assert_eq!(error.kind(), ErrorKind::NoPhysicalDevices);
    let error = plan_device(OsFamily::Other, None, &vec![unsuitable(1)])
        .err()
        .expect("nothing to plan");
    assert_eq!(error.kind(), ErrorKind::NoSuitableDevice);
}
