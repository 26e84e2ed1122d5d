use titan_engine::{
    contains_name, instance_request, keep_enabled, negotiate_version, Device, Error,
    HandleRegistry, Instance, MemoryHeap, MemoryType, PhysicalDevice, PhysicalDeviceProperties, QueueFamily,
    Semaphore, Surface, SurfaceFormat, Version, API_VERSION_1_0, API_VERSION_1_2,
};
use titan_engine::device::has_child_device_of;

fn names(v: &[&str]) -> Vec<String> {
    v.iter().map(|s| s.to_string()).collect()
}

fn properties() -> PhysicalDeviceProperties {
    PhysicalDeviceProperties {
        api_version: API_VERSION_1_2 + 170,
        driver_version: 42,
        vendor_id: 0x10de,
        device_id: 0x2204,
        device_type: 2,
        device_name: "Test GPU".to_string(),
        pipeline_cache_uuid: vec![7; 16],
        features: vec![true, false, true],
        memory_types: vec![MemoryType { property_flags: 1, heap_index: 0 }],
        queue_families: vec![
            QueueFamily { flags: 1, queue_count: 4, timestamp_valid_bits: 64 },
            QueueFamily { flags: 2, queue_count: 1, timestamp_valid_bits: 64 },
            QueueFamily { flags: 4, queue_count: 2, timestamp_valid_bits: 64 },
        ],
        memory_heaps: vec![MemoryHeap { size: 1 << 30, flags: 1 }],
        layer_names: Vec::new(),
        extension_names: names(&["VK_KHR_swapchain"]),
    }
}

#[test]
fn packed_versions_decode() {
    assert_eq!(Version::from_packed(API_VERSION_1_0), Version { major: 1, minor: 0, patch: 0 });
    assert_eq!(Version::from_packed(API_VERSION_1_2 + 170), Version { major: 1, minor: 2, patch: 170 });
    let v = Version { major: 3, minor: 17, patch: 4095 };
    assert_eq!(v.to_packed(), (3 << 22) | (17 << 12) | 4095);
    assert_eq!(Version::from_packed(v.to_packed()), v);
}

#[test]
fn physical_device_reports_name_and_version() {
    let mut instances: HandleRegistry<u8> = HandleRegistry::new();
    let inst = instances.insert(0);
    let pd = PhysicalDevice::new(inst, 0xabc, properties());
    assert_eq!(pd.name(), "Test GPU");
    assert_eq!(pd.version(), Version { major: 1, minor: 2, patch: 170 });
    assert_eq!(pd.handle(), 0xabc);
    assert_eq!(pd.parent_instance(), inst);
    let dev = Device::new(pd, 0xdef);
    assert_eq!(dev.handle(), 0xdef);
    let p = dev.physical_device().properties();
    assert_eq!(p.queue_families.len(), 3);
    assert_eq!((p.vendor_id, p.device_id, p.driver_version, p.device_type), (0x10de, 0x2204, 42, 2));
    assert_eq!(p.features, vec![true, false, true]);
    assert_eq!(p.memory_types, vec![MemoryType { property_flags: 1, heap_index: 0 }]);
    assert_eq!(p.pipeline_cache_uuid, vec![7; 16]);
}

#[test]
fn suitability_needs_a_format_and_a_present_mode() {
    let mut instances: HandleRegistry<u8> = HandleRegistry::new();
    let inst = instances.insert(0);
    let surface = Surface::new(&instances, inst, 5).unwrap();
    let format = SurfaceFormat { format: 44, color_space: 0 };
    assert!(!surface.is_suitable(&Vec::new(), &vec![2]));
    assert!(surface.is_suitable(&vec![format], &vec![2]));
    assert!(!surface.is_suitable(&vec![format], &Vec::new()));
    assert!(!surface.is_suitable(&Vec::new(), &Vec::new()));
}

#[test]
fn surface_of_stale_instance_is_refused() {
    let mut instances: HandleRegistry<u8> = HandleRegistry::new();
    let inst = instances.insert(0);
    instances.remove(inst);
    let newer = instances.insert(1);
    assert_eq!(newer.index, inst.index);
    match Surface::new(&instances, inst, 5) {
        Err(Error::Other { message, source }) => {
            assert_eq!(message, "instance not found");
            assert!(source.is_none());
        }
        _ => panic!("expected instance not found"),
    }
}

#[test]
fn queue_family_support_has_one_pair_per_family() {
    let mut instances: HandleRegistry<u8> = HandleRegistry::new();
    let inst = instances.insert(0);
    let surface = Surface::new(&instances, inst, 5).unwrap();
    assert_eq!(surface.parent_instance(), inst);
    assert_eq!(surface.handle(), 5);
    let pd = PhysicalDevice::new(inst, 1, properties());
    let r = surface.physical_device_queue_family_properties_support(
        &pd,
        &vec![Some(true), None, Some(true)],
    );
    assert_eq!(r, vec![(0, true), (1, false), (2, true)]);
    let short = surface.physical_device_queue_family_properties_support(&pd, &vec![Some(false)]);
    assert_eq!(short, vec![(0, false), (1, false), (2, false)]);
}

#[test]
fn single_unsupported_family_is_reported_false() {
    let mut instances: HandleRegistry<u8> = HandleRegistry::new();
    let inst = instances.insert(0);
    let surface = Surface::new(&instances, inst, 5).unwrap();
    let mut props = properties();
    props.queue_families.truncate(1);
    let pd = PhysicalDevice::new(inst, 1, props);
    assert_eq!(
        surface.physical_device_queue_family_properties_support(&pd, &vec![Some(false)]),
        vec![(0, false)]
    );
}

#[test]
fn semaphore_of_removed_device_is_not_destroyed() {
    let mut devices: HandleRegistry<u32> = HandleRegistry::new();
    let d = devices.insert(1);
    let sem = Semaphore::new(&devices, d, 99).unwrap();
    assert_eq!(sem.handle(), 99);
    assert_eq!(sem.parent_device(), d);
    assert_eq!(sem.destroy_target(&devices), Some(&1));
    devices.remove(d);
    assert_eq!(sem.destroy_target(&devices), None);
    devices.insert(2);
    assert_eq!(sem.destroy_target(&devices), None);
}

#[test]
fn semaphore_on_stale_device_is_refused() {
    let mut devices: HandleRegistry<u32> = HandleRegistry::new();
    let d = devices.insert(1);
    devices.remove(d);
    devices.insert(2);
    match Semaphore::new(&devices, d, 99) {
        Err(Error::Other { message, source }) => {
            assert_eq!(message, "device not found");
            assert!(source.is_none());
        }
        _ => panic!("expected device not found"),
    }
}

#[test]
fn opened_instance_gets_a_fresh_handle() {
    let mut instances: HandleRegistry<(Instance, u32)> = HandleRegistry::new();
    let request = instance_request(None, false, &Vec::new(), names(&["VK_KHR_surface"]));
    let a = Instance::open(&mut instances, &request, Vec::new(), names(&["VK_KHR_surface"]), 1);
    instances.remove(a);
    let b = Instance::open(&mut instances, &request, Vec::new(), names(&["VK_KHR_surface"]), 2);
    assert_ne!(a, b);
    assert!(instances.get(a).is_none());
    let (inst, loader) = instances.get(b).unwrap();
    assert_eq!(*loader, 2);
    assert_eq!(inst.extension_names(), &names(&["VK_KHR_surface"]));
}

#[test]
fn live_device_blocks_instance_teardown() {
    let mut instances: HandleRegistry<u8> = HandleRegistry::new();
    let inst = instances.insert(0);
    let other = instances.insert(1);
    let mut devices: HandleRegistry<(Device, u8)> = HandleRegistry::new();
    assert!(!has_child_device_of(&devices, inst));
    let d = devices.insert((Device::new(PhysicalDevice::new(inst, 1, properties()), 7), 0));
    assert!(has_child_device_of(&devices, inst));
    assert!(!has_child_device_of(&devices, other));
    devices.remove(d);
    assert!(!has_child_device_of(&devices, inst));
}

#[test]
fn version_negotiation_falls_back_to_baseline() {
    assert_eq!(negotiate_version(None), (Version { major: 1, minor: 0, patch: 0 }, API_VERSION_1_0));
    assert_eq!(
        negotiate_version(Some(API_VERSION_1_2 + 3)),
        (Version { major: 1, minor: 2, patch: 3 }, API_VERSION_1_2)
    );
}

#[test]
fn debug_request_adds_validation_and_messenger() {
    let available = names(&["VK_KHR_surface", "VK_EXT_debug_utils"]);
    let r = instance_request(Some(API_VERSION_1_2), true, &available, names(&["VK_KHR_surface", "VK_KHR_xlib_surface"]));
    assert_eq!(r.api_version, API_VERSION_1_2);
    assert_eq!(r.layer_names, names(&["VK_LAYER_KHRONOS_validation"]));
    assert_eq!(r.extension_names, names(&["VK_EXT_debug_utils", "VK_KHR_surface", "VK_KHR_xlib_surface"]));
}

#[test]
fn missing_messenger_extension_is_not_an_error() {
    let available = names(&["VK_KHR_surface"]);
    let r = instance_request(None, true, &available, names(&["VK_KHR_surface"]));
    assert_eq!(r.api_version, API_VERSION_1_0);
    assert_eq!(r.layer_names, names(&["VK_LAYER_KHRONOS_validation"]));
    assert_eq!(r.extension_names, names(&["VK_KHR_surface"]));
}

#[test]
fn release_request_has_no_validation() {
    let available = names(&["VK_EXT_debug_utils"]);
    let r = instance_request(None, false, &available, names(&["VK_KHR_surface"]));
    assert!(r.layer_names.is_empty());
    assert_eq!(r.extension_names, names(&["VK_KHR_surface"]));
}

#[test]
fn instance_records_enabled_intersection() {
    let request = instance_request(None, true, &names(&["VK_EXT_debug_utils"]), names(&["VK_KHR_surface"]));
    let inst = Instance::new(
        &request,
        names(&["VK_LAYER_other", "VK_LAYER_KHRONOS_validation"]),
        names(&["VK_KHR_surface", "VK_KHR_display", "VK_EXT_debug_utils"]),
    );
    assert_eq!(inst.version(), Version { major: 1, minor: 0, patch: 0 });
    assert_eq!(inst.layer_names(), &names(&["VK_LAYER_KHRONOS_validation"]));
    assert_eq!(inst.extension_names(), &names(&["VK_KHR_surface", "VK_EXT_debug_utils"]));
}

#[test]
fn keep_enabled_preserves_available_order() {
    let r = keep_enabled(names(&["c", "a", "b", "a"]), &names(&["a", "c"]));
    assert_eq!(r, names(&["c", "a", "a"]));
    assert!(contains_name(&names(&["x", "y"]), &"y".to_string()));
    assert!(!contains_name(&names(&["x"]), &"z".to_string()));
}

#[test]
fn enumerated_devices_resolve_in_order() {
    let mut instances: HandleRegistry<u8> = HandleRegistry::new();
    let inst = instances.insert(0);
    let mut devices: HandleRegistry<PhysicalDevice> = HandleRegistry::new();
    let hs = Instance::enumerate_physical_devices(
        &mut devices,
        vec![PhysicalDevice::new(inst, 10, properties()), PhysicalDevice::new(inst, 11, properties())],
    );
    assert_eq!(hs.len(), 2);
    assert_ne!(hs[0], hs[1]);
    assert_eq!(devices.get(hs[0]).map(|d| d.handle()), Some(10));
    assert_eq!(devices.get(hs[1]).map(|d| d.handle()), Some(11));
}

#[test]
fn other_error_carries_message() {
    match Error::other("instance not found") {
        Error::Other { message, source } => {
            assert_eq!(message, "instance not found");
            assert!(source.is_none());
        }
        Error::Graphics { .. } => panic!("expected a local error"),
    }
}

#[test]
fn device_request_is_checked_against_physical_device() {
    let mut instances: HandleRegistry<u8> = HandleRegistry::new();
    let pd = PhysicalDevice::new(instances.insert(0), 1, properties());
    assert!(Device::check_request(&pd, &vec![0, 2], &names(&["VK_KHR_swapchain"])).is_ok());
    assert!(Device::check_request(&pd, &Vec::new(), &Vec::new()).is_ok());
    match Device::check_request(&pd, &vec![3], &names(&["VK_KHR_other"])) {
        Err(Error::Other { message, .. }) => assert_eq!(message, "unsupported queue family"),
        _ => panic!("expected an unsupported queue family"),
    }
    match Device::check_request(&pd, &vec![1], &names(&["VK_KHR_other"])) {
        Err(Error::Other { message, .. }) => assert_eq!(message, "unsupported device extension"),
        _ => panic!("expected an unsupported extension"),
    }
}
