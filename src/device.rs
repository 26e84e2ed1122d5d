use vstd::prelude::*;

use crate::error::Error;
use crate::instance::{contains_name, names_of};
use crate::registry::{lookup, resolves, Handle, HandleRegistry};

verus! {

/// Driver API version 1.0, packed.
pub const API_VERSION_1_0: u32 = 4194304;

/// Driver API version 1.2, packed.
pub const API_VERSION_1_2: u32 = 4202496;

/// A version as major, minor and patch numbers.
#[derive(Clone, Copy, PartialEq, Eq, Structural, Debug)]
pub struct Version {
    pub major: u32,
    pub minor: u32,
    pub patch: u32,
}

/// The version that the packed driver encoding `v` stands for: ten bits of major, ten of
/// minor and twelve of patch, from high to low.
pub open spec fn unpacked(v: u32) -> Version {
    Version {
        major: (v / 4194304) as u32,
        minor: ((v / 4096) % 1024) as u32,
        patch: (v % 4096) as u32,
    }
}

impl Version {
    /// Decodes the driver's packed version encoding.
    pub fn from_packed(v: u32) -> (r: Version)
        ensures
            r == unpacked(v),
    {
        Version { major: v / 4194304, minor: (v / 4096) % 1024, patch: v % 4096 }
    }

    /// Encodes into the driver's packed version encoding.
    pub fn to_packed(&self) -> (r: u32)
        requires
            self.major < 1024,
            self.minor < 1024,
            self.patch < 4096,
        ensures
            r == self.major * 4194304 + self.minor * 4096 + self.patch,
            unpacked(r) == *self,
    {
        let r = self.major * 4194304 + self.minor * 4096 + self.patch;
        assert(r / 4194304 == self.major && (r / 4096) % 1024 == self.minor && r % 4096 == self.patch)
            by (nonlinear_arith)
            requires
                r == self.major * 4194304 + self.minor * 4096 + self.patch,
                self.major < 1024,
                self.minor < 1024,
                self.patch < 4096,
        ;
        r
    }
}

/// One queue family of a physical device.
#[derive(Clone, Copy, PartialEq, Eq, Structural, Debug)]
pub struct QueueFamily {
    pub flags: u32,
    pub queue_count: u32,
    pub timestamp_valid_bits: u32,
}

/// One memory heap of a physical device.
#[derive(Clone, Copy, PartialEq, Eq, Structural, Debug)]
pub struct MemoryHeap {
    pub size: u64,
    pub flags: u32,
}

/// One memory type of a physical device: its property flags and the heap it draws from.
#[derive(Clone, Copy, PartialEq, Eq, Structural, Debug)]
pub struct MemoryType {
    pub property_flags: u32,
    pub heap_index: u32,
}

/// What the driver reports of a physical device: its identity and versions, its optional
/// features (one flag per feature, in the driver's declaration order), its queue families,
/// memory types and heaps, and the names of its layers and extensions.
pub struct PhysicalDeviceProperties {
    pub api_version: u32,
    pub driver_version: u32,
    pub vendor_id: u32,
    pub device_id: u32,
    pub device_type: i32,
    pub device_name: String,
    pub pipeline_cache_uuid: Vec<u8>,
    pub features: Vec<bool>,
    pub queue_families: Vec<QueueFamily>,
    pub memory_types: Vec<MemoryType>,
    pub memory_heaps: Vec<MemoryHeap>,
    pub layer_names: Vec<String>,
    pub extension_names: Vec<String>,
}

/// Immutable capability snapshot of one accelerator, with its raw driver handle and the
/// instance it was enumerated from.
pub struct PhysicalDevice {
    properties: PhysicalDeviceProperties,
    handle: u64,
    parent_instance: Handle,
}

impl PhysicalDevice {
    pub closed spec fn spec_properties(&self) -> PhysicalDeviceProperties {
        self.properties
    }

    pub closed spec fn spec_handle(&self) -> u64 {
        self.handle
    }

    pub closed spec fn spec_parent_instance(&self) -> Handle {
        self.parent_instance
    }

    /// Snapshot of the physical device `handle` of instance `parent_instance`.
    pub fn new(parent_instance: Handle, handle: u64, properties: PhysicalDeviceProperties) -> (r: Self)
        ensures
            r.spec_properties() == properties,
            r.spec_handle() == handle,
            r.spec_parent_instance() == parent_instance,
    {
        PhysicalDevice { properties, handle, parent_instance }
    }

    /// The driver API version the device supports.
    pub fn version(&self) -> (r: Version)
        ensures
            r == unpacked(self.spec_properties().api_version),
    {
        Version::from_packed(self.properties.api_version)
    }

    /// The device's name.
    pub fn name(&self) -> (r: &str)
        ensures
            r@ == self.spec_properties().device_name@,
    {
        self.properties.device_name.as_str()
    }

    pub fn properties(&self) -> (r: &PhysicalDeviceProperties)
        ensures
            *r == self.spec_properties(),
    {
        &self.properties
    }

    pub fn handle(&self) -> (r: u64)
        ensures
            r == self.spec_handle(),
    {
        self.handle
    }

    pub fn parent_instance(&self) -> (r: Handle)
        ensures
            r == self.spec_parent_instance(),
    {
        self.parent_instance
    }
}

/// Every index of `families` names a queue family of `physical_device`.
pub open spec fn families_exist(physical_device: &PhysicalDevice, families: Seq<u32>) -> bool {
    forall|j: int|
        0 <= j < families.len() ==> (#[trigger] families[j]) < physical_device.spec_properties().queue_families@.len()
}

/// Every name of `extensions` is offered by `physical_device`.
pub open spec fn extensions_offered(physical_device: &PhysicalDevice, extensions: Seq<String>) -> bool {
    forall|j: int|
        0 <= j < extensions.len() ==> names_of(
            physical_device.spec_properties().extension_names@,
        ).contains((#[trigger] extensions[j])@)
}

/// Some live device of `devices` was opened against a physical device of `instance`.
pub open spec fn has_child_device<L>(devices: Seq<crate::registry::Slot<(Device, L)>>, instance: Handle) -> bool {
    exists|h: Handle|
        resolves(devices, h) && (#[trigger] lookup(devices, h))->Some_0.0.spec_physical_device().spec_parent_instance()
            == instance
}

/// Whether a live device of `devices` was opened against a physical device of `instance`;
/// such a device must be destroyed before its instance.
pub fn has_child_device_of<L>(devices: &HandleRegistry<(Device, L)>, instance: Handle) -> (r: bool)
    ensures
        r == has_child_device(devices@, instance),
{
    let live = devices.live_handles();
    let mut i: usize = 0;
    while i < live.len()
        invariant
            i <= live@.len(),
            forall|k: int| 0 <= k < live@.len() ==> resolves(devices@, #[trigger] live@[k]),
            forall|h: Handle| resolves(devices@, h) ==> live@.contains(h),
            forall|k: int|
                0 <= k < i ==> (#[trigger] lookup(devices@, live@[k]))->Some_0.0.spec_physical_device().spec_parent_instance()
                    != instance,
        decreases live@.len() - i,
    {
        match devices.get(live[i]) {
            Some(entry) => {
                if entry.0.physical_device.parent_instance == instance {
                    assert(resolves(devices@, live@[i as int]));
                    return true;
                }
            },
            None => {},
        }
        i = i + 1;
    }
    assert(!has_child_device(devices@, instance)) by {
        if has_child_device(devices@, instance) {
            let h = choose|h: Handle|
                resolves(devices@, h) && (#[trigger] lookup(devices@, h))->Some_0.0.spec_physical_device().spec_parent_instance()
                    == instance;
            assert(live@.contains(h));
            let k = choose|k: int| 0 <= k < live@.len() && live@[k] == h;
            assert(lookup(devices@, live@[k]) == lookup(devices@, h));
        }
    }
    false
}

/// An opened logical connection to one physical device. Device-scoped objects hold its
/// registry handle and must be destroyed before it.
pub struct Device {
    physical_device: PhysicalDevice,
    handle: u64,
}

impl Device {
    pub closed spec fn spec_physical_device(&self) -> PhysicalDevice {
        self.physical_device
    }

    pub closed spec fn spec_handle(&self) -> u64 {
        self.handle
    }

    /// Checks a device-open request against `physical_device`: every requested queue family
    /// must exist on it and every requested extension must be offered by it. A missing
    /// queue family is reported first.
    pub fn check_request(
        physical_device: &PhysicalDevice,
        queue_families: &Vec<u32>,
        extensions: &Vec<String>,
    ) -> (r: Result<(), Error>)
        ensures
            match r {
                Ok(()) => families_exist(physical_device, queue_families@) && extensions_offered(
                    physical_device,
                    extensions@,
                ),
                Err(Error::Other { message, source }) => source is None && if !families_exist(
                    physical_device,
                    queue_families@,
                ) {
                    message@ == "unsupported queue family"@
                } else {
                    !extensions_offered(physical_device, extensions@) && message@
                        == "unsupported device extension"@
                },
                Err(Error::Graphics { .. }) => false,
            },
    {
        let family_count = physical_device.properties.queue_families.len();
        let mut i: usize = 0;
        while i < queue_families.len()
            invariant
                i <= queue_families@.len(),
                family_count == physical_device.spec_properties().queue_families@.len(),
                forall|j: int| 0 <= j < i ==> (#[trigger] queue_families@[j]) < family_count,
            decreases queue_families@.len() - i,
        {
            if queue_families[i] as usize >= family_count {
                return Err(Error::other("unsupported queue family"));
            }
            i = i + 1;
        }
        let offered = &physical_device.properties.extension_names;
        let mut k: usize = 0;
        while k < extensions.len()
            invariant
                k <= extensions@.len(),
                families_exist(physical_device, queue_families@),
                offered@ == physical_device.spec_properties().extension_names@,
                forall|j: int| 0 <= j < k ==> names_of(offered@).contains((#[trigger] extensions@[j])@),
            decreases extensions@.len() - k,
        {
            if !contains_name(offered, &extensions[k]) {
                return Err(Error::other("unsupported device extension"));
            }
            k = k + 1;
        }
        Ok(())
    }

    /// The device opened as `handle` against `physical_device`.
    pub fn new(physical_device: PhysicalDevice, handle: u64) -> (r: Self)
        ensures
            r.spec_physical_device() == physical_device,
            r.spec_handle() == handle,
    {
        Device { physical_device, handle }
    }

    pub fn handle(&self) -> (r: u64)
        ensures
            r == self.spec_handle(),
    {
        self.handle
    }

    pub fn physical_device(&self) -> (r: &PhysicalDevice)
        ensures
            *r == self.spec_physical_device(),
    {
        &self.physical_device
    }
}

} // verus!
