use vstd::prelude::*;

use crate::device::{unpacked, PhysicalDevice, Version, API_VERSION_1_0, API_VERSION_1_2};
use crate::registry::{inserted, lookup, resolves, retired, Handle, HandleRegistry};

verus! {

/// Name of the optional validation layer enabled in debug builds.
pub open spec fn validation_layer() -> Seq<char> {
    "VK_LAYER_KHRONOS_validation"@
}

/// Name of the optional debug-messenger extension enabled in debug builds.
pub open spec fn debug_utils_extension() -> Seq<char> {
    "VK_EXT_debug_utils"@
}

pub open spec fn names_of(v: Seq<String>) -> Seq<Seq<char>> {
    v.map_values(|s: String| s@)
}

/// The entries of `available` that `enabled` names, in the order of `available`.
pub open spec fn kept(available: Seq<Seq<char>>, enabled: Seq<Seq<char>>) -> Seq<Seq<char>>
    decreases available.len(),
{
    if available.len() == 0 {
        Seq::empty()
    } else {
        let prev = kept(available.drop_last(), enabled);
        if enabled.contains(available.last()) {
            prev.push(available.last())
        } else {
            prev
        }
    }
}

/// The version an instance reports, and the API version it asks for: the driver's own
/// version and 1.2 when the driver can report one, else 1.0 for both.
pub open spec fn negotiated(reported: Option<u32>) -> (Version, u32) {
    match reported {
        Some(v) => (unpacked(v), API_VERSION_1_2),
        None => (unpacked(API_VERSION_1_0), API_VERSION_1_0),
    }
}

/// What to ask the driver for when opening an instance.
pub struct InstanceRequest {
    pub version: Version,
    pub api_version: u32,
    pub layer_names: Vec<String>,
    pub extension_names: Vec<String>,
}

/// An opened driver instance: its version and the layers and extensions it has enabled.
pub struct Instance {
    version: Version,
    layer_names: Vec<String>,
    extension_names: Vec<String>,
}

/// Whether `names` holds `name`.
pub fn contains_name(names: &Vec<String>, name: &String) -> (r: bool)
    ensures
        r == names_of(names@).contains(name@),
{
    let mut i: usize = 0;
    while i < names.len()
        invariant
            i <= names@.len(),
            forall|j: int| 0 <= j < i ==> names@[j]@ != name@,
        decreases names@.len() - i,
    {
        if names[i] == *name {
            assert(names_of(names@)[i as int] == name@);
            return true;
        }
        i = i + 1;
    }
    assert(!names_of(names@).contains(name@)) by {
        if names_of(names@).contains(name@) {
            let j = choose|j: int| 0 <= j < names_of(names@).len() && names_of(names@)[j] == name@;
            assert(names@[j]@ == name@);
        }
    }
    false
}

/// The version to report and the API version to request, from what the driver reports
/// (`None` when it cannot report a version).
pub fn negotiate_version(reported: Option<u32>) -> (r: (Version, u32))
    ensures
        r == negotiated(reported),
{
    match reported {
        Some(v) => (Version::from_packed(v), API_VERSION_1_2),
        None => (Version::from_packed(API_VERSION_1_0), API_VERSION_1_0),
    }
}

/// What to request when opening an instance: the negotiated versions; the validation layer
/// when `validation` is on; the debug-messenger extension when `validation` is on and the
/// driver offers it; then the extensions the window surface requires.
pub fn instance_request(
    reported_version: Option<u32>,
    validation: bool,
    available_extensions: &Vec<String>,
    surface_extensions: Vec<String>,
) -> (r: InstanceRequest)
    ensures
        (r.version, r.api_version) == negotiated(reported_version),
        names_of(r.layer_names@) == if validation {
            seq![validation_layer()]
        } else {
            Seq::<Seq<char>>::empty()
        },
        names_of(r.extension_names@) == (if validation && names_of(available_extensions@).contains(
            debug_utils_extension(),
        ) {
            seq![debug_utils_extension()]
        } else {
            Seq::<Seq<char>>::empty()
        }) + names_of(surface_extensions@),
{
    let (version, api_version) = negotiate_version(reported_version);
    let mut layer_names: Vec<String> = Vec::new();
    let mut extension_names: Vec<String> = Vec::new();
    if validation {
        layer_names.push("VK_LAYER_KHRONOS_validation".to_owned());
        let debug_utils = "VK_EXT_debug_utils".to_owned();
        if contains_name(available_extensions, &debug_utils) {
            extension_names.push(debug_utils);
        }
    }
    let ghost head = extension_names@;
    let ghost surface = surface_extensions@;
    let mut surface_extensions = surface_extensions;
    extension_names.append(&mut surface_extensions);
    assert(names_of(layer_names@) =~= (if validation {
        seq![validation_layer()]
    } else {
        Seq::<Seq<char>>::empty()
    }));
    assert(names_of(extension_names@) =~= names_of(head) + names_of(surface));
    InstanceRequest { version, api_version, layer_names, extension_names }
}

/// The entries of `available` that `enabled` names, in the order of `available`.
pub fn keep_enabled(available: Vec<String>, enabled: &Vec<String>) -> (r: Vec<String>)
    ensures
        names_of(r@) == kept(names_of(available@), names_of(enabled@)),
{
    let ghost orig = available@;
    let mut rest = available;
    let mut r: Vec<String> = Vec::new();
    let ghost mut k: int = 0;
    while rest.len() > 0
        invariant
            0 <= k <= orig.len(),
            rest@ == orig.subrange(k, orig.len() as int),
            names_of(r@) == kept(names_of(orig.take(k)), names_of(enabled@)),
        decreases rest@.len(),
    {
        let name = rest.remove(0);
        assert(names_of(orig.take(k + 1)).drop_last() =~= names_of(orig.take(k)));
        assert(names_of(orig.take(k + 1)).last() == name@);
        if contains_name(enabled, &name) {
            r.push(name);
            assert(names_of(r@) =~= names_of(r@.drop_last()).push(r@.last()@));
        }
        proof {
            k = k + 1;
        }
    }
    assert(orig.take(k) =~= orig);
    r
}

impl Instance {
    pub closed spec fn spec_version(&self) -> Version {
        self.version
    }

    pub closed spec fn spec_layer_names(&self) -> Seq<Seq<char>> {
        names_of(self.layer_names@)
    }

    pub closed spec fn spec_extension_names(&self) -> Seq<Seq<char>> {
        names_of(self.extension_names@)
    }

    /// The instance opened from `request`: it records the layers and extensions that the
    /// driver offered and the request named.
    pub fn new(
        request: &InstanceRequest,
        available_layers: Vec<String>,
        available_extensions: Vec<String>,
    ) -> (r: Self)
        ensures
            r.spec_version() == request.version,
            r.spec_layer_names() == kept(names_of(available_layers@), names_of(request.layer_names@)),
            r.spec_extension_names() == kept(
                names_of(available_extensions@),
                names_of(request.extension_names@),
            ),
    {
        let layer_names = keep_enabled(available_layers, &request.layer_names);
        let extension_names = keep_enabled(available_extensions, &request.extension_names);
        Instance { version: request.version, layer_names, extension_names }
    }

    /// Opens the instance described by `request` (see [`Instance::new`]) with the driver
    /// connection `loader`, stores both in `registry` and returns the fresh handle.
    pub fn open<L>(
        registry: &mut HandleRegistry<(Instance, L)>,
        request: &InstanceRequest,
        available_layers: Vec<String>,
        available_extensions: Vec<String>,
        loader: L,
    ) -> (h: Handle)
        requires
            old(registry)@.len() < usize::MAX,
        ensures
            match lookup(final(registry)@, h) {
                Some(entry) => {
                    &&& inserted(old(registry)@, final(registry)@, entry, h)
                    &&& !resolves(old(registry)@, h)
                    &&& forall|g: Handle| retired(old(registry)@, g) ==> g != h
                    &&& entry.1 == loader
                    &&& entry.0.spec_version() == request.version
                    &&& entry.0.spec_layer_names() == kept(
                        names_of(available_layers@),
                        names_of(request.layer_names@),
                    )
                    &&& entry.0.spec_extension_names() == kept(
                        names_of(available_extensions@),
                        names_of(request.extension_names@),
                    )
                },
                None => false,
            },
    {
        let instance = Instance::new(request, available_layers, available_extensions);
        let ghost entry = (instance, loader);
        let ghost pre = registry@;
        let h = registry.insert((instance, loader));
        proof {
            crate::registry::lemma_insert_effect(pre, registry@, entry, h, h);
            assert forall|g: Handle| retired(pre, g) implies g != h by {
                crate::registry::lemma_insert_effect(pre, registry@, entry, h, g);
            }
        }
        h
    }

    pub fn version(&self) -> (r: Version)
        ensures
            r == self.spec_version(),
    {
        self.version
    }

    pub fn layer_names(&self) -> (r: &Vec<String>)
        ensures
            names_of(r@) == self.spec_layer_names(),
    {
        &self.layer_names
    }

    pub fn extension_names(&self) -> (r: &Vec<String>)
        ensures
            names_of(r@) == self.spec_extension_names(),
    {
        &self.extension_names
    }

    /// Stores the snapshots of the instance's physical devices in `registry` and returns
    /// their handles, in the driver's enumeration order.
    pub fn enumerate_physical_devices(
        registry: &mut HandleRegistry<PhysicalDevice>,
        devices: Vec<PhysicalDevice>,
    ) -> (r: Vec<Handle>)
        requires
            old(registry)@.len() + devices@.len() < usize::MAX,
        ensures
            r@.len() == devices@.len(),
            forall|i: int| 0 <= i < r@.len() ==> lookup(final(registry)@, #[trigger] r@[i]) == Some(devices@[i]),
            forall|i: int| 0 <= i < r@.len() ==> !resolves(old(registry)@, #[trigger] r@[i]),
            forall|i: int, j: int| 0 <= i < j < r@.len() ==> r@[i] != r@[j],
            forall|h: Handle| resolves(old(registry)@, h) ==> lookup(final(registry)@, h) == lookup(old(registry)@, h),
    {
        registry.insert_all(devices)
    }
}

} // verus!
