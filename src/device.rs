//! Choice of the physical device and of its queue family, and the plan for
//! the logical device built from them. Selection is first match in
//! enumeration order.

use vstd::prelude::*;

use crate::error::BootstrapError;
use crate::instance::{requested_list, requested_names};
use crate::names::{covers, covers_all, negotiate, Negotiation};

verus! {

/// The kind of a physical device.
#[derive(Clone, Copy, Debug, PartialEq, Eq, Structural)]
pub enum DeviceType {
    Other,
    IntegratedGpu,
    DiscreteGpu,
    VirtualGpu,
    Cpu,
}

/// A version of the API, as a device reports it.
#[derive(Clone, Copy, Debug, PartialEq, Eq, Structural)]
pub struct ApiVersion {
    pub major: u16,
    pub minor: u16,
    pub patch: u16,
}

/// One queue family of a physical device.
#[derive(Clone, Copy, Debug, PartialEq, Eq, Structural)]
pub struct QueueFamilyInfo {
    pub id: u32,
    pub queues_count: usize,
    pub graphics: bool,
    pub compute: bool,
    pub transfers: bool,
    pub sparse_binding: bool,
    /// Whether the family can present to the surface it was asked about;
    /// `None` when no surface was asked about.
    pub presents: Option<bool>,
}

/// A snapshot of one physical device.
#[derive(Debug)]
pub struct PhysicalDeviceInfo {
    pub name: String,
    pub device_type: DeviceType,
    pub api_version: ApiVersion,
    pub driver_version: u32,
    /// Names of the supported features.
    pub features: Vec<String>,
    /// Names of the supported device extensions.
    pub extensions: Vec<String>,
    /// The queue families, in enumeration order.
    pub queue_families: Vec<QueueFamilyInfo>,
}

/// A device is suitable when it supports every required feature and every
/// required device extension.
pub open spec fn device_suitable(d: PhysicalDeviceInfo, features: Seq<String>, extensions: Seq<String>) -> bool {
    covers(d.features@, features) && covers(d.extensions@, extensions)
}

/// A queue family is suitable when it supports graphics and, once a surface
/// exists, presentation to it.
pub open spec fn queue_suitable(f: QueueFamilyInfo, surface: bool) -> bool {
    f.graphics && (surface ==> f.presents == Some(true))
}

/// `i` is the first suitable device of `devices`.
pub open spec fn first_device(devices: Seq<PhysicalDeviceInfo>, features: Seq<String>, extensions: Seq<String>, i: int) -> bool {
    &&& 0 <= i < devices.len()
    &&& device_suitable(devices[i], features, extensions)
    &&& forall|j: int| 0 <= j < i ==> !device_suitable(#[trigger] devices[j], features, extensions)
}

/// No device of `devices` is suitable.
pub open spec fn no_device(devices: Seq<PhysicalDeviceInfo>, features: Seq<String>, extensions: Seq<String>) -> bool {
    forall|j: int| 0 <= j < devices.len() ==> !device_suitable(#[trigger] devices[j], features, extensions)
}

/// `i` is the first suitable queue family of `families`.
pub open spec fn first_queue(families: Seq<QueueFamilyInfo>, surface: bool, i: int) -> bool {
    &&& 0 <= i < families.len()
    &&& queue_suitable(families[i], surface)
    &&& forall|j: int| 0 <= j < i ==> !queue_suitable(#[trigger] families[j], surface)
}

/// No queue family of `families` is suitable.
pub open spec fn no_queue(families: Seq<QueueFamilyInfo>, surface: bool) -> bool {
    forall|j: int| 0 <= j < families.len() ==> !queue_suitable(#[trigger] families[j], surface)
}

/// Whether `d` has the required features and device extensions.
pub fn is_device_suitable(d: &PhysicalDeviceInfo, features: &Vec<String>, extensions: &Vec<String>) -> (r: bool)
    ensures
        r == device_suitable(*d, features@, extensions@),
{
    covers_all(&d.features, features) && covers_all(&d.extensions, extensions)
}

/// Whether `f` supports graphics and, when `surface` is set, presentation.
pub fn is_queue_suitable(f: &QueueFamilyInfo, surface: bool) -> (r: bool)
    ensures
        r == queue_suitable(*f, surface),
{
    f.graphics && (!surface || f.presents == Some(true))
}

/// The index of the first suitable device, in enumeration order.
pub fn select_physical_device(
    devices: &Vec<PhysicalDeviceInfo>,
    features: &Vec<String>,
    extensions: &Vec<String>,
) -> (r: Result<usize, BootstrapError>)
    ensures
        r matches Ok(i) ==> first_device(devices@, features@, extensions@, i as int),
        r is Err <==> no_device(devices@, features@, extensions@),
        r matches Err(e) ==> (e == (BootstrapError::NoSuitableDevice { candidates: devices.len() })),
{
    let mut i: usize = 0;
    while i < devices.len()
        invariant
            i <= devices@.len(),
            forall|j: int| 0 <= j < i ==> !device_suitable(#[trigger] devices@[j], features@, extensions@),
        decreases devices.len() - i,
    {
        if is_device_suitable(&devices[i], features, extensions) {
            return Ok(i);
        }
        i = i + 1;
    }
    Err(BootstrapError::NoSuitableDevice { candidates: devices.len() })
}

/// The index of the first suitable queue family, in enumeration order.
pub fn select_queue_family(families: &Vec<QueueFamilyInfo>, surface: bool) -> (r: Result<usize, BootstrapError>)
    ensures
        r matches Ok(i) ==> first_queue(families@, surface, i as int),
        r is Err <==> no_queue(families@, surface),
        r matches Err(e) ==> (e == (BootstrapError::NoSuitableQueueFamily { candidates: families.len() })),
{
    let mut i: usize = 0;
    while i < families.len()
        invariant
            i <= families@.len(),
            forall|j: int| 0 <= j < i ==> !queue_suitable(#[trigger] families@[j], surface),
        decreases families.len() - i,
    {
        if is_queue_suitable(&families[i], surface) {
            return Ok(i);
        }
        i = i + 1;
    }
    Err(BootstrapError::NoSuitableQueueFamily { candidates: families.len() })
}

/// Negotiates the device extensions to enable: the required ones, followed
/// in debug mode by the debug-only ones, against what the device supports.
pub fn init_vulkan_device_extensions(
    required: &Vec<String>,
    debug_only: &Vec<String>,
    debug: bool,
    supported: &Vec<String>,
) -> (r: Negotiation)
    ensures
        r.is_of(requested_names(required@, debug_only@, debug), supported@),
{
    let requested = requested_list(required, debug_only, debug);
    negotiate(&requested, supported)
}

/// What to create the logical device with.
#[derive(Debug)]
pub struct DevicePlan {
    /// Index of the chosen physical device.
    pub device: usize,
    /// Index of the chosen queue family of that device.
    pub queue_family: usize,
    /// The device extensions split by support; the activated ones are
    /// enabled.
    pub extensions: Negotiation,
    /// The features to enable.
    pub features: Vec<String>,
}

impl DevicePlan {
    /// This plan is the one chosen from `devices` under the given
    /// requirements.
    pub open spec fn is_for(
        &self,
        devices: Seq<PhysicalDeviceInfo>,
        features: Seq<String>,
        extensions: Seq<String>,
        debug_extensions: Seq<String>,
        debug: bool,
        surface: bool,
    ) -> bool {
        &&& first_device(devices, features, extensions, self.device as int)
        &&& first_queue(devices[self.device as int].queue_families@, surface, self.queue_family as int)
        &&& self.extensions.is_of(
            requested_names(extensions, debug_extensions, debug),
            devices[self.device as int].extensions@,
        )
        &&& self.features@ == features
    }
}

impl BootstrapError {
    /// This error is the one that device and queue selection owe: no
    /// suitable device, or none of the first suitable device's queue
    /// families is suitable.
    pub open spec fn is_selection_failure(
        self,
        devices: Seq<PhysicalDeviceInfo>,
        features: Seq<String>,
        extensions: Seq<String>,
        surface: bool,
    ) -> bool {
        match self {
            BootstrapError::NoSuitableDevice { candidates } => {
                &&& no_device(devices, features, extensions)
                &&& candidates == devices.len()
            },
            BootstrapError::NoSuitableQueueFamily { candidates } => exists|d: int| {
                &&& #[trigger] first_device(devices, features, extensions, d)
                &&& no_queue(devices[d].queue_families@, surface)
                &&& candidates == devices[d].queue_families@.len()
            },
            _ => false,
        }
    }
}

/// Chooses the physical device, then its queue family, and plans the
/// logical device: the required features are enabled, with the negotiated
/// extensions.
pub fn init_device(
    devices: &Vec<PhysicalDeviceInfo>,
    features: &Vec<String>,
    extensions: &Vec<String>,
    debug_extensions: &Vec<String>,
    debug: bool,
    surface: bool,
) -> (r: Result<DevicePlan, BootstrapError>)
    ensures
        r matches Ok(p) ==> p.is_for(devices@, features@, extensions@, debug_extensions@, debug, surface),
        r is Err && no_device(devices@, features@, extensions@) <==> r matches Err(BootstrapError::NoSuitableDevice { .. }),
        r matches Err(e) ==> e.is_selection_failure(devices@, features@, extensions@, surface),
{
    let device = match select_physical_device(devices, features, extensions) {
        Ok(i) => i,
        Err(e) => return Err(e),
    };
    let chosen = &devices[device];
    let queue_family = match select_queue_family(&chosen.queue_families, surface) {
        Ok(i) => i,
        Err(e) => {
            assert(first_device(devices@, features@, extensions@, device as int));
            return Err(e);
        },
    };
    let negotiated = init_vulkan_device_extensions(extensions, debug_extensions, debug, &chosen.extensions);
    let mut enabled: Vec<String> = Vec::new();
    let mut i: usize = 0;
    while i < features.len()
        invariant
            i <= features@.len(),
            enabled@ == features@.take(i as int),
        decreases features.len() - i,
    {
        enabled.push(features[i].clone());
        assert(enabled@ =~= features@.take(i + 1));
        i = i + 1;
    }
    assert(features@.take(features@.len() as int) =~= features@);
    Ok(DevicePlan { device, queue_family, extensions: negotiated, features: enabled })
}

} // verus!

verus! {

/// With a surface, the chosen queue family supports graphics and presents to
/// that surface; no family is chosen when none presents to it; and the
/// family chosen without a surface never comes after the one chosen with it.
pub proof fn lemma_surface_queue_choice(families: Seq<QueueFamilyInfo>, with: int, without: int)
    ensures
        first_queue(families, true, with) ==> queue_suitable(families[with], false)
            && families[with].presents == Some(true),
        (forall|j: int| 0 <= j < families.len() ==> (#[trigger] families[j]).presents != Some(true))
            ==> no_queue(families, true),
        first_queue(families, true, with) && first_queue(families, false, without) ==> without <= with,
{
    if first_queue(families, true, with) && first_queue(families, false, without) && with < without {
        assert(queue_suitable(families[with], false));
    }
}

} // verus!
