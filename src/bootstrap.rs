//! Bring-up as an explicit sequence of stages. Each stage holds what the
//! earlier ones decided; each event reports what the outside world did or
//! answered, and the transition says what to do next. The caller performs
//! the action and reports its outcome as the next event.

use vstd::prelude::*;

use crate::device::{device_suitable, first_device, init_device, no_device, no_queue, DevicePlan, PhysicalDeviceInfo};
use crate::error::BootstrapError;
use crate::instance::{plan_instance, InstancePlan};
use crate::layers::allowed_layers;
use crate::names::{covers, rejected_of, views};
use crate::instance::requested_names;
use crate::swapchain::{chosen, init_swapchain, Extent, SurfaceCapabilities, SwapchainDescriptor};

verus! {

/// What bring-up requires and, in debug mode, additionally asks for.
#[derive(Debug)]
pub struct BootstrapConfig {
    /// Gates the layers, the diagnostic callback and the debug-only
    /// extensions.
    pub debug: bool,
    /// Instance extensions that must be supported.
    pub instance_extensions: Vec<String>,
    /// Instance extensions asked for in debug mode, if supported.
    pub debug_instance_extensions: Vec<String>,
    /// A layer is activated in debug mode when its name contains one of these.
    pub layer_patterns: Vec<String>,
    /// Features a physical device must support; they are enabled.
    pub features: Vec<String>,
    /// Device extensions a physical device must support.
    pub device_extensions: Vec<String>,
    /// Device extensions asked for in debug mode, if supported.
    pub debug_device_extensions: Vec<String>,
    /// The swapchain extent when the surface leaves it to the swapchain.
    pub fallback_extent: Extent,
}

impl BootstrapConfig {
    /// The baseline configuration: the window system's instance extensions,
    /// debug reporting and the swapchain extension, the geometry shader
    /// feature, the RenderDoc and LunarG layers, and an 800 by 600 window.
    pub fn new(debug: bool, window_extensions: Vec<String>) -> (r: BootstrapConfig)
        ensures
            r.debug == debug,
            r.instance_extensions == window_extensions,
            views(r.debug_instance_extensions@) == seq!["VK_EXT_debug_report"@],
            views(r.layer_patterns@) == seq!["RENDERDOC"@, "LUNARG"@],
            views(r.features@) == seq!["geometry_shader"@],
            views(r.device_extensions@) == seq!["VK_KHR_swapchain"@],
            views(r.debug_device_extensions@) == seq!["VK_EXT_debug_marker"@],
            r.fallback_extent == (Extent { width: 800, height: 600 }),
    {
        let r = BootstrapConfig {
            debug,
            instance_extensions: window_extensions,
            debug_instance_extensions: vec!["VK_EXT_debug_report".to_owned()],
            layer_patterns: vec!["RENDERDOC".to_owned(), "LUNARG".to_owned()],
            features: vec!["geometry_shader".to_owned()],
            device_extensions: vec!["VK_KHR_swapchain".to_owned()],
            debug_device_extensions: vec!["VK_EXT_debug_marker".to_owned()],
            fallback_extent: Extent { width: 800, height: 600 },
        };
        assert(views(r.debug_instance_extensions@) =~= seq!["VK_EXT_debug_report"@]);
        assert(views(r.layer_patterns@) =~= seq!["RENDERDOC"@, "LUNARG"@]);
        assert(views(r.features@) =~= seq!["geometry_shader"@]);
        assert(views(r.device_extensions@) =~= seq!["VK_KHR_swapchain"@]);
        assert(views(r.debug_device_extensions@) =~= seq!["VK_EXT_debug_marker"@]);
        r
    }
}

/// Where bring-up stands.
#[derive(Debug)]
pub enum Stage {
    /// Waiting for what the platform supports.
    Start,
    /// The API context is being created from `instance`.
    CreatingInstance { instance: InstancePlan },
    /// The window surface is being created.
    CreatingSurface,
    /// The physical devices are being enumerated, with their queue families'
    /// support for presenting to the surface.
    Enumerating,
    /// The logical device and its queue are being created from `plan`.
    CreatingDevice { plan: DevicePlan },
    /// The surface's capabilities for the chosen device are being queried.
    QueryingSurface { plan: DevicePlan },
    /// The swapchain is being created.
    CreatingSwapchain { plan: DevicePlan, swapchain: SwapchainDescriptor },
    /// Bring-up is complete.
    Ready { plan: DevicePlan, swapchain: SwapchainDescriptor },
    /// Bring-up stopped at the step `error` names.
    Failed { error: BootstrapError },
}

/// What the outside world did or answered.
#[derive(Debug)]
pub enum Event {
    /// The supported instance extensions and the available layers.
    Platform { extensions: Vec<String>, layers: Vec<String> },
    InstanceCreated { ok: bool },
    SurfaceCreated { ok: bool },
    /// The physical devices in enumeration order.
    Devices { devices: Vec<PhysicalDeviceInfo> },
    DeviceCreated { ok: bool },
    /// The surface's capabilities, or `None` when the query failed.
    Capabilities { caps: Option<SurfaceCapabilities> },
    SwapchainCreated { ok: bool },
}

/// What to do next. The data it needs is in the new stage.
#[derive(Clone, Copy, Debug, PartialEq, Eq, Structural)]
pub enum Action {
    CreateInstance,
    CreateSurface,
    EnumerateDevices,
    CreateDevice,
    QuerySurface,
    CreateSwapchain,
    Finish,
    Abort,
}

/// Whether `event` is the one `stage` waits for.
pub open spec fn accepts(stage: Stage, event: Event) -> bool {
    match stage {
        Stage::Start => event is Platform,
        Stage::CreatingInstance { .. } => event is InstanceCreated,
        Stage::CreatingSurface => event is SurfaceCreated,
        Stage::Enumerating => event is Devices,
        Stage::CreatingDevice { .. } => event is DeviceCreated,
        Stage::QueryingSurface { .. } => event is Capabilities,
        Stage::CreatingSwapchain { .. } => event is SwapchainCreated,
        Stage::Ready { .. } => false,
        Stage::Failed { .. } => false,
    }
}

/// Bring-up has stopped on `error`.
pub open spec fn failed_with(after: Stage, action: Action, error: BootstrapError) -> bool {
    after == (Stage::Failed { error }) && action == Action::Abort
}

/// The transition from `before` on `event` to `after`, with `action`.
pub open spec fn advanced(c: BootstrapConfig, before: Stage, event: Event, after: Stage, action: Action) -> bool {
    match (before, event) {
        (Stage::Start, Event::Platform { extensions, layers }) => {
            if covers(extensions@, c.instance_extensions@) {
                &&& action == Action::CreateInstance
                &&& after matches Stage::CreatingInstance { instance } && {
                    &&& instance.extensions.is_of(
                        requested_names(c.instance_extensions@, c.debug_instance_extensions@, c.debug),
                        extensions@,
                    )
                    &&& c.debug ==> views(instance.layers@) == allowed_layers(views(layers@), c.layer_patterns@)
                    &&& !c.debug ==> instance.layers@.len() == 0
                    &&& instance.debug_callbacks == c.debug
                }
            } else {
                &&& action == Action::Abort
                &&& after matches Stage::Failed { error: BootstrapError::Initialization { missing } }
                &&& views(missing@) == rejected_of(c.instance_extensions@, extensions@)
            }
        },
        (Stage::CreatingInstance { .. }, Event::InstanceCreated { ok }) => if ok {
            after == Stage::CreatingSurface && action == Action::CreateSurface
        } else {
            &&& action == Action::Abort
            &&& after matches Stage::Failed { error: BootstrapError::Initialization { missing } }
            &&& missing@.len() == 0
        },
        (Stage::CreatingSurface, Event::SurfaceCreated { ok }) => if ok {
            after == Stage::Enumerating && action == Action::EnumerateDevices
        } else {
            &&& action == Action::Abort
            &&& after matches Stage::Failed { error: BootstrapError::Initialization { missing } }
            &&& missing@.len() == 0
        },
        (Stage::Enumerating, Event::Devices { devices }) => {
            ||| {
                &&& action == Action::CreateDevice
                &&& after matches Stage::CreatingDevice { plan } && plan.is_for(
                    devices@,
                    c.features@,
                    c.device_extensions@,
                    c.debug_device_extensions@,
                    c.debug,
                    true,
                )
            }
            ||| {
                &&& action == Action::Abort
                &&& after matches Stage::Failed { error } && error.is_selection_failure(
                    devices@,
                    c.features@,
                    c.device_extensions@,
                    true,
                )
            }
        },
        (Stage::CreatingDevice { plan }, Event::DeviceCreated { ok }) => if ok {
            after == (Stage::QueryingSurface { plan }) && action == Action::QuerySurface
        } else {
            failed_with(after, action, BootstrapError::DeviceCreation)
        },
        (Stage::QueryingSurface { plan }, Event::Capabilities { caps }) => match caps {
            Some(k) => if k.formats@.len() > 0 && k.composite_alpha@.len() > 0 {
                &&& after == (Stage::CreatingSwapchain { plan, swapchain: chosen(k, c.fallback_extent) })
                &&& action == Action::CreateSwapchain
            } else {
                failed_with(after, action, BootstrapError::SwapchainCreation)
            },
            None => failed_with(after, action, BootstrapError::SwapchainCreation),
        },
        (Stage::CreatingSwapchain { plan, swapchain }, Event::SwapchainCreated { ok }) => if ok {
            after == (Stage::Ready { plan, swapchain }) && action == Action::Finish
        } else {
            failed_with(after, action, BootstrapError::SwapchainCreation)
        },
        _ => false,
    }
}

impl Stage {
    /// Whether `event` is the one this stage waits for.
    pub fn accepts(&self, event: &Event) -> (r: bool)
        ensures
            r == accepts(*self, *event),
    {
        match (self, event) {
            (Stage::Start, Event::Platform { .. }) => true,
            (Stage::CreatingInstance { .. }, Event::InstanceCreated { .. }) => true,
            (Stage::CreatingSurface, Event::SurfaceCreated { .. }) => true,
            (Stage::Enumerating, Event::Devices { .. }) => true,
            (Stage::CreatingDevice { .. }, Event::DeviceCreated { .. }) => true,
            (Stage::QueryingSurface { .. }, Event::Capabilities { .. }) => true,
            (Stage::CreatingSwapchain { .. }, Event::SwapchainCreated { .. }) => true,
            _ => false,
        }
    }
}

/// Takes `event` in `stage`: decides the next stage and what to do.
pub fn advance(c: &BootstrapConfig, stage: Stage, event: Event) -> (r: (Stage, Action))
    requires
        accepts(stage, event),
    ensures
        advanced(*c, stage, event, r.0, r.1),
{
    match (stage, event) {
        (Stage::Start, Event::Platform { extensions, layers }) => {
            match plan_instance(
                &c.instance_extensions,
                &c.debug_instance_extensions,
                c.debug,
                &extensions,
                &layers,
                &c.layer_patterns,
            ) {
                Ok(instance) => (Stage::CreatingInstance { instance }, Action::CreateInstance),
                Err(error) => (Stage::Failed { error }, Action::Abort),
            }
        },
        (Stage::CreatingInstance { .. }, Event::InstanceCreated { ok }) => if ok {
            (Stage::CreatingSurface, Action::CreateSurface)
        } else {
            (Stage::Failed { error: BootstrapError::Initialization { missing: Vec::new() } }, Action::Abort)
        },
        (Stage::CreatingSurface, Event::SurfaceCreated { ok }) => if ok {
            (Stage::Enumerating, Action::EnumerateDevices)
        } else {
            (Stage::Failed { error: BootstrapError::Initialization { missing: Vec::new() } }, Action::Abort)
        },
        (Stage::Enumerating, Event::Devices { devices }) => {
            match init_device(
                &devices,
                &c.features,
                &c.device_extensions,
                &c.debug_device_extensions,
                c.debug,
                true,
            ) {
                Ok(plan) => (Stage::CreatingDevice { plan }, Action::CreateDevice),
                Err(error) => (Stage::Failed { error }, Action::Abort),
            }
        },
        (Stage::CreatingDevice { plan }, Event::DeviceCreated { ok }) => if ok {
            (Stage::QueryingSurface { plan }, Action::QuerySurface)
        } else {
            (Stage::Failed { error: BootstrapError::DeviceCreation }, Action::Abort)
        },
        (Stage::QueryingSurface { plan }, Event::Capabilities { caps }) => match caps {
            Some(k) => match init_swapchain(&k, c.fallback_extent) {
                Ok(swapchain) => (Stage::CreatingSwapchain { plan, swapchain }, Action::CreateSwapchain),
                Err(error) => (Stage::Failed { error }, Action::Abort),
            },
            None => (Stage::Failed { error: BootstrapError::SwapchainCreation }, Action::Abort),
        },
        (Stage::CreatingSwapchain { plan, swapchain }, Event::SwapchainCreated { ok }) => if ok {
            (Stage::Ready { plan, swapchain }, Action::Finish)
        } else {
            (Stage::Failed { error: BootstrapError::SwapchainCreation }, Action::Abort)
        },
        (stage, _) => (stage, Action::Abort),
    }
}

} // verus!

verus! {

/// When no enumerated physical device has the required features and
/// extensions, bring-up aborts with `NoSuitableDevice`, counting the
/// candidates, and takes no further event: no device, queue or swapchain is
/// created.
pub proof fn lemma_no_suitable_device_aborts(
    c: BootstrapConfig,
    devices: Vec<PhysicalDeviceInfo>,
    after: Stage,
    action: Action,
)
    requires
        no_device(devices@, c.features@, c.device_extensions@),
        advanced(c, Stage::Enumerating, Event::Devices { devices }, after, action),
    ensures
        action == Action::Abort,
        after == (Stage::Failed { error: BootstrapError::NoSuitableDevice { candidates: devices.len() } }),
        forall|e: Event| !accepts(after, e),
{
    if let Stage::Failed { error: BootstrapError::NoSuitableQueueFamily { .. } } = after {
        let d = choose|d: int| #[trigger] first_device(devices@, c.features@, c.device_extensions@, d)
            && no_queue(devices@[d].queue_families@, true);
        assert(device_suitable(devices@[d], c.features@, c.device_extensions@));
    }
    if let Stage::CreatingDevice { plan } = after {
        assert(device_suitable(devices@[plan.device as int], c.features@, c.device_extensions@));
    }
}

} // verus!
