use vk_bootstrap::bootstrap::{advance, Action, BootstrapConfig, Event, Stage};
use vk_bootstrap::device::{ApiVersion, DeviceType, PhysicalDeviceInfo, QueueFamilyInfo};
use vk_bootstrap::error::BootstrapError;
use vk_bootstrap::swapchain::{CompositeAlpha, Extent, SurfaceCapabilities};

fn names(v: &[&str]) -> Vec<String> {
    v.iter().map(|s| s.to_string()).collect()
}

fn config() -> BootstrapConfig {
    BootstrapConfig {
        debug: false,
        instance_extensions: names(&["A", "B"]),
        debug_instance_extensions: names(&["C"]),
        layer_patterns: names(&["LUNARG"]),
        features: names(&["geometry_shader"]),
        device_extensions: names(&["VK_KHR_swapchain"]),
        debug_device_extensions: names(&[]),
        fallback_extent: Extent { width: 800, height: 600 },
    }
}

fn gpu(features: &[&str]) -> PhysicalDeviceInfo {
    PhysicalDeviceInfo {
        name: "gpu".to_string(),
        device_type: DeviceType::IntegratedGpu,
        api_version: ApiVersion { major: 1, minor: 0, patch: 65 },
        driver_version: 7,
        features: names(features),
        extensions: names(&["VK_KHR_swapchain"]),
        queue_families: vec![QueueFamilyInfo {
            id: 0,
            queues_count: 16,
            graphics: true,
            compute: true,
            transfers: true,
            sparse_binding: true,
            presents: Some(true),
        }],
    }
}

fn capabilities() -> SurfaceCapabilities {
    SurfaceCapabilities {
        min_image_count: 2,
        max_image_count: Some(3),
        current_extent: None,
        formats: vec![44, 50],
        composite_alpha: vec![CompositeAlpha::Opaque],
    }
}

fn step(c: &BootstrapConfig, stage: Stage, event: Event) -> (Stage, Action) {
    assert!(stage.accepts(&event));
    advance(c, stage, event)
}

#[test]
fn bring_up_succeeds_end_to_end() {
    let mut c = config();
    c.debug = true;
    let (stage, action) = step(
        &c,
        Stage::Start,
        Event::Platform { extensions: names(&["A", "B"]), layers: names(&[]) },
    );
    assert_eq!(action, Action::CreateInstance);
    match &stage {
        Stage::CreatingInstance { instance } => {
            assert_eq!(instance.extensions.activated, names(&["A", "B"]));
            assert_eq!(instance.extensions.rejected, names(&["C"]));
            assert!(instance.debug_callbacks);
        }
        _ => panic!("expected instance creation"),
    }
    let (stage, action) = step(&c, stage, Event::InstanceCreated { ok: true });
    assert_eq!(action, Action::CreateSurface);
    let (stage, action) = step(&c, stage, Event::SurfaceCreated { ok: true });
    assert_eq!(action, Action::EnumerateDevices);
    let (stage, action) = step(&c, stage, Event::Devices { devices: vec![gpu(&["geometry_shader"])] });
    assert_eq!(action, Action::CreateDevice);
    let (stage, action) = step(&c, stage, Event::DeviceCreated { ok: true });
    assert_eq!(action, Action::QuerySurface);
    let (stage, action) = step(&c, stage, Event::Capabilities { caps: Some(capabilities()) });
    assert_eq!(action, Action::CreateSwapchain);
    let (stage, action) = step(&c, stage, Event::SwapchainCreated { ok: true });
    assert_eq!(action, Action::Finish);
    match stage {
        Stage::Ready { plan, swapchain } => {
            assert_eq!(plan.device, 0);
            assert_eq!(plan.queue_family, 0);
            assert_eq!(swapchain.image_count, 2);
            assert_eq!(swapchain.extent, Extent { width: 800, height: 600 });
            assert_eq!(swapchain.format, 44);
        }
        _ => panic!("expected a ready context"),
    }
}

#[test]
fn bring_up_without_suitable_device_aborts() {
    let c = config();
    let (stage, _) = step(&c, Stage::Start, Event::Platform { extensions: names(&["A", "B"]), layers: names(&[]) });
    let (stage, _) = step(&c, stage, Event::InstanceCreated { ok: true });
    let (stage, _) = step(&c, stage, Event::SurfaceCreated { ok: true });
    let (stage, action) = step(&c, stage, Event::Devices { devices: vec![gpu(&[]), gpu(&["sampler_anisotropy"])] });
    assert_eq!(action, Action::Abort);
    match &stage {
        Stage::Failed { error: BootstrapError::NoSuitableDevice { candidates } } => assert_eq!(*candidates, 2),
        _ => panic!("expected no suitable device"),
    }
    assert!(!stage.accepts(&Event::DeviceCreated { ok: true }));
    assert!(!stage.accepts(&Event::SwapchainCreated { ok: true }));
}

#[test]
fn bring_up_missing_mandatory_extension_aborts() {
    let c = config();
    let (stage, action) = step(&c, Stage::Start, Event::Platform { extensions: names(&["B"]), layers: names(&[]) });
    assert_eq!(action, Action::Abort);
    match stage {
        Stage::Failed { error: BootstrapError::Initialization { missing } } => assert_eq!(missing, names(&["A"])),
        _ => panic!("expected an initialization error"),
    }
}

#[test]
fn refused_device_and_swapchain_are_errors() {
    let c = config();
    let (stage, _) = step(&c, Stage::Start, Event::Platform { extensions: names(&["A", "B"]), layers: names(&[]) });
    let (stage, _) = step(&c, stage, Event::InstanceCreated { ok: true });
    let (stage, _) = step(&c, stage, Event::SurfaceCreated { ok: true });
    let (stage, _) = step(&c, stage, Event::Devices { devices: vec![gpu(&["geometry_shader"])] });
    let (failed, action) = step(&c, stage, Event::DeviceCreated { ok: false });
    assert_eq!(action, Action::Abort);
    assert!(matches!(failed, Stage::Failed { error: BootstrapError::DeviceCreation }));

    let (stage, _) = step(&c, Stage::Start, Event::Platform { extensions: names(&["A", "B"]), layers: names(&[]) });
    let (stage, _) = step(&c, stage, Event::InstanceCreated { ok: true });
    let (stage, _) = step(&c, stage, Event::SurfaceCreated { ok: true });
    let (stage, _) = step(&c, stage, Event::Devices { devices: vec![gpu(&["geometry_shader"])] });
    let (stage, _) = step(&c, stage, Event::DeviceCreated { ok: true });
    let (stage, _) = step(&c, stage, Event::Capabilities { caps: Some(capabilities()) });
    let (failed, action) = step(&c, stage, Event::SwapchainCreated { ok: false });
    assert_eq!(action, Action::Abort);
    assert!(matches!(failed, Stage::Failed { error: BootstrapError::SwapchainCreation }));
}

#[test]
fn refused_instance_is_an_initialization_error() {
    let c = config();
    let (stage, _) = step(&c, Stage::Start, Event::Platform { extensions: names(&["A", "B"]), layers: names(&[]) });
    let (failed, action) = step(&c, stage, Event::InstanceCreated { ok: false });
    assert_eq!(action, Action::Abort);
    match failed {
        Stage::Failed { error: BootstrapError::Initialization { missing } } => assert!(missing.is_empty()),
        _ => panic!("expected an initialization error"),
    }
}

#[test]
fn baseline_configuration() {
    let c = BootstrapConfig::new(true, names(&["VK_KHR_surface", "VK_KHR_xlib_surface"]));
    assert!(c.debug);
    assert_eq!(c.instance_extensions, names(&["VK_KHR_surface", "VK_KHR_xlib_surface"]));
    assert_eq!(c.debug_instance_extensions, names(&["VK_EXT_debug_report"]));
    assert_eq!(c.layer_patterns, names(&["RENDERDOC", "LUNARG"]));
    assert_eq!(c.features, names(&["geometry_shader"]));
    assert_eq!(c.device_extensions, names(&["VK_KHR_swapchain"]));
    assert_eq!(c.debug_device_extensions, names(&["VK_EXT_debug_marker"]));
    assert_eq!(c.fallback_extent, Extent { width: 800, height: 600 });
}
