use vk_bootstrap::instance::{init_vulkan_instance_extensions, plan_instance, requested_list};
use vk_bootstrap::layers::{find_text, init_vulkan_layers, is_layer_allowed};
use vk_bootstrap::names::{contains_name, covers_all, negotiate};
use vk_bootstrap::error::BootstrapError;

fn names(v: &[&str]) -> Vec<String> {
    v.iter().map(|s| s.to_string()).collect()
}

#[test]
fn negotiation_splits_requested_by_support() {
    let n = negotiate(&names(&["A", "B", "C"]), &names(&["B", "D", "A"]));
    assert_eq!(n.activated, names(&["A", "B"]));
    assert_eq!(n.rejected, names(&["C"]));
}

#[test]
fn negotiation_of_empty_request_is_empty() {
    let n = negotiate(&names(&[]), &names(&["A"]));
    assert!(n.activated.is_empty());
    assert!(n.rejected.is_empty());
}

#[test]
fn negotiation_against_nothing_rejects_all() {
    let n = negotiate(&names(&["X", "Y"]), &names(&[]));
    assert!(n.activated.is_empty());
    assert_eq!(n.rejected, names(&["X", "Y"]));
}

#[test]
fn negotiation_applies_to_layers_as_well() {
    let n = negotiate(
        &names(&["VK_LAYER_LUNARG_standard_validation", "VK_LAYER_missing"]),
        &names(&["VK_LAYER_LUNARG_standard_validation"]),
    );
    assert_eq!(n.activated, names(&["VK_LAYER_LUNARG_standard_validation"]));
    assert_eq!(n.rejected, names(&["VK_LAYER_missing"]));
}

#[test]
fn name_lookup_and_cover() {
    let v = names(&["a", "bc"]);
    assert!(contains_name(&v, &"bc".to_string()));
    assert!(!contains_name(&v, &"b".to_string()));
    assert!(covers_all(&v, &names(&["bc", "a"])));
    assert!(!covers_all(&v, &names(&["a", "d"])));
    assert!(covers_all(&v, &names(&[])));
}

#[test]
fn substring_search() {
    assert!(find_text(b"VK_LAYER_RENDERDOC_Capture", b"RENDERDOC"));
    assert!(find_text(b"abc", b"abc"));
    assert!(find_text(b"abc", b""));
    assert!(!find_text(b"ab", b"abc"));
    assert!(!find_text(b"RENDERDO", b"RENDERDOC"));
    assert!(find_text(b"xxLUNARG", b"LUNARG"));
}

#[test]
fn layers_in_debug_mode_follow_the_allowlist() {
    let available = names(&[
        "VK_LAYER_LUNARG_standard_validation",
        "VK_LAYER_VALVE_steam_overlay",
        "VK_LAYER_RENDERDOC_Capture",
    ]);
    let patterns = names(&["RENDERDOC", "LUNARG"]);
    assert!(is_layer_allowed(&available[0], &patterns));
    assert!(!is_layer_allowed(&available[1], &patterns));
    let chosen = init_vulkan_layers(true, &available, &patterns);
    assert_eq!(
        chosen,
        names(&["VK_LAYER_LUNARG_standard_validation", "VK_LAYER_RENDERDOC_Capture"])
    );
}

#[test]
fn layers_outside_debug_mode_are_none() {
    let available = names(&["VK_LAYER_LUNARG_standard_validation"]);
    let patterns = names(&["LUNARG"]);
    assert!(init_vulkan_layers(false, &available, &patterns).is_empty());
}

#[test]
fn debug_only_extensions_are_requested_in_debug_mode() {
    assert_eq!(requested_list(&names(&["A"]), &names(&["D"]), true), names(&["A", "D"]));
    assert_eq!(requested_list(&names(&["A"]), &names(&["D"]), false), names(&["A"]));
}

#[test]
fn optional_instance_extension_rejected_not_fatal() {
    let r = init_vulkan_instance_extensions(&names(&["A", "B"]), &names(&["C"]), true, &names(&["A", "B"]));
    let n = r.ok().unwrap();
    assert_eq!(n.activated, names(&["A", "B"]));
    assert_eq!(n.rejected, names(&["C"]));
}

#[test]
fn missing_mandatory_instance_extension_fails() {
    let r = init_vulkan_instance_extensions(&names(&["A", "B"]), &names(&[]), false, &names(&["B"]));
    match r {
        Err(BootstrapError::Initialization { missing }) => assert_eq!(missing, names(&["A"])),
        _ => panic!("expected an initialization error"),
    }
}

#[test]
fn instance_plan_in_debug_mode() {
    let p = plan_instance(
        &names(&["VK_KHR_surface"]),
        &names(&["VK_EXT_debug_report"]),
        true,
        &names(&["VK_KHR_surface", "VK_EXT_debug_report"]),
        &names(&["VK_LAYER_LUNARG_api_dump", "VK_LAYER_other"]),
        &names(&["LUNARG"]),
    )
    .ok()
    .unwrap();
    assert_eq!(p.extensions.activated, names(&["VK_KHR_surface", "VK_EXT_debug_report"]));
    assert!(p.extensions.rejected.is_empty());
    assert_eq!(p.layers, names(&["VK_LAYER_LUNARG_api_dump"]));
    assert!(p.debug_callbacks);
}

#[test]
fn instance_plan_without_debug() {
    let p = plan_instance(
        &names(&["VK_KHR_surface"]),
        &names(&["VK_EXT_debug_report"]),
        false,
        &names(&["VK_KHR_surface", "VK_EXT_debug_report"]),
        &names(&["VK_LAYER_LUNARG_api_dump"]),
        &names(&["LUNARG"]),
    )
    .ok()
    .unwrap();
    assert_eq!(p.extensions.activated, names(&["VK_KHR_surface"]));
    assert!(p.layers.is_empty());
    assert!(!p.debug_callbacks);
}
