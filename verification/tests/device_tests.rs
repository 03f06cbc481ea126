use vulkan_rust_test::device::{
    DeviceCategory, PhysicalDeviceInfo, QueueFamilyIndices, QueueFamilyProps,
    check_device_eligible, device_category_score, find_queue_family_indices,
    is_device_support_extensions, iterate_select_device, pick_physical_device,
};

fn family(graphics: bool, present: bool) -> QueueFamilyProps {
    QueueFamilyProps { queue_count: 1, supports_graphics: graphics, supports_present: present }
}

fn device_with(category: DeviceCategory, extensions: Vec<String>) -> PhysicalDeviceInfo {
    PhysicalDeviceInfo {
        category,
        queue_families: vec![family(true, true)],
        extension_names: extensions,
    }
}

fn swapchain_ext() -> Vec<String> {
    vec![String::from("VK_KHR_swapchain")]
}

#[test]
fn selection_picks_highest_category_score() {
    let devices = vec![
        device_with(DeviceCategory::Cpu, swapchain_ext()),
        device_with(DeviceCategory::IntegratedGpu, swapchain_ext()),
        device_with(DeviceCategory::DiscreteGpu, swapchain_ext()),
        device_with(DeviceCategory::VirtualGpu, swapchain_ext()),
    ];
    assert_eq!(pick_physical_device(&devices, &swapchain_ext()), Some(2));
}

#[test]
fn selection_ties_keep_first_found() {
    let devices = vec![
        device_with(DeviceCategory::DiscreteGpu, swapchain_ext()),
        device_with(DeviceCategory::DiscreteGpu, swapchain_ext()),
    ];
    assert_eq!(pick_physical_device(&devices, &swapchain_ext()), Some(0));
}

#[test]
fn selection_skips_devices_missing_extensions() {
    let devices = vec![
        device_with(DeviceCategory::DiscreteGpu, vec![]),
        device_with(DeviceCategory::Cpu, swapchain_ext()),
    ];
    assert_eq!(pick_physical_device(&devices, &swapchain_ext()), Some(1));
}

#[test]
fn selection_skips_devices_without_present_support() {
    let mut no_present = device_with(DeviceCategory::DiscreteGpu, swapchain_ext());
    no_present.queue_families = vec![family(true, false)];
    let devices = vec![no_present, device_with(DeviceCategory::IntegratedGpu, swapchain_ext())];
    assert_eq!(pick_physical_device(&devices, &swapchain_ext()), Some(1));
}

#[test]
fn selection_rejects_unknown_category_and_empty_set() {
    let devices = vec![device_with(DeviceCategory::Unknown, swapchain_ext())];
    assert_eq!(pick_physical_device(&devices, &swapchain_ext()), None);
    assert_eq!(pick_physical_device(&vec![], &swapchain_ext()), None);
}

#[test]
fn iterate_keeps_last_device_when_current_scores_no_higher() {
    let devices = vec![
        device_with(DeviceCategory::DiscreteGpu, swapchain_ext()),
        device_with(DeviceCategory::Cpu, swapchain_ext()),
    ];
    let (kept, score) = iterate_select_device(&devices, Some(0), 4, 1, &swapchain_ext());
    assert_eq!(kept, Some(0));
    assert_eq!(score, 4);
}

#[test]
fn category_scores_are_ordered() {
    assert_eq!(device_category_score(DeviceCategory::DiscreteGpu), 4);
    assert_eq!(device_category_score(DeviceCategory::IntegratedGpu), 3);
    assert_eq!(device_category_score(DeviceCategory::VirtualGpu), 2);
    assert_eq!(device_category_score(DeviceCategory::Cpu), 1);
    assert_eq!(device_category_score(DeviceCategory::Unknown), 0);
}

#[test]
fn queue_family_resolution_finds_first_indices() {
    let families = vec![family(true, false), family(false, true), family(true, true)];
    let indices = find_queue_family_indices(&families);
    assert_eq!(indices.graphics_family, Some(0));
    assert_eq!(indices.present_family, Some(1));
    assert!(indices.is_compelete());
}

#[test]
fn queue_family_resolution_ignores_empty_families() {
    let empty = QueueFamilyProps { queue_count: 0, supports_graphics: true, supports_present: true };
    let families = vec![empty, family(true, true)];
    let indices = find_queue_family_indices(&families);
    assert_eq!(indices.graphics_family, Some(1));
    assert_eq!(indices.present_family, Some(1));
}

#[test]
fn queue_family_resolution_reports_missing_support() {
    let families = vec![family(true, false)];
    let indices = find_queue_family_indices(&families);
    assert_eq!(indices.graphics_family, Some(0));
    assert_eq!(indices.present_family, None);
    assert!(!indices.is_compelete());
    assert!(!QueueFamilyIndices::new().is_compelete());
}

#[test]
fn extension_support_is_name_containment() {
    let available = vec![
        String::from("VK_KHR_swapchain"),
        String::from("VK_EXT_other"),
    ];
    assert!(is_device_support_extensions(&available, &swapchain_ext()));
    assert!(is_device_support_extensions(&available, &vec![]));
    assert!(!is_device_support_extensions(
        &vec![String::from("VK_EXT_other")],
        &swapchain_ext()
    ));
}

#[test]
fn eligibility_needs_score_families_and_extensions() {
    let good = device_with(DeviceCategory::Cpu, swapchain_ext());
    assert!(check_device_eligible(&good, &swapchain_ext()));
    let unknown = device_with(DeviceCategory::Unknown, swapchain_ext());
    assert!(!check_device_eligible(&unknown, &swapchain_ext()));
}
