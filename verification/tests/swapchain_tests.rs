use vulkan_rust_test::device::QueueFamilyIndices;
use vulkan_rust_test::swapchain::{
    COLOR_SPACE_SRGB_NONLINEAR, EXTENT_UNDEFINED, Extent2D, FORMAT_B8G8R8A8_SRGB,
    PRESENT_MODE_FIFO, PRESENT_MODE_MAILBOX, SharingMode, SurfaceCapabilities, SurfaceFormat,
    SwapchainSupportDetails, choose_sharing_mode, choose_swapchain_extent,
    choose_swapchain_format, choose_swapchain_image_count, choose_swapchain_present_mode,
    create_swapchain,
};

fn caps_with_bounds(min: (u32, u32), max: (u32, u32)) -> SurfaceCapabilities {
    SurfaceCapabilities {
        min_image_count: 2,
        max_image_count: 8,
        current_extent: Extent2D { width: EXTENT_UNDEFINED, height: EXTENT_UNDEFINED },
        min_image_extent: Extent2D { width: min.0, height: min.1 },
        max_image_extent: Extent2D { width: max.0, height: max.1 },
    }
}

fn preferred() -> SurfaceFormat {
    SurfaceFormat { format: FORMAT_B8G8R8A8_SRGB, color_space: COLOR_SPACE_SRGB_NONLINEAR }
}

fn other_format() -> SurfaceFormat {
    SurfaceFormat { format: 44, color_space: 1 }
}

#[test]
fn preferred_format_chosen_regardless_of_position() {
    let first = choose_swapchain_format(&vec![preferred(), other_format()]);
    let last = choose_swapchain_format(&vec![other_format(), other_format(), preferred()]);
    assert_eq!(first, preferred());
    assert_eq!(last, preferred());
}

#[test]
fn format_falls_back_to_first_reported() {
    let fallback = choose_swapchain_format(&vec![other_format(), SurfaceFormat { format: 3, color_space: 9 }]);
    assert_eq!(fallback, other_format());
}

#[test]
fn mailbox_chosen_whenever_supported() {
    assert_eq!(
        choose_swapchain_present_mode(&vec![PRESENT_MODE_FIFO, PRESENT_MODE_MAILBOX]),
        PRESENT_MODE_MAILBOX
    );
    assert_eq!(
        choose_swapchain_present_mode(&vec![PRESENT_MODE_MAILBOX]),
        PRESENT_MODE_MAILBOX
    );
}

#[test]
fn fifo_chosen_without_mailbox() {
    assert_eq!(choose_swapchain_present_mode(&vec![PRESENT_MODE_FIFO, 0]), PRESENT_MODE_FIFO);
    assert_eq!(choose_swapchain_present_mode(&vec![]), PRESENT_MODE_FIFO);
}

#[test]
fn extent_is_clamped_into_surface_bounds() {
    let caps = caps_with_bounds((100, 100), (4096, 2160));
    // Far above the maximum: the wrapper must really clamp, not echo.
    let big = choose_swapchain_extent(&caps, 100_000, 100_000);
    assert_eq!(big, Extent2D { width: 4096, height: 2160 });
    let small = choose_swapchain_extent(&caps, 10, 10);
    assert_eq!(small, Extent2D { width: 100, height: 100 });
    let inside = choose_swapchain_extent(&caps, 800, 600);
    assert_eq!(inside, Extent2D { width: 800, height: 600 });
}

#[test]
fn extent_uses_fixed_current_extent_when_defined() {
    let mut caps = caps_with_bounds((100, 100), (4096, 2160));
    caps.current_extent = Extent2D { width: 1280, height: 720 };
    let extent = choose_swapchain_extent(&caps, 800, 600);
    assert_eq!(extent, Extent2D { width: 1280, height: 720 });
}

#[test]
fn image_count_is_min_plus_one() {
    let caps = caps_with_bounds((1, 1), (4096, 4096));
    assert_eq!(choose_swapchain_image_count(&caps), 3);
    let mut unbounded = caps;
    unbounded.max_image_count = 0;
    assert_eq!(choose_swapchain_image_count(&unbounded), 3);
}

#[test]
fn image_count_respects_maximum() {
    let mut caps = caps_with_bounds((1, 1), (4096, 4096));
    caps.min_image_count = 3;
    caps.max_image_count = 3;
    assert_eq!(choose_swapchain_image_count(&caps), 3);
}

#[test]
fn sharing_is_concurrent_only_across_two_families() {
    let (mode, indices) = choose_sharing_mode(0, 1);
    assert_eq!(mode, SharingMode::Concurrent);
    assert_eq!(indices, vec![0, 1]);
    let (same_mode, same_indices) = choose_sharing_mode(2, 2);
    assert_eq!(same_mode, SharingMode::Exclusive);
    assert!(same_indices.is_empty());
}

#[test]
fn whole_chain_configuration_holds_together() {
    let support = SwapchainSupportDetails {
        capabilities: caps_with_bounds((1, 1), (4096, 4096)),
        formats: vec![other_format(), preferred()],
        present_modes: vec![PRESENT_MODE_FIFO],
    };
    let queue_family = QueueFamilyIndices { graphics_family: Some(0), present_family: Some(0) };
    let ctx = create_swapchain(&support, &queue_family, 800, 600);
    assert_eq!(ctx.swapchain_format, preferred());
    assert_eq!(ctx.present_mode, PRESENT_MODE_FIFO);
    assert_eq!(ctx.swapchain_extent, Extent2D { width: 800, height: 600 });
    assert_eq!(ctx.image_count, 3);
    assert_eq!(ctx.sharing_mode, SharingMode::Exclusive);
    assert!(ctx.shared_queue_family_indices.is_empty());
}
