use ash::vk;
use obsidian_graphish::renderer::device::QueueFamilyIndices;
use obsidian_graphish::renderer::swapchain::{
    choose_image_count, choose_image_sharing, choose_swap_extent, choose_swap_present_mode,
    choose_swap_surface_format, Extent2D, SharingMode, SurfaceCapabilities, SurfaceFormat,
    COLOR_SPACE_SRGB_NONLINEAR, FORMAT_B8G8R8A8_SRGB, PRESENT_MODE_FIFO, PRESENT_MODE_MAILBOX,
};

fn caps(min: u32, max: u32, current: Extent2D, lo: Extent2D, hi: Extent2D) -> SurfaceCapabilities {
    SurfaceCapabilities {
        min_image_count: min,
        max_image_count: max,
        current_extent: current,
        min_image_extent: lo,
        max_image_extent: hi,
    }
}

fn ext(width: u32, height: u32) -> Extent2D {
    Extent2D { width, height }
}

#[test]
fn constants_match_ash() {
    assert_eq!(FORMAT_B8G8R8A8_SRGB, vk::Format::B8G8R8A8_SRGB.as_raw());
    assert_eq!(COLOR_SPACE_SRGB_NONLINEAR, vk::ColorSpaceKHR::SRGB_NONLINEAR.as_raw());
    assert_eq!(PRESENT_MODE_MAILBOX, vk::PresentModeKHR::MAILBOX.as_raw());
    assert_eq!(PRESENT_MODE_FIFO, vk::PresentModeKHR::FIFO.as_raw());
}

#[test]
fn prefers_srgb_format() {
    let unorm = SurfaceFormat { format: vk::Format::B8G8R8A8_UNORM.as_raw(), color_space: 0 };
    let srgb = SurfaceFormat { format: FORMAT_B8G8R8A8_SRGB, color_space: COLOR_SPACE_SRGB_NONLINEAR };
    let srgb_other_space = SurfaceFormat { format: FORMAT_B8G8R8A8_SRGB, color_space: 1000104001 };
    assert_eq!(choose_swap_surface_format(&vec![unorm, srgb_other_space, srgb]), srgb);
    assert_eq!(choose_swap_surface_format(&vec![unorm, srgb_other_space]), unorm);
    assert_eq!(choose_swap_surface_format(&vec![srgb_other_space]), srgb_other_space);
}

#[test]
fn prefers_mailbox_else_fifo() {
    let immediate = vk::PresentModeKHR::IMMEDIATE.as_raw();
    assert_eq!(choose_swap_present_mode(&vec![immediate, PRESENT_MODE_MAILBOX]), PRESENT_MODE_MAILBOX);
    assert_eq!(choose_swap_present_mode(&vec![immediate]), PRESENT_MODE_FIFO);
    assert_eq!(choose_swap_present_mode(&Vec::new()), PRESENT_MODE_FIFO);
}

#[test]
fn fixed_extent_is_kept() {
    let c = caps(2, 3, ext(800, 600), ext(1, 1), ext(4096, 4096));
    assert_eq!(choose_swap_extent(&c, ext(1024, 768)), ext(800, 600));
}

#[test]
fn free_extent_is_clamped_window_size() {
    let c = caps(2, 3, ext(u32::MAX, u32::MAX), ext(100, 100), ext(1000, 500));
    assert_eq!(choose_swap_extent(&c, ext(800, 600)), ext(800, 500));
    assert_eq!(choose_swap_extent(&c, ext(50, 200)), ext(100, 200));
}

#[test]
fn image_count() {
    let e = ext(1, 1);
    assert_eq!(choose_image_count(&caps(2, 0, e, e, e)), 3);
    assert_eq!(choose_image_count(&caps(2, 8, e, e, e)), 3);
    assert_eq!(choose_image_count(&caps(3, 3, e, e, e)), 3);
    assert_eq!(choose_image_count(&caps(0, 0, e, e, e)), 1);
}

#[test]
fn sharing_mode() {
    let same = choose_image_sharing(&QueueFamilyIndices { graphics_family: Some(1), present_family: Some(1) });
    assert_eq!(same.mode, SharingMode::Exclusive);
    assert!(same.queue_family_indices.is_empty());
    let distinct = choose_image_sharing(&QueueFamilyIndices { graphics_family: Some(0), present_family: Some(2) });
    assert_eq!(distinct.mode, SharingMode::Concurrent);
    assert_eq!(distinct.queue_family_indices, vec![0, 2]);
}
