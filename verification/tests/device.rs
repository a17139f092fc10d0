use obsidian_graphish::renderer::device::{
    check_device_extension_support, find_queue_families, pick_physical_device,
    required_device_extensions, unique_queue_families, DeviceCandidate, QueueFamilyIndices,
    QueueFamilyInfo, QUEUE_GRAPHICS_BIT,
};

fn family(queue_flags: u32, present_support: bool) -> QueueFamilyInfo {
    QueueFamilyInfo { queue_flags, present_support }
}

fn indices(graphics: Option<u32>, present: Option<u32>) -> QueueFamilyIndices {
    QueueFamilyIndices { graphics_family: graphics, present_family: present }
}

#[test]
fn graphics_bit_is_ash_graphics_flag() {
    assert_eq!(QUEUE_GRAPHICS_BIT, ash::vk::QueueFlags::GRAPHICS.as_raw());
}

#[test]
fn is_complete_needs_both_families() {
    assert!(indices(Some(0), Some(1)).is_complete());
    assert!(!indices(Some(0), None).is_complete());
    assert!(!indices(None, Some(0)).is_complete());
    assert!(!indices(None, None).is_complete());
}

#[test]
fn queue_search_stops_when_both_found() {
    // Family 0 presents, family 1 draws: complete at 1; family 2 is never looked at.
    let fams = vec![family(0b100, true), family(0b1, false), family(0b1, true)];
    let found = find_queue_families(&fams);
    assert_eq!(found.graphics_family, Some(1));
    assert_eq!(found.present_family, Some(0));
}

#[test]
fn queue_search_single_family_with_both() {
    let fams = vec![family(0b111, true), family(0b1, true)];
    let found = find_queue_families(&fams);
    assert_eq!(found.graphics_family, Some(0));
    assert_eq!(found.present_family, Some(0));
}

#[test]
fn queue_search_keeps_last_before_completion() {
    // Two graphics families before the first presenting one: the later one wins.
    let fams = vec![family(0b1, false), family(0b11, false), family(0b10, true)];
    let found = find_queue_families(&fams);
    assert_eq!(found.graphics_family, Some(1));
    assert_eq!(found.present_family, Some(2));
}

#[test]
fn queue_search_incomplete() {
    let fams = vec![family(0b10, false), family(0b1, false)];
    let found = find_queue_families(&fams);
    assert_eq!(found.graphics_family, Some(1));
    assert_eq!(found.present_family, None);
    assert!(!found.is_complete());
    let none = find_queue_families(&Vec::new());
    assert_eq!(none.graphics_family, None);
    assert_eq!(none.present_family, None);
}

#[test]
fn record_family_is_one_search_step() {
    let mut acc = QueueFamilyIndices::empty();
    acc.record_family(3, family(0b1, false));
    assert_eq!(acc.graphics_family, Some(3));
    assert_eq!(acc.present_family, None);
    acc.record_family(4, family(0, true));
    assert_eq!(acc.graphics_family, Some(3));
    assert_eq!(acc.present_family, Some(4));
}

#[test]
fn swapchain_extension_is_required() {
    let required = required_device_extensions();
    assert_eq!(required.len(), 1);
    assert_eq!(required[0], ash::khr::swapchain::NAME.to_bytes().to_vec());
    assert_eq!(required[0], b"VK_KHR_swapchain".to_vec());
}

#[test]
fn extension_support() {
    let with = vec![b"VK_KHR_maintenance1".to_vec(), b"VK_KHR_swapchain".to_vec()];
    assert!(check_device_extension_support(&with));
    let without = vec![b"VK_KHR_maintenance1".to_vec(), b"VK_KHR_swapchai".to_vec()];
    assert!(!check_device_extension_support(&without));
    assert!(!check_device_extension_support(&Vec::new()));
}

#[test]
fn picks_first_suitable_device() {
    let candidates = vec![
        DeviceCandidate { queue_families: indices(Some(0), None), extensions_supported: true },
        DeviceCandidate { queue_families: indices(Some(0), Some(0)), extensions_supported: false },
        DeviceCandidate { queue_families: indices(Some(1), Some(0)), extensions_supported: true },
        DeviceCandidate { queue_families: indices(Some(0), Some(0)), extensions_supported: true },
    ];
    assert_eq!(pick_physical_device(&candidates), Some(2));
    assert_eq!(pick_physical_device(&candidates[..2].to_vec()), None);
    assert_eq!(pick_physical_device(&Vec::new()), None);
}

#[test]
fn unique_families() {
    assert_eq!(unique_queue_families(&indices(Some(2), Some(2))), vec![2]);
    assert_eq!(unique_queue_families(&indices(Some(0), Some(1))), vec![0, 1]);
}

#[test]
fn device_suitability() {
    let ok = DeviceCandidate { queue_families: indices(Some(0), Some(1)), extensions_supported: true };
    assert!(ok.is_suitable());
    let no_ext = DeviceCandidate { queue_families: indices(Some(0), Some(1)), extensions_supported: false };
    assert!(!no_ext.is_suitable());
    let no_present = DeviceCandidate { queue_families: indices(Some(0), None), extensions_supported: true };
    assert!(!no_present.is_suitable());
}
