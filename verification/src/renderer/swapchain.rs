use vstd::prelude::*;

use crate::renderer::device::QueueFamilyIndices;

verus! {

/// `VK_FORMAT_B8G8R8A8_SRGB`.
pub const FORMAT_B8G8R8A8_SRGB: i32 = 50;

/// `VK_COLOR_SPACE_SRGB_NONLINEAR_KHR`.
pub const COLOR_SPACE_SRGB_NONLINEAR: i32 = 0;

/// `VK_PRESENT_MODE_MAILBOX_KHR`.
pub const PRESENT_MODE_MAILBOX: i32 = 1;

/// `VK_PRESENT_MODE_FIFO_KHR`, which every surface supports.
pub const PRESENT_MODE_FIFO: i32 = 2;

/// A surface format: raw `VkFormat` and `VkColorSpaceKHR`.
#[derive(Clone, Copy, Debug, PartialEq, Eq, Structural)]
pub struct SurfaceFormat {
    pub format: i32,
    pub color_space: i32,
}

/// A width and a height in pixels.
#[derive(Clone, Copy, Debug, PartialEq, Eq, Structural)]
pub struct Extent2D {
    pub width: u32,
    pub height: u32,
}

/// The part of `VkSurfaceCapabilitiesKHR` that the swapchain settings use.
#[derive(Clone, Copy, Debug)]
pub struct SurfaceCapabilities {
    pub min_image_count: u32,
    /// 0 means that there is no maximum.
    pub max_image_count: u32,
    pub current_extent: Extent2D,
    pub min_image_extent: Extent2D,
    pub max_image_extent: Extent2D,
}

/// The format the engine prefers: 8-bit BGRA in sRGB.
pub open spec fn preferred_surface_format() -> SurfaceFormat {
    SurfaceFormat { format: FORMAT_B8G8R8A8_SRGB, color_space: COLOR_SPACE_SRGB_NONLINEAR }
}

/// Picks the sRGB BGRA format when the surface offers it, else the first
/// format offered.
pub fn choose_swap_surface_format(formats: &Vec<SurfaceFormat>) -> (chosen: SurfaceFormat)
    requires
        formats@.len() > 0,
    ensures
        formats@.contains(preferred_surface_format()) ==> chosen == preferred_surface_format(),
        !formats@.contains(preferred_surface_format()) ==> chosen == formats@[0],
        formats@.contains(chosen),
{
    let mut i: usize = 0;
    while i < formats.len()
        invariant
            0 <= i <= formats.len(),
            forall|j: int| 0 <= j < i ==> #[trigger] formats@[j] != preferred_surface_format(),
        decreases formats.len() - i,
    {
        let format = formats[i];
        if format.format == FORMAT_B8G8R8A8_SRGB && format.color_space
            == COLOR_SPACE_SRGB_NONLINEAR {
            return format;
        }
        i = i + 1;
    }
    formats[0]
}

/// The present mode the engine uses for the modes a surface offers.
pub open spec fn present_mode_for(present_modes: Seq<i32>) -> i32 {
    if present_modes.contains(PRESENT_MODE_MAILBOX) {
        PRESENT_MODE_MAILBOX
    } else {
        PRESENT_MODE_FIFO
    }
}

/// Picks mailbox (triple buffering) when offered, else FIFO (v-sync).
pub fn choose_swap_present_mode(present_modes: &Vec<i32>) -> (mode: i32)
    ensures
        mode == present_mode_for(present_modes@),
        mode == PRESENT_MODE_MAILBOX || mode == PRESENT_MODE_FIFO,
        (exists|k: int| 0 <= k < present_modes@.len() && #[trigger] present_modes@[k]
            == PRESENT_MODE_MAILBOX) ==> mode == PRESENT_MODE_MAILBOX,
        (forall|k: int| 0 <= k < present_modes@.len() ==> #[trigger] present_modes@[k]
            != PRESENT_MODE_MAILBOX) ==> mode == PRESENT_MODE_FIFO,
{
    let mut i: usize = 0;
    while i < present_modes.len()
        invariant
            0 <= i <= present_modes.len(),
            forall|j: int| 0 <= j < i ==> #[trigger] present_modes@[j] != PRESENT_MODE_MAILBOX,
        decreases present_modes.len() - i,
    {
        if present_modes[i] == PRESENT_MODE_MAILBOX {
            assert(present_modes@[i as int] == PRESENT_MODE_MAILBOX);
            return PRESENT_MODE_MAILBOX;
        }
        i = i + 1;
    }
    PRESENT_MODE_FIFO
}

/// Law of the present mode: mailbox is chosen exactly when it is offered,
/// at whatever position; otherwise FIFO. Offering mailbox in front of or
/// after any list makes mailbox the choice, and offering modes other than
/// mailbox never does.
pub proof fn law_mailbox_when_offered(present_modes: Seq<i32>, mode: i32)
    ensures
        (present_mode_for(present_modes) == PRESENT_MODE_MAILBOX) <==> (exists|k: int|
            0 <= k < present_modes.len() && #[trigger] present_modes[k] == PRESENT_MODE_MAILBOX),
        (present_mode_for(present_modes) == PRESENT_MODE_FIFO) <==> (forall|k: int|
            0 <= k < present_modes.len() ==> #[trigger] present_modes[k] != PRESENT_MODE_MAILBOX),
        present_mode_for(seq![PRESENT_MODE_MAILBOX] + present_modes) == PRESENT_MODE_MAILBOX,
        present_mode_for(present_modes.push(PRESENT_MODE_MAILBOX)) == PRESENT_MODE_MAILBOX,
        mode != PRESENT_MODE_MAILBOX ==> present_mode_for(present_modes.push(mode))
            == present_mode_for(present_modes),
{
    let front = seq![PRESENT_MODE_MAILBOX] + present_modes;
    assert(front[0] == PRESENT_MODE_MAILBOX);
    assert(front.contains(PRESENT_MODE_MAILBOX));
    let back = present_modes.push(PRESENT_MODE_MAILBOX);
    assert(back[present_modes.len() as int] == PRESENT_MODE_MAILBOX);
    assert(back.contains(PRESENT_MODE_MAILBOX));
    let pushed = present_modes.push(mode);
    if mode != PRESENT_MODE_MAILBOX {
        if present_modes.contains(PRESENT_MODE_MAILBOX) {
            let k = choose|k: int| 0 <= k < present_modes.len() && present_modes[k] == PRESENT_MODE_MAILBOX;
            assert(pushed[k] == PRESENT_MODE_MAILBOX);
        }
        if pushed.contains(PRESENT_MODE_MAILBOX) {
            let k = choose|k: int| 0 <= k < pushed.len() && pushed[k] == PRESENT_MODE_MAILBOX;
            assert(k < present_modes.len());
            assert(present_modes[k] == PRESENT_MODE_MAILBOX);
        }
    }
}

/// `value` held within `[min, max]`.
pub open spec fn clamp_spec(value: u32, min: u32, max: u32) -> u32 {
    if value < min {
        min
    } else if value > max {
        max
    } else {
        value
    }
}

/// `u32::clamp`, which panics when `min > max`.
fn clamp_u32(value: u32, min: u32, max: u32) -> (clamped: u32)
    requires
        min <= max,
    ensures
        clamped == clamp_spec(value, min, max),
{
    if value < min {
        min
    } else if value > max {
        max
    } else {
        value
    }
}

/// The surface fixes the extent unless its current width is `u32::MAX`.
pub open spec fn extent_is_fixed(capabilities: SurfaceCapabilities) -> bool {
    capabilities.current_extent.width != u32::MAX
}

/// The swapchain extent for a surface and the window's inner size.
pub open spec fn swap_extent_spec(capabilities: SurfaceCapabilities, window_size: Extent2D) -> Extent2D {
    if extent_is_fixed(capabilities) {
        capabilities.current_extent
    } else {
        Extent2D {
            width: clamp_spec(
                window_size.width,
                capabilities.min_image_extent.width,
                capabilities.max_image_extent.width,
            ),
            height: clamp_spec(
                window_size.height,
                capabilities.min_image_extent.height,
                capabilities.max_image_extent.height,
            ),
        }
    }
}

/// The surface's current extent, or, when the surface leaves it to the
/// application, the window's size held within the surface's limits.
pub fn choose_swap_extent(capabilities: &SurfaceCapabilities, window_size: Extent2D) -> (extent:
    Extent2D)
    requires
        !extent_is_fixed(*capabilities) ==> capabilities.min_image_extent.width
            <= capabilities.max_image_extent.width && capabilities.min_image_extent.height
            <= capabilities.max_image_extent.height,
    ensures
        extent == swap_extent_spec(*capabilities, window_size),
        !extent_is_fixed(*capabilities) ==> {
            &&& capabilities.min_image_extent.width <= extent.width
                <= capabilities.max_image_extent.width
            &&& capabilities.min_image_extent.height <= extent.height
                <= capabilities.max_image_extent.height
        },
{
    if capabilities.current_extent.width != u32::MAX {
        capabilities.current_extent
    } else {
        Extent2D {
            width: clamp_u32(
                window_size.width,
                capabilities.min_image_extent.width,
                capabilities.max_image_extent.width,
            ),
            height: clamp_u32(
                window_size.height,
                capabilities.min_image_extent.height,
                capabilities.max_image_extent.height,
            ),
        }
    }
}

/// The number of swapchain images the engine asks for.
pub open spec fn image_count_spec(capabilities: SurfaceCapabilities) -> u32 {
    let wanted = (capabilities.min_image_count + 1) as u32;
    if capabilities.max_image_count > 0 && wanted > capabilities.max_image_count {
        capabilities.max_image_count
    } else {
        wanted
    }
}

/// One image more than the minimum, unless that exceeds a maximum.
pub fn choose_image_count(capabilities: &SurfaceCapabilities) -> (count: u32)
    requires
        capabilities.min_image_count < u32::MAX,
    ensures
        count == image_count_spec(*capabilities),
        count >= 1,
        capabilities.max_image_count > 0 ==> count <= capabilities.max_image_count,
        capabilities.max_image_count == 0 || capabilities.min_image_count
            < capabilities.max_image_count ==> count == capabilities.min_image_count + 1,
{
    let mut image_count = capabilities.min_image_count + 1;
    if capabilities.max_image_count > 0 && image_count > capabilities.max_image_count {
        image_count = capabilities.max_image_count;
    }
    image_count
}

/// How swapchain images are shared between queue families.
#[derive(Clone, Copy, Debug, PartialEq, Eq, Structural)]
pub enum SharingMode {
    Exclusive,
    Concurrent,
}

/// The sharing mode of the swapchain images and the queue families named
/// with it (none when exclusive).
pub struct ImageSharing {
    pub mode: SharingMode,
    pub queue_family_indices: Vec<u32>,
}

/// Concurrent sharing between the graphics and present families when they
/// differ, exclusive ownership when they are the same family.
pub fn choose_image_sharing(indices: &QueueFamilyIndices) -> (sharing: ImageSharing)
    requires
        indices.complete(),
    ensures
        indices.graphics_family->0 != indices.present_family->0 ==> {
            &&& sharing.mode == SharingMode::Concurrent
            &&& sharing.queue_family_indices@ == seq![
                indices.graphics_family->0,
                indices.present_family->0,
            ]
        },
        indices.graphics_family->0 == indices.present_family->0 ==> {
            &&& sharing.mode == SharingMode::Exclusive
            &&& sharing.queue_family_indices@.len() == 0
        },
{
    let graphics = indices.graphics_family.unwrap();
    let present = indices.present_family.unwrap();
    if graphics != present {
        ImageSharing { mode: SharingMode::Concurrent, queue_family_indices: vec![graphics, present] }
    } else {
        ImageSharing { mode: SharingMode::Exclusive, queue_family_indices: Vec::new() }
    }
}

} // verus!
