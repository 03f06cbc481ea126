//! Swapchain configuration: format, present mode, extent, image count
//! and queue sharing are chosen from what the surface reports, before a
//! single chain-creation call is made.  Each choice has a spec-level
//! definition, so rebuilding a chain from the same reports provably
//! yields the same configuration.

use vstd::prelude::*;
use crate::device::QueueFamilyIndices;

verus! {

/// A surface size in whole pixels.
#[derive(Debug, Clone, Copy, PartialEq, Eq, Structural)]
pub struct Extent2D {
    pub width: u32,
    pub height: u32,
}

/// One supported (pixel format, color space) pair, by its raw API codes.
#[derive(Debug, Clone, Copy, PartialEq, Eq, Structural)]
pub struct SurfaceFormat {
    pub format: i32,
    pub color_space: i32,
}

/// Raw code of the 8-bit BGRA sRGB pixel format.
pub const FORMAT_B8G8R8A8_SRGB: i32 = 50;

/// Raw code of the nonlinear sRGB color space.
pub const COLOR_SPACE_SRGB_NONLINEAR: i32 = 0;

/// Raw code of the low-latency triple-buffering-style present mode.
pub const PRESENT_MODE_MAILBOX: i32 = 1;

/// Raw code of the universally supported queued present mode.
pub const PRESENT_MODE_FIFO: i32 = 2;

/// Sentinel width meaning the surface leaves the extent to the caller.
pub const EXTENT_UNDEFINED: u32 = u32::MAX;

/// What the configuration logic reads of the surface's capabilities.
#[derive(Debug, Clone, Copy, PartialEq, Eq, Structural)]
pub struct SurfaceCapabilities {
    pub min_image_count: u32,
    pub max_image_count: u32,
    pub current_extent: Extent2D,
    pub min_image_extent: Extent2D,
    pub max_image_extent: Extent2D,
}

/// The guarantees the API gives about reported capabilities: at least
/// one image, a maximum of zero (unbounded) or at least the minimum,
/// ordered extent bounds, and a current extent that is either the
/// undefined sentinel or already within those bounds.
pub open spec fn capabilities_wf(c: SurfaceCapabilities) -> bool {
    &&& 1 <= c.min_image_count < u32::MAX
    &&& (c.max_image_count == 0 || c.max_image_count >= c.min_image_count)
    &&& c.min_image_extent.width <= c.max_image_extent.width
    &&& c.min_image_extent.height <= c.max_image_extent.height
    &&& (c.current_extent.width == EXTENT_UNDEFINED || {
        &&& c.min_image_extent.width <= c.current_extent.width <= c.max_image_extent.width
        &&& c.min_image_extent.height <= c.current_extent.height <= c.max_image_extent.height
    })
}

/// Everything the surface reports that swapchain creation depends on.
pub struct SwapchainSupportDetails {
    pub capabilities: SurfaceCapabilities,
    pub formats: Vec<SurfaceFormat>,
    pub present_modes: Vec<i32>,
}

/// The API reports at least one supported format.
pub open spec fn support_wf(s: SwapchainSupportDetails) -> bool {
    &&& capabilities_wf(s.capabilities)
    &&& s.formats@.len() > 0
}

pub open spec fn is_preferred_format(f: SurfaceFormat) -> bool {
    f.format == FORMAT_B8G8R8A8_SRGB && f.color_space == COLOR_SPACE_SRGB_NONLINEAR
}

pub open spec fn some_preferred_format(formats: Seq<SurfaceFormat>) -> bool {
    exists|i: int| 0 <= i < formats.len() && is_preferred_format(#[trigger] formats[i])
}

/// The format choice: the preferred pair when the surface supports it
/// anywhere in its list, else the first reported pair.
pub open spec fn chosen_format(formats: Seq<SurfaceFormat>) -> SurfaceFormat {
    if some_preferred_format(formats) {
        SurfaceFormat { format: FORMAT_B8G8R8A8_SRGB, color_space: COLOR_SPACE_SRGB_NONLINEAR }
    } else {
        formats[0]
    }
}

/// Choose the preferred (format, color space) pair whenever the surface
/// supports it, regardless of its position in the reported list; fall
/// back to the first reported pair otherwise.
pub fn choose_swapchain_format(formats_available: &Vec<SurfaceFormat>) -> (r: SurfaceFormat)
    requires
        formats_available@.len() > 0,
    ensures
        r == chosen_format(formats_available@),
        some_preferred_format(formats_available@) ==> is_preferred_format(r),
{
    let mut i: usize = 0;
    while i < formats_available.len()
        invariant
            i <= formats_available@.len(),
            forall|j: int| 0 <= j < i ==> !is_preferred_format(#[trigger] formats_available@[j]),
        decreases formats_available@.len() - i,
    {
        let surface_format = formats_available[i];
        if surface_format.format == FORMAT_B8G8R8A8_SRGB && surface_format.color_space
            == COLOR_SPACE_SRGB_NONLINEAR {
            return surface_format;
        }
        i += 1;
    }
    formats_available[0]
}

pub open spec fn mode_supported(modes: Seq<i32>, mode: i32) -> bool {
    exists|i: int| 0 <= i < modes.len() && #[trigger] modes[i] == mode
}

/// The present-mode choice: the low-latency mode when supported, else
/// the always-available queued mode.
pub open spec fn chosen_present_mode(modes: Seq<i32>) -> i32 {
    if mode_supported(modes, PRESENT_MODE_MAILBOX) {
        PRESENT_MODE_MAILBOX
    } else {
        PRESENT_MODE_FIFO
    }
}

/// Choose the low-latency mode whenever the surface supports it; fall
/// back to the always-available queued mode otherwise.
pub fn choose_swapchain_present_mode(present_modes_available: &Vec<i32>) -> (r: i32)
    ensures
        r == chosen_present_mode(present_modes_available@),
{
    let mut i: usize = 0;
    while i < present_modes_available.len()
        invariant
            i <= present_modes_available@.len(),
            forall|j: int| 0 <= j < i ==> #[trigger] present_modes_available@[j]
                != PRESENT_MODE_MAILBOX,
        decreases present_modes_available@.len() - i,
    {
        if present_modes_available[i] == PRESENT_MODE_MAILBOX {
            return PRESENT_MODE_MAILBOX;
        }
        i += 1;
    }
    PRESENT_MODE_FIFO
}

/// A value limited to a closed interval.
pub open spec fn clamped(input: u32, min: u32, max: u32) -> u32 {
    if input < min {
        min
    } else if input > max {
        max
    } else {
        input
    }
}

/// Relies on num::clamp: returns its input limited to [min, max]; the
/// call panics when min > max, so that case is excluded here.
#[verifier::external_body]
fn clamp_u32(input: u32, min: u32, max: u32) -> (r: u32)
    requires
        min <= max,
    ensures
        r == clamped(input, min, max),
{
    num::clamp(input, min, max)
}

/// The extent choice: the surface's fixed current extent when it
/// reports one, else the window's logical size clamped into the
/// reported bounds.
pub open spec fn chosen_extent(
    c: SurfaceCapabilities,
    window_width: u32,
    window_height: u32,
) -> Extent2D {
    if c.current_extent.width != EXTENT_UNDEFINED {
        c.current_extent
    } else {
        Extent2D {
            width: clamped(window_width, c.min_image_extent.width, c.max_image_extent.width),
            height: clamped(window_height, c.min_image_extent.height, c.max_image_extent.height),
        }
    }
}

/// Use the surface's fixed current extent when it reports one; otherwise
/// clamp the window's logical size into the reported extent bounds.
/// Either way the result lies within those bounds component-wise.
pub fn choose_swapchain_extent(
    capabilities: &SurfaceCapabilities,
    window_width: u32,
    window_height: u32,
) -> (r: Extent2D)
    requires
        capabilities_wf(*capabilities),
    ensures
        r == chosen_extent(*capabilities, window_width, window_height),
        capabilities.min_image_extent.width <= r.width <= capabilities.max_image_extent.width,
        capabilities.min_image_extent.height <= r.height <= capabilities.max_image_extent.height,
{
    if capabilities.current_extent.width != EXTENT_UNDEFINED {
        capabilities.current_extent
    } else {
        Extent2D {
            width: clamp_u32(
                window_width,
                capabilities.min_image_extent.width,
                capabilities.max_image_extent.width,
            ),
            height: clamp_u32(
                window_height,
                capabilities.min_image_extent.height,
                capabilities.max_image_extent.height,
            ),
        }
    }
}

/// The image-count choice: one more than the reported minimum, limited
/// by the reported maximum when that maximum is nonzero.
pub open spec fn chosen_image_count(c: SurfaceCapabilities) -> u32
    recommends
        c.min_image_count < u32::MAX,
{
    if c.max_image_count > 0 && c.min_image_count + 1 > c.max_image_count {
        c.max_image_count
    } else {
        (c.min_image_count + 1) as u32
    }
}

/// Request one image more than the reported minimum, limited by the
/// reported maximum when that maximum is nonzero (zero means unbounded).
pub fn choose_swapchain_image_count(capabilities: &SurfaceCapabilities) -> (r: u32)
    requires
        capabilities_wf(*capabilities),
    ensures
        r == chosen_image_count(*capabilities),
        r >= capabilities.min_image_count,
        capabilities.max_image_count > 0 ==> r <= capabilities.max_image_count,
        capabilities.max_image_count == 0 || capabilities.max_image_count
            >= capabilities.min_image_count + 1 ==> r == capabilities.min_image_count + 1,
{
    let image_count = capabilities.min_image_count + 1;
    if capabilities.max_image_count > 0 && image_count > capabilities.max_image_count {
        capabilities.max_image_count
    } else {
        image_count
    }
}

/// How the chain's images are shared between the graphics and present
/// queue families.
#[derive(Debug, Clone, Copy, PartialEq, Eq, Structural)]
pub enum SharingMode {
    Exclusive,
    Concurrent,
}

pub open spec fn chosen_sharing_mode(graphics_family: u32, present_family: u32) -> SharingMode {
    if graphics_family != present_family {
        SharingMode::Concurrent
    } else {
        SharingMode::Exclusive
    }
}

pub open spec fn chosen_shared_indices(graphics_family: u32, present_family: u32) -> Seq<u32> {
    if graphics_family != present_family {
        seq![graphics_family, present_family]
    } else {
        Seq::empty()
    }
}

/// Share images concurrently across the two queue families exactly when
/// they differ; a single family keeps cheaper exclusive ownership.
pub fn choose_sharing_mode(graphics_family: u32, present_family: u32) -> (r: (
    SharingMode,
    Vec<u32>,
))
    ensures
        r.0 == chosen_sharing_mode(graphics_family, present_family),
        r.1@ =~= chosen_shared_indices(graphics_family, present_family),
{
    if graphics_family != present_family {
        let mut indices: Vec<u32> = Vec::new();
        indices.push(graphics_family);
        indices.push(present_family);
        (SharingMode::Concurrent, indices)
    } else {
        (SharingMode::Exclusive, Vec::new())
    }
}

/// The chain configuration handed to the one creation call, together
/// with what the chain owns afterwards: `image_count` presentable
/// images (owned by the chain, not freed one by one), the chosen format
/// and the chosen extent.
pub struct SwapchainContext {
    pub image_count: u32,
    pub swapchain_format: SurfaceFormat,
    pub swapchain_extent: Extent2D,
    pub present_mode: i32,
    pub sharing_mode: SharingMode,
    pub shared_queue_family_indices: Vec<u32>,
}

/// The whole configuration, as a function of the surface's reports, the
/// resolved queue families and the window's logical size.
pub open spec fn swapchain_config_ok(
    ctx: SwapchainContext,
    support: SwapchainSupportDetails,
    graphics_family: u32,
    present_family: u32,
    window_width: u32,
    window_height: u32,
) -> bool {
    &&& ctx.swapchain_format == chosen_format(support.formats@)
    &&& ctx.present_mode == chosen_present_mode(support.present_modes@)
    &&& ctx.swapchain_extent == chosen_extent(support.capabilities, window_width, window_height)
    &&& ctx.image_count == chosen_image_count(support.capabilities)
    &&& ctx.sharing_mode == chosen_sharing_mode(graphics_family, present_family)
    &&& ctx.shared_queue_family_indices@ == chosen_shared_indices(graphics_family, present_family)
}

/// The chain invariant: the image count lies between the surface's
/// reported minimum and, when bounded, its reported maximum.
pub open spec fn swapchain_count_ok(ctx: SwapchainContext, caps: SurfaceCapabilities) -> bool {
    &&& ctx.image_count >= caps.min_image_count
    &&& (caps.max_image_count > 0 ==> ctx.image_count <= caps.max_image_count)
}

/// Resolve the whole chain configuration from the surface's reports,
/// the resolved queue families and the window's logical size.
pub fn create_swapchain(
    support: &SwapchainSupportDetails,
    queue_family: &QueueFamilyIndices,
    window_width: u32,
    window_height: u32,
) -> (r: SwapchainContext)
    requires
        support_wf(*support),
        queue_family.graphics_family is Some,
        queue_family.present_family is Some,
    ensures
        swapchain_config_ok(
            r,
            *support,
            queue_family.graphics_family->Some_0,
            queue_family.present_family->Some_0,
            window_width,
            window_height,
        ),
        swapchain_count_ok(r, support.capabilities),
{
    let surface_format = choose_swapchain_format(&support.formats);
    let present_mode = choose_swapchain_present_mode(&support.present_modes);
    let extent = choose_swapchain_extent(&support.capabilities, window_width, window_height);
    let image_count = choose_swapchain_image_count(&support.capabilities);
    let graphics_family = queue_family.graphics_family.unwrap();
    let present_family = queue_family.present_family.unwrap();
    let (sharing_mode, shared_indices) = choose_sharing_mode(graphics_family, present_family);
    proof {
        assert(shared_indices@ =~= chosen_shared_indices(graphics_family, present_family));
    }
    SwapchainContext {
        image_count,
        swapchain_format: surface_format,
        swapchain_extent: extent,
        present_mode,
        sharing_mode,
        shared_queue_family_indices: shared_indices,
    }
}

} // verus!
