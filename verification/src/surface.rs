//! Choosing the swap chain's parameters from what the surface reports.
//!
//! Formats, color spaces and present modes are carried as the raw `i32`
//! values of the graphics API, flag sets as raw `u32` words.

use vstd::prelude::*;
use crate::error::StartupError;
use crate::flags::{composite_alpha_contains, has_all};

verus! {

/// Raw value of the preferred color format: 8 bits per channel, BGRA, unsigned normalized.
pub const FORMAT_B8G8R8A8_UNORM: i32 = 44;

/// Raw value of the preferred color space: sRGB, non-linear.
pub const COLOR_SPACE_SRGB_NONLINEAR: i32 = 0;

/// Raw value of the low-latency, non-blocking present mode.
pub const PRESENT_MODE_MAILBOX: i32 = 1;

/// Raw value of the blocking present mode that every surface supports.
pub const PRESENT_MODE_FIFO: i32 = 2;

pub const COMPOSITE_ALPHA_OPAQUE: u32 = 0x1;

pub const COMPOSITE_ALPHA_PRE_MULTIPLIED: u32 = 0x2;

pub const COMPOSITE_ALPHA_POST_MULTIPLIED: u32 = 0x4;

pub const COMPOSITE_ALPHA_INHERIT: u32 = 0x8;

/// A color format together with its color space.
#[derive(Clone, Copy, Debug, PartialEq, Eq)]
pub struct SurfaceFormat {
    pub format: i32,
    pub color_space: i32,
}

/// A size in pixels.
#[derive(Clone, Copy, Debug, PartialEq, Eq)]
pub struct Extent2D {
    pub width: u32,
    pub height: u32,
}

/// The part of a surface's capabilities that the choice reads.
#[derive(Clone, Copy, Debug, PartialEq, Eq)]
pub struct SurfaceCapabilities {
    pub min_image_count: u32,
    /// Largest image count the surface takes; 0 means that there is no limit.
    pub max_image_count: u32,
    /// The surface's size, or a width of `u32::MAX` where the swap chain decides it.
    pub current_extent: Extent2D,
    pub current_transform: u32,
    pub supported_composite_alpha: u32,
}

/// The parameters a swap chain is to be created with.
#[derive(Clone, Copy, Debug, PartialEq, Eq)]
pub struct SwapchainPlan {
    pub image_count: u32,
    pub format: SurfaceFormat,
    pub extent: Extent2D,
    pub pre_transform: u32,
    pub composite_alpha: u32,
    pub present_mode: i32,
}

/// The format the overlay would like best.
pub open spec fn preferred_format() -> SurfaceFormat {
    SurfaceFormat { format: FORMAT_B8G8R8A8_UNORM, color_space: COLOR_SPACE_SRGB_NONLINEAR }
}

/// The preferred format where it is among those the surface reports,
/// otherwise the first format reported. `None` only for an empty report.
pub open spec fn surface_format_choice(formats: Seq<SurfaceFormat>) -> Option<SurfaceFormat> {
    if formats.len() == 0 {
        None
    } else if formats.contains(preferred_format()) {
        Some(preferred_format())
    } else {
        Some(formats[0])
    }
}

/// Mailbox where the surface offers it, otherwise FIFO.
pub open spec fn present_mode_choice(modes: Seq<i32>) -> i32 {
    if modes.contains(PRESENT_MODE_MAILBOX) {
        PRESENT_MODE_MAILBOX
    } else {
        PRESENT_MODE_FIFO
    }
}

/// The surface's own extent where it has one, otherwise the window's.
pub open spec fn extent_choice(current: Extent2D, window: Extent2D) -> Extent2D {
    if current.width != u32::MAX {
        current
    } else {
        window
    }
}

/// One image more than the minimum, but no more than the maximum, where a
/// maximum of 0 stands for no limit but the width of the count itself.
pub open spec fn image_count_choice(min_image_count: u32, max_image_count: u32) -> int {
    let limit: int = if max_image_count > 0 { max_image_count as int } else { u32::MAX as int };
    if min_image_count + 1 > limit {
        limit
    } else {
        min_image_count + 1
    }
}

/// The first supported mode in the order pre-multiplied, post-multiplied,
/// inherit; opaque where the surface supports none of the three.
pub open spec fn composite_alpha_choice(supported: u32) -> u32 {
    if has_all(supported, COMPOSITE_ALPHA_PRE_MULTIPLIED) {
        COMPOSITE_ALPHA_PRE_MULTIPLIED
    } else if has_all(supported, COMPOSITE_ALPHA_POST_MULTIPLIED) {
        COMPOSITE_ALPHA_POST_MULTIPLIED
    } else if has_all(supported, COMPOSITE_ALPHA_INHERIT) {
        COMPOSITE_ALPHA_INHERIT
    } else {
        COMPOSITE_ALPHA_OPAQUE
    }
}

/// The plan made from a surface's report, where it offers a format at all.
pub open spec fn swapchain_plan(
    capabilities: SurfaceCapabilities,
    formats: Seq<SurfaceFormat>,
    present_modes: Seq<i32>,
    window: Extent2D,
) -> SwapchainPlan
    recommends
        formats.len() > 0,
{
    SwapchainPlan {
        image_count: image_count_choice(
            capabilities.min_image_count,
            capabilities.max_image_count,
        ) as u32,
        format: surface_format_choice(formats)->0,
        extent: extent_choice(capabilities.current_extent, window),
        pre_transform: capabilities.current_transform,
        composite_alpha: composite_alpha_choice(capabilities.supported_composite_alpha),
        present_mode: present_mode_choice(present_modes),
    }
}

pub fn choose_surface_format(formats: &Vec<SurfaceFormat>) -> (choice: Option<SurfaceFormat>)
    ensures
        choice == surface_format_choice(formats@),
{
    let preferred = SurfaceFormat {
        format: FORMAT_B8G8R8A8_UNORM,
        color_space: COLOR_SPACE_SRGB_NONLINEAR,
    };
    if formats.len() == 0 {
        return None;
    }
    let mut i: usize = 0;
    while i < formats.len()
        invariant
            i <= formats.len(),
            preferred == preferred_format(),
            forall|j: int| 0 <= j < i ==> formats@[j] != preferred,
        decreases formats.len() - i,
    {
        let candidate = formats[i];
        if candidate.format == preferred.format && candidate.color_space == preferred.color_space {
            assert(formats@[i as int] == preferred);
            return Some(preferred);
        }
        i += 1;
    }
    Some(formats[0])
}

pub fn choose_present_mode(modes: &Vec<i32>) -> (mode: i32)
    ensures
        mode == present_mode_choice(modes@),
{
    let mut i: usize = 0;
    while i < modes.len()
        invariant
            i <= modes.len(),
            forall|j: int| 0 <= j < i ==> modes@[j] != PRESENT_MODE_MAILBOX,
        decreases modes.len() - i,
    {
        if modes[i] == PRESENT_MODE_MAILBOX {
            return PRESENT_MODE_MAILBOX;
        }
        i += 1;
    }
    PRESENT_MODE_FIFO
}

pub fn choose_extent(current: Extent2D, window: Extent2D) -> (extent: Extent2D)
    ensures
        extent == extent_choice(current, window),
{
    if current.width != u32::MAX {
        current
    } else {
        window
    }
}

pub fn choose_image_count(min_image_count: u32, max_image_count: u32) -> (count: u32)
    ensures
        count == image_count_choice(min_image_count, max_image_count),
{
    let limit: u32 = if max_image_count > 0 { max_image_count } else { u32::MAX };
    if min_image_count >= limit {
        limit
    } else {
        min_image_count + 1
    }
}

pub fn choose_composite_alpha(supported: u32) -> (mode: u32)
    ensures
        mode == composite_alpha_choice(supported),
{
    if composite_alpha_contains(supported, COMPOSITE_ALPHA_PRE_MULTIPLIED) {
        COMPOSITE_ALPHA_PRE_MULTIPLIED
    } else if composite_alpha_contains(supported, COMPOSITE_ALPHA_POST_MULTIPLIED) {
        COMPOSITE_ALPHA_POST_MULTIPLIED
    } else if composite_alpha_contains(supported, COMPOSITE_ALPHA_INHERIT) {
        COMPOSITE_ALPHA_INHERIT
    } else {
        COMPOSITE_ALPHA_OPAQUE
    }
}

/// Decides every parameter of the swap chain from the surface's report.
/// Fails only where the surface reports no format.
pub fn plan_swapchain(
    capabilities: &SurfaceCapabilities,
    formats: &Vec<SurfaceFormat>,
    present_modes: &Vec<i32>,
    window: Extent2D,
) -> (result: Result<SwapchainPlan, StartupError>)
    ensures
        formats@.len() == 0 ==> result == Err::<SwapchainPlan, StartupError>(
            StartupError::NoSurfaceFormat,
        ),
        formats@.len() > 0 ==> result == Ok::<SwapchainPlan, StartupError>(
            swapchain_plan(*capabilities, formats@, present_modes@, window),
        ),
{
    let format = match choose_surface_format(formats) {
        Some(format) => format,
        None => {
            return Err(StartupError::NoSurfaceFormat);
        },
    };
    Ok(
        SwapchainPlan {
            image_count: choose_image_count(
                capabilities.min_image_count,
                capabilities.max_image_count,
            ),
            format,
            extent: choose_extent(capabilities.current_extent, window),
            pre_transform: capabilities.current_transform,
            composite_alpha: choose_composite_alpha(capabilities.supported_composite_alpha),
            present_mode: choose_present_mode(present_modes),
        },
    )
}

} // verus!
