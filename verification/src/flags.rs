//! Bit-mask tests on raw Vulkan flag words, answered by `ash`.
//!
//! The library carries flag sets as the `u32` words that `as_raw` yields.
//! Each test below rebuilds the typed flag set and asks `ash` itself.

use vstd::prelude::*;
use ash::vk;

verus! {

/// Whether every bit of `wanted` is set in `flags`.
pub open spec fn has_all(flags: u32, wanted: u32) -> bool {
    flags & wanted == wanted
}

/// `ash::vk::QueueFlags::contains` on raw flag words.
///
/// Trusted: ash defines `contains` as `self.0 & other.0 == other.0`, and
/// `from_raw` wraps the word unchanged.
#[verifier::external_body]
pub(crate) fn queue_flags_contain(flags: u32, wanted: u32) -> (r: bool)
    ensures
        r == has_all(flags, wanted),
{
    vk::QueueFlags::from_raw(flags).contains(vk::QueueFlags::from_raw(wanted))
}

/// `ash::vk::CompositeAlphaFlagsKHR::contains` on raw flag words.
///
/// Trusted: ash defines `contains` as `self.0 & other.0 == other.0`, and
/// `from_raw` wraps the word unchanged.
#[verifier::external_body]
pub(crate) fn composite_alpha_contains(flags: u32, wanted: u32) -> (r: bool)
    ensures
        r == has_all(flags, wanted),
{
    vk::CompositeAlphaFlagsKHR::from_raw(flags).contains(vk::CompositeAlphaFlagsKHR::from_raw(wanted))
}

/// `ash::vk::MemoryPropertyFlags::contains` on raw flag words.
///
/// Trusted: ash defines `contains` as `self.0 & other.0 == other.0`, and
/// `from_raw` wraps the word unchanged.
#[verifier::external_body]
pub(crate) fn memory_flags_contain(flags: u32, wanted: u32) -> (r: bool)
    ensures
        r == has_all(flags, wanted),
{
    vk::MemoryPropertyFlags::from_raw(flags).contains(vk::MemoryPropertyFlags::from_raw(wanted))
}

} // verus!
