//! Bit masks of the graphics API, carried as plain integers.

use vstd::prelude::*;

verus! {

/// Every bit of `flag` is set in `bits`.
pub open spec fn has_flags(bits: u32, flag: u32) -> bool {
    bits & flag == flag
}

/// Whether a mask of sample counts holds every count of `flag`.
///
/// Calls `ash::vk::SampleCountFlags::contains` on the two masks. That function
/// compares the bitwise and of both with its argument, which is what the
/// contract says.
#[verifier::external_body]
pub(crate) fn sample_counts_contain(bits: u32, flag: u32) -> (found: bool)
    ensures
        found == has_flags(bits, flag),
{
    ash::vk::SampleCountFlags::from_raw(bits).contains(ash::vk::SampleCountFlags::from_raw(flag))
}

/// Whether a queue family's capabilities hold every capability of `flag`.
///
/// Calls `ash::vk::QueueFlags::contains`, which compares the bitwise and of
/// both masks with its argument.
#[verifier::external_body]
pub(crate) fn queue_flags_contain(bits: u32, flag: u32) -> (found: bool)
    ensures
        found == has_flags(bits, flag),
{
    ash::vk::QueueFlags::from_raw(bits).contains(ash::vk::QueueFlags::from_raw(flag))
}

/// Whether a format's features hold every feature of `flag`.
///
/// Calls `ash::vk::FormatFeatureFlags::contains`, which compares the bitwise
/// and of both masks with its argument.
#[verifier::external_body]
pub(crate) fn format_features_contain(bits: u32, flag: u32) -> (found: bool)
    ensures
        found == has_flags(bits, flag),
{
    ash::vk::FormatFeatureFlags::from_raw(bits).contains(
        ash::vk::FormatFeatureFlags::from_raw(flag),
    )
}

/// Whether a memory type's properties hold every property of `flag`.
///
/// Calls `ash::vk::MemoryPropertyFlags::contains`, which compares the bitwise
/// and of both masks with its argument.
#[verifier::external_body]
pub(crate) fn memory_properties_contain(bits: u32, flag: u32) -> (found: bool)
    ensures
        found == has_flags(bits, flag),
{
    ash::vk::MemoryPropertyFlags::from_raw(bits).contains(
        ash::vk::MemoryPropertyFlags::from_raw(flag),
    )
}

} // verus!
