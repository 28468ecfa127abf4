//! Names that the Vulkan bindings give to values.

use crate::text::joined;
use vstd::prelude::*;

verus! {

/// The name of an image format: what `ash::vk::Format` shows for a raw value, the
/// name of the format where it has one and the number where it has none.
pub uninterp spec fn format_name(raw: i32) -> Seq<char>;

/// Shows `ash::vk::Format::from_raw(raw)` by its `Debug` text. The text depends on
/// the raw value alone. What it is for a given value is not stated.
#[verifier::external_body]
pub(crate) fn format_name_text(raw: i32) -> (r: String)
    ensures
        r@ == format_name(raw),
{
    format!("{:?}", ash::vk::Format::from_raw(raw))
}

/// The names of image usages: what `ash::vk::ImageUsageFlags` shows for a raw value.
pub uninterp spec fn image_usage_name(raw: u32) -> Seq<char>;

/// Shows `ash::vk::ImageUsageFlags::from_raw(raw)` by its `Debug` text. The text
/// depends on the raw value alone. What it is for a given value is not stated.
#[verifier::external_body]
pub(crate) fn image_usage_name_text(raw: u32) -> (r: String)
    ensures
        r@ == image_usage_name(raw),
{
    format!("{:?}", ash::vk::ImageUsageFlags::from_raw(raw))
}

/// The names of HEVC syntax flags: what `ash::vk::VideoEncodeH265StdFlagsKHR` shows for a
/// raw value.
pub uninterp spec fn std_syntax_name(raw: u32) -> Seq<char>;

/// Shows `ash::vk::VideoEncodeH265StdFlagsKHR::from_raw(raw)` by its `Debug` text. The
/// text depends on the raw value alone. What it is for a given value is not stated.
#[verifier::external_body]
pub(crate) fn std_syntax_name_text(raw: u32) -> (r: String)
    ensures
        r@ == std_syntax_name(raw),
{
    format!("{:?}", ash::vk::VideoEncodeH265StdFlagsKHR::from_raw(raw))
}

/// A number in binary, without leading zeros.
pub open spec fn binary(n: nat) -> Seq<char>
    decreases n,
{
    if n < 2 {
        seq![if n == 0 { '0' } else { '1' }]
    } else {
        binary(n / 2).push(if n % 2 == 0 { '0' } else { '1' })
    }
}

/// One part where a condition holds, and none where it does not.
pub open spec fn part_if(given: bool, part: Seq<char>) -> Seq<Seq<char>> {
    if given { seq![part] } else { Seq::empty() }
}

/// The names of rate control modes: each mode that is set by its name, and the bits that
/// are no mode together in binary.
pub open spec fn rate_control_mode_name(raw: u32) -> Seq<char> {
    let others = raw & !7u32;
    joined(
        part_if(raw & 1 != 0, "DISABLED"@) + part_if(raw & 2 != 0, "CBR"@) + part_if(
            raw & 4 != 0,
            "VBR"@,
        ) + part_if(others != 0, binary(others as nat)),
        " | "@,
    )
}

/// Shows `ash::vk::VideoEncodeRateControlModeFlagsKHR::from_raw(raw)` by its `Debug`
/// text: the names of the modes that are set, then the other bits in binary, with bars
/// between them, and nothing where no bit is set.
#[verifier::external_body]
pub(crate) fn rate_control_mode_name_text(raw: u32) -> (r: String)
    ensures
        r@ == rate_control_mode_name(raw),
{
    format!("{:?}", ash::vk::VideoEncodeRateControlModeFlagsKHR::from_raw(raw))
}

} // verus!
