//! Whether a machine can decode AV1, from what its devices report.

use super::sequence::ParsedAv1SequenceHeader;
use super::skeleton::{build_av1_std_sequence_header, std_sequence_header, Av1StdSequenceHeader};
use crate::text::{decimal, decimal_text, join_text, joined, views};
use crate::vulkan::{is_listed, listed};
use vstd::arithmetic::power2::*;
use vstd::prelude::*;
use vstd::string::*;

verus! {

#[derive(Debug, Clone, Copy, PartialEq, Eq, Structural)]
pub struct Av1DecodeExtensionFlags {
    pub has_video_queue: bool,
    pub has_video_decode_queue: bool,
    pub has_video_decode_av1: bool,
}

impl Default for Av1DecodeExtensionFlags {
    fn default() -> (r: Self)
        ensures
            r == (Av1DecodeExtensionFlags {
                has_video_queue: false,
                has_video_decode_queue: false,
                has_video_decode_av1: false,
            }),
    {
        Av1DecodeExtensionFlags {
            has_video_queue: false,
            has_video_decode_queue: false,
            has_video_decode_av1: false,
        }
    }
}

impl Av1DecodeExtensionFlags {
    pub open spec fn complete(self) -> bool {
        self.has_video_queue && self.has_video_decode_queue && self.has_video_decode_av1
    }

    /// What either has.
    pub open spec fn joined_with(self, other: Self) -> Self {
        Av1DecodeExtensionFlags {
            has_video_queue: self.has_video_queue || other.has_video_queue,
            has_video_decode_queue: self.has_video_decode_queue || other.has_video_decode_queue,
            has_video_decode_av1: self.has_video_decode_av1 || other.has_video_decode_av1,
        }
    }

    /// The names of the extensions that are not there.
    pub open spec fn missing(self) -> Seq<Seq<char>> {
        let first = if self.has_video_queue { Seq::empty() } else { seq!["VK_KHR_video_queue"@] };
        let second = if self.has_video_decode_queue {
            first
        } else {
            first.push("VK_KHR_video_decode_queue"@)
        };
        if self.has_video_decode_av1 { second } else { second.push("VK_KHR_video_decode_av1"@) }
    }

    /// What a device offers, given the names of its extensions.
    pub fn from_names(names: &Vec<String>) -> (r: Self)
        ensures
            r.has_video_queue == listed(names@, "VK_KHR_video_queue"@),
            r.has_video_decode_queue == listed(names@, "VK_KHR_video_decode_queue"@),
            r.has_video_decode_av1 == listed(names@, "VK_KHR_video_decode_av1"@),
    {
        Av1DecodeExtensionFlags {
            has_video_queue: is_listed(names, "VK_KHR_video_queue"),
            has_video_decode_queue: is_listed(names, "VK_KHR_video_decode_queue"),
            has_video_decode_av1: is_listed(names, "VK_KHR_video_decode_av1"),
        }
    }

    pub fn supports_av1_decode(self) -> (r: bool)
        ensures
            r == self.complete(),
    {
        self.has_video_queue && self.has_video_decode_queue && self.has_video_decode_av1
    }

    pub fn union_assign(&mut self, other: Self)
        ensures
            *final(self) == old(self).joined_with(other),
    {
        self.has_video_queue = self.has_video_queue || other.has_video_queue;
        self.has_video_decode_queue = self.has_video_decode_queue || other.has_video_decode_queue;
        self.has_video_decode_av1 = self.has_video_decode_av1 || other.has_video_decode_av1;
    }

    pub fn missing_extensions(self) -> (r: Vec<String>)
        ensures
            views(r@) == self.missing(),
    {
        let mut out: Vec<String> = Vec::new();
        if !self.has_video_queue {
            out.push(String::from_str("VK_KHR_video_queue"));
        }
        if !self.has_video_decode_queue {
            out.push(String::from_str("VK_KHR_video_decode_queue"));
        }
        if !self.has_video_decode_av1 {
            out.push(String::from_str("VK_KHR_video_decode_av1"));
        }
        assert(views(out@) =~= self.missing());
        out
    }
}

/// What one device offers.
#[derive(Debug, Clone, Copy, PartialEq, Eq, Structural)]
pub struct Av1AdapterDecodeSupport {
    pub extensions: Av1DecodeExtensionFlags,
    pub decode_queue_family_index: Option<u32>,
}

#[derive(Debug, Clone, PartialEq, Eq)]
pub enum Av1DecodePrerequisiteProbe {
    Ready,
    MissingExtensions { missing: Vec<String> },
    MissingDecodeQueueFamily,
    NoCompatibleAdapter,
    SessionBootstrapFailed(String),
    ProbeUnavailable(String),
}

/// What has been seen of the devices so far, with what went wrong on those that were
/// tried.
#[derive(Debug)]
pub struct Av1DecodeProbe {
    pub observed_extensions: Av1DecodeExtensionFlags,
    pub observed_decode_queue: bool,
    pub errors: Vec<String>,
}

/// What the devices come to when none of them could be used.
pub open spec fn probe_outcome_is(
    extensions: Av1DecodeExtensionFlags,
    queue: bool,
    errors: Seq<Seq<char>>,
    outcome: Av1DecodePrerequisiteProbe,
) -> bool {
    if extensions.missing().len() > 0 {
        outcome matches Av1DecodePrerequisiteProbe::MissingExtensions { missing } && views(missing@)
            == extensions.missing()
    } else if !queue {
        outcome is MissingDecodeQueueFamily
    } else if errors.len() > 0 {
        outcome matches Av1DecodePrerequisiteProbe::SessionBootstrapFailed(details) && details@
            == joined(errors, "; "@)
    } else {
        outcome is NoCompatibleAdapter
    }
}

impl Av1DecodeProbe {
    pub fn new() -> (r: Self)
        ensures
            r.observed_extensions == (Av1DecodeExtensionFlags {
                has_video_queue: false,
                has_video_decode_queue: false,
                has_video_decode_av1: false,
            }),
            !r.observed_decode_queue,
            r.errors@.len() == 0,
    {
        Av1DecodeProbe {
            observed_extensions: Av1DecodeExtensionFlags::default(),
            observed_decode_queue: false,
            errors: Vec::new(),
        }
    }

    /// Takes note of a device. The result is the queue family to try, if the device
    /// is worth trying.
    pub fn observe(&mut self, support: Av1AdapterDecodeSupport) -> (r: Option<u32>)
        ensures
            final(self).observed_extensions == old(self).observed_extensions.joined_with(
                support.extensions,
            ),
            final(self).observed_decode_queue == (old(self).observed_decode_queue
                || support.decode_queue_family_index is Some),
            final(self).errors@ == old(self).errors@,
            r == (if support.extensions.complete() {
                support.decode_queue_family_index
            } else {
                None
            }),
    {
        self.observed_extensions.union_assign(support.extensions);
        self.observed_decode_queue = self.observed_decode_queue
            || support.decode_queue_family_index.is_some();
        if support.extensions.supports_av1_decode() {
            support.decode_queue_family_index
        } else {
            None
        }
    }

    /// Takes note that a device was tried in vain.
    pub fn fail(&mut self, error: String)
        ensures
            final(self).observed_extensions == old(self).observed_extensions,
            final(self).observed_decode_queue == old(self).observed_decode_queue,
            final(self).errors@ == old(self).errors@.push(error),
    {
        self.errors.push(error);
    }

    /// What the devices come to when none of them could be used.
    pub fn finish(&self) -> (r: Av1DecodePrerequisiteProbe)
        ensures
            probe_outcome_is(
                self.observed_extensions,
                self.observed_decode_queue,
                views(self.errors@),
                r,
            ),
    {
        let missing = self.observed_extensions.missing_extensions();
        assert(views(missing@).len() == missing@.len());
        if missing.len() > 0 {
            return Av1DecodePrerequisiteProbe::MissingExtensions { missing };
        }
        if !self.observed_decode_queue {
            return Av1DecodePrerequisiteProbe::MissingDecodeQueueFamily;
        }
        if self.errors.len() > 0 {
            return Av1DecodePrerequisiteProbe::SessionBootstrapFailed(
                join_text(&self.errors, "; "),
            );
        }
        Av1DecodePrerequisiteProbe::NoCompatibleAdapter
    }
}

// ---------------------------------------------------------------------------
// Capabilities

#[derive(Debug)]
pub struct Av1DecodeCapabilitySnapshot {
    pub min_coded_width: u32,
    pub min_coded_height: u32,
    pub max_coded_width: u32,
    pub max_coded_height: u32,
    pub min_bitstream_buffer_offset_alignment: u64,
    pub min_bitstream_buffer_size_alignment: u64,
    pub max_dpb_slots: u32,
    pub max_active_reference_pictures: u32,
    pub max_level: u32,
    pub decode_output_formats: Vec<i32>,
}

pub open spec fn extent_chars(width: u32, height: u32) -> Seq<char> {
    decimal(width as nat) + "x"@ + decimal(height as nat)
}

pub fn extent_text(width: u32, height: u32) -> (r: String)
    ensures
        r@ == extent_chars(width, height),
{
    decimal_text(width as u64).concat("x").concat(decimal_text(height as u64).as_str())
}

impl Av1DecodeCapabilitySnapshot {
    /// Why the capabilities make no sense, if they do not.
    pub open spec fn fault(self) -> Option<Seq<char>> {
        if self.decode_output_formats@.len() == 0 {
            Some("AV1 decode capability query returned no output formats"@)
        } else if self.max_coded_width < self.min_coded_width || self.max_coded_height
            < self.min_coded_height {
            Some(
                "AV1 decode capability query returned invalid coded extent range: min="@
                    + extent_chars(self.min_coded_width, self.min_coded_height) + ", max="@
                    + extent_chars(self.max_coded_width, self.max_coded_height),
            )
        } else if self.min_coded_width == 0 || self.min_coded_height == 0 {
            Some(
                "AV1 decode capability query returned zero minimum coded extent: "@ + extent_chars(
                    self.min_coded_width,
                    self.min_coded_height,
                ),
            )
        } else if self.max_dpb_slots == 0 {
            Some("AV1 decode capability query returned max_dpb_slots=0"@)
        } else if self.max_active_reference_pictures > self.max_dpb_slots {
            Some(
                "AV1 decode capability query returned max_active_reference_pictures="@ + decimal(
                    self.max_active_reference_pictures as nat,
                ) + " greater than max_dpb_slots="@ + decimal(self.max_dpb_slots as nat),
            )
        } else {
            None
        }
    }

    /// An image of this size can be decoded.
    pub open spec fn admits(self, width: u32, height: u32) -> bool {
        self.min_coded_width <= width <= self.max_coded_width && self.min_coded_height <= height
            <= self.max_coded_height
    }

    pub open spec fn extent_fault(self, width: u32, height: u32) -> Seq<char> {
        "AV1 bitstream coded extent "@ + extent_chars(width, height)
            + " is outside adapter range "@ + extent_chars(
            self.min_coded_width,
            self.min_coded_height,
        ) + ".."@ + extent_chars(self.max_coded_width, self.max_coded_height)
    }
}

pub fn validate_av1_decode_capability_snapshot(snapshot: &Av1DecodeCapabilitySnapshot) -> (r: Result<
    (),
    String,
>)
    ensures
        match snapshot.fault() {
            None => r is Ok,
            Some(e) => r matches Err(m) && m@ == e,
        },
{
    if snapshot.decode_output_formats.len() == 0 {
        return Err(String::from_str("AV1 decode capability query returned no output formats"));
    }
    if snapshot.max_coded_width < snapshot.min_coded_width || snapshot.max_coded_height
        < snapshot.min_coded_height {
        return Err(
            String::from_str(
                "AV1 decode capability query returned invalid coded extent range: min=",
            ).concat(
                extent_text(snapshot.min_coded_width, snapshot.min_coded_height).as_str(),
            ).concat(", max=").concat(
                extent_text(snapshot.max_coded_width, snapshot.max_coded_height).as_str(),
            ),
        );
    }
    if snapshot.min_coded_width == 0 || snapshot.min_coded_height == 0 {
        return Err(
            String::from_str(
                "AV1 decode capability query returned zero minimum coded extent: ",
            ).concat(extent_text(snapshot.min_coded_width, snapshot.min_coded_height).as_str()),
        );
    }
    if snapshot.max_dpb_slots == 0 {
        return Err(String::from_str("AV1 decode capability query returned max_dpb_slots=0"));
    }
    if snapshot.max_active_reference_pictures > snapshot.max_dpb_slots {
        return Err(
            String::from_str(
                "AV1 decode capability query returned max_active_reference_pictures=",
            ).concat(
                decimal_text(snapshot.max_active_reference_pictures as u64).as_str(),
            ).concat(" greater than max_dpb_slots=").concat(
                decimal_text(snapshot.max_dpb_slots as u64).as_str(),
            ),
        );
    }
    Ok(())
}

/// The output format to decode a bitstream of this size into, or why the device
/// cannot.
pub fn select_av1_bitstream_output(
    snapshot: &Av1DecodeCapabilitySnapshot,
    coded_width: u32,
    coded_height: u32,
) -> (r: Result<i32, String>)
    ensures
        match snapshot.fault() {
            Some(e) => r matches Err(m) && m@ == e,
            None => if snapshot.admits(coded_width, coded_height) {
                r == Ok::<i32, String>(snapshot.decode_output_formats@[0])
            } else {
                r matches Err(m) && m@ == snapshot.extent_fault(coded_width, coded_height)
            },
        },
{
    validate_av1_decode_capability_snapshot(snapshot)?;
    if coded_width < snapshot.min_coded_width || coded_width > snapshot.max_coded_width
        || coded_height < snapshot.min_coded_height || coded_height > snapshot.max_coded_height {
        return Err(
            String::from_str("AV1 bitstream coded extent ").concat(
                extent_text(coded_width, coded_height).as_str(),
            ).concat(" is outside adapter range ").concat(
                extent_text(snapshot.min_coded_width, snapshot.min_coded_height).as_str(),
            ).concat("..").concat(
                extent_text(snapshot.max_coded_width, snapshot.max_coded_height).as_str(),
            ),
        );
    }
    Ok(snapshot.decode_output_formats[0])
}

/// The message when no device could decode a bitstream.
pub open spec fn session_probe_failure(errors: Seq<Seq<char>>) -> Seq<char> {
    if errors.len() == 0 {
        "no compatible Vulkan AV1 decode adapter found for bitstream session probe"@
    } else {
        "AV1 bitstream session probe failed on all candidate adapters: "@ + joined(errors, "; "@)
    }
}

pub fn session_probe_failure_text(errors: &Vec<String>) -> (r: String)
    ensures
        r@ == session_probe_failure(views(errors@)),
{
    if errors.len() == 0 {
        String::from_str(
            "no compatible Vulkan AV1 decode adapter found for bitstream session probe",
        )
    } else {
        String::from_str(
            "AV1 bitstream session probe failed on all candidate adapters: ",
        ).concat(join_text(errors, "; ").as_str())
    }
}

/// Sixteen, moved into the range.
pub fn preferred_av1_probe_extent(min: u32, max: u32) -> (r: u32)
    requires
        min <= max,
    ensures
        r == (if min > 16 {
            min
        } else if max < 16 {
            max
        } else {
            16
        }),
        min <= r <= max,
{
    if min > 16 {
        min
    } else if max < 16 {
        max
    } else {
        16
    }
}

/// The position of the highest bit that is set in a positive number.
pub open spec fn high_bit(n: nat) -> nat
    decreases n,
{
    if n < 2 { 0 } else { 1 + high_bit(n / 2) }
}

proof fn lemma_high_bit_bound(n: nat, bits: nat)
    requires
        0 < bits,
        n < pow2(bits),
    ensures
        high_bit(n) < bits,
    decreases n,
{
    if n >= 2 {
        lemma_pow2_unfold(bits);
        if bits == 1 {
            lemma2_to64();
        }
        lemma_high_bit_bound(n / 2, (bits - 1) as nat);
    }
}

fn highest_bit(n: u32) -> (r: u8)
    requires
        n > 0,
    ensures
        r == high_bit(n as nat),
{
    proof {
        lemma2_to64();
        lemma_high_bit_bound(n as nat, 32);
    }
    let mut rest: u32 = n;
    let mut bits: u8 = 0;
    while rest > 1
        invariant
            0 < rest <= n,
            bits + high_bit(rest as nat) == high_bit(n as nat),
            high_bit(n as nat) <= 31,
        decreases rest,
    {
        rest = rest / 2;
        bits = bits + 1;
    }
    bits
}

/// The header of a still picture of a size, as the smallest one that describes it.
pub open spec fn probe_header(width: u32, height: u32) -> ParsedAv1SequenceHeader {
    ParsedAv1SequenceHeader {
        seq_profile: 0,
        still_picture: true,
        reduced_still_picture_header: true,
        frame_width_bits_minus_1: high_bit((width - 1) as nat) as u8,
        frame_height_bits_minus_1: high_bit((height - 1) as nat) as u8,
        max_frame_width_minus_1: (width - 1) as u32,
        max_frame_height_minus_1: (height - 1) as u32,
        use_128x128_superblock: false,
        enable_filter_intra: false,
        enable_intra_edge_filter: false,
    }
}

pub fn build_probe_av1_std_sequence_header(coded_width: u32, coded_height: u32) -> (r: Result<
    Av1StdSequenceHeader,
    String,
>)
    requires
        coded_width > 0 && coded_height > 0 ==> coded_width > 1 && coded_height > 1,
    ensures
        if coded_width == 0 || coded_height == 0 {
            r matches Err(m) && m@
                == "AV1 probe sequence header dimensions must be positive, got "@ + extent_chars(
                coded_width,
                coded_height,
            )
        } else {
            match std_sequence_header(probe_header(coded_width, coded_height)) {
                Ok(header) => r == Ok::<Av1StdSequenceHeader, String>(header),
                Err(e) => r matches Err(m) && m@ == e,
            }
        },
{
    if coded_width == 0 || coded_height == 0 {
        return Err(
            String::from_str(
                "AV1 probe sequence header dimensions must be positive, got ",
            ).concat(extent_text(coded_width, coded_height).as_str()),
        );
    }
    let parsed = ParsedAv1SequenceHeader {
        seq_profile: 0,
        still_picture: true,
        reduced_still_picture_header: true,
        frame_width_bits_minus_1: highest_bit(coded_width - 1),
        frame_height_bits_minus_1: highest_bit(coded_height - 1),
        max_frame_width_minus_1: coded_width - 1,
        max_frame_height_minus_1: coded_height - 1,
        use_128x128_superblock: false,
        enable_filter_intra: false,
        enable_intra_edge_filter: false,
    };
    build_av1_std_sequence_header(&parsed)
}

// ---------------------------------------------------------------------------
// Session memory

#[derive(Debug, Clone, Copy, PartialEq, Eq, Structural)]
pub struct MemoryRequirement {
    pub size: u64,
    pub alignment: u64,
}

#[derive(Debug, Clone, Copy, PartialEq, Eq, Structural)]
pub struct Av1DecodeSessionBootstrapSummary {
    pub memory_requirement_count: usize,
    pub memory_total_size: u64,
    pub memory_max_alignment: u64,
    pub memory_bound_count: usize,
}

pub open spec fn total_size(list: Seq<MemoryRequirement>) -> nat
    decreases list.len(),
{
    if list.len() == 0 { 0 } else { total_size(list.drop_last()) + list.last().size as nat }
}

pub open spec fn max_alignment(list: Seq<MemoryRequirement>) -> u64
    decreases list.len(),
{
    if list.len() == 0 {
        0
    } else {
        let before = max_alignment(list.drop_last());
        if list.last().alignment > before { list.last().alignment } else { before }
    }
}

proof fn lemma_total_size_grows(list: Seq<MemoryRequirement>, n: int)
    requires
        0 <= n <= list.len(),
    ensures
        total_size(list.take(n)) <= total_size(list),
    decreases list.len(),
{
    if n < list.len() {
        lemma_total_size_grows(list.drop_last(), n);
        assert(list.drop_last().take(n) =~= list.take(n));
    } else {
        assert(list.take(n) =~= list);
    }
}

/// What the memory of a session comes to. Nothing is bound yet.
pub fn summarize_session_memory(requirements: &Vec<MemoryRequirement>) -> (r:
    Av1DecodeSessionBootstrapSummary)
    requires
        total_size(requirements@) <= u64::MAX,
    ensures
        r.memory_requirement_count == requirements@.len(),
        r.memory_total_size == total_size(requirements@),
        r.memory_max_alignment == max_alignment(requirements@),
        r.memory_bound_count == 0,
{
    let mut total: u64 = 0;
    let mut alignment: u64 = 0;
    let mut i: usize = 0;
    assert(requirements@.take(0) =~= Seq::empty());
    while i < requirements.len()
        invariant
            i <= requirements.len(),
            total_size(requirements@) <= u64::MAX,
            total == total_size(requirements@.take(i as int)),
            alignment == max_alignment(requirements@.take(i as int)),
        decreases requirements.len() - i,
    {
        proof {
            lemma_total_size_grows(requirements@, i + 1);
            assert(requirements@.take(i + 1).drop_last() =~= requirements@.take(i as int));
        }
        total = total + requirements[i].size;
        if requirements[i].alignment > alignment {
            alignment = requirements[i].alignment;
        }
        i = i + 1;
    }
    assert(requirements@.take(requirements@.len() as int) =~= requirements@);
    Av1DecodeSessionBootstrapSummary {
        memory_requirement_count: requirements.len(),
        memory_total_size: total,
        memory_max_alignment: alignment,
        memory_bound_count: 0,
    }
}

} // verus!
