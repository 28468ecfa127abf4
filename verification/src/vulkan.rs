//! Choosing queue families, memory types and extensions from what a device reports.

use crate::text::{decimal, decimal_text, same_text, upper_hex, upper_hex_text};
use vstd::prelude::*;
use vstd::string::*;

verus! {

/// Queue families that decode video.
pub const QUEUE_VIDEO_DECODE: u32 = 0x20;

/// Queue families that encode video.
pub const QUEUE_VIDEO_ENCODE: u32 = 0x40;

pub const CODEC_OPERATION_DECODE_H265: u32 = 0x2;

pub const CODEC_OPERATION_DECODE_AV1: u32 = 0x4;

pub const CODEC_OPERATION_ENCODE_H265: u32 = 0x2_0000;

pub const MEMORY_DEVICE_LOCAL: u32 = 0x1;

pub const MEMORY_HOST_VISIBLE: u32 = 0x2;

pub const MEMORY_HOST_COHERENT: u32 = 0x4;

/// The image format with a luma plane and an interleaved chroma plane of half the
/// size in both directions.
pub const FORMAT_NV12: i32 = 1_000_156_003;

#[derive(Debug, Clone, Copy, PartialEq, Eq, Structural)]
pub struct QueueFamily {
    pub queue_count: u32,
    pub queue_flags: u32,
}

/// All the wanted flags are set.
pub open spec fn has_flags(flags: u32, wanted: u32) -> bool {
    flags & wanted == wanted
}

pub fn contains_flags(flags: u32, wanted: u32) -> (r: bool)
    ensures
        r == has_flags(flags, wanted),
{
    flags & wanted == wanted
}

/// The family has a queue of the wanted kind.
pub open spec fn usable(family: QueueFamily, flag: u32) -> bool {
    family.queue_count > 0 && has_flags(family.queue_flags, flag)
}

/// The first position from `from` on, below `end`, of a usable family that states the
/// operation; `end` where there is none.
pub open spec fn first_with_operation(
    families: Seq<QueueFamily>,
    operations: Seq<u32>,
    flag: u32,
    operation: u32,
    from: int,
    end: int,
) -> int
    decreases end - from,
{
    if from >= end {
        end
    } else if usable(families[from], flag) && has_flags(operations[from], operation) {
        from
    } else {
        first_with_operation(families, operations, flag, operation, from + 1, end)
    }
}

/// The first position from `from` on of a usable family; the number of families where
/// there is none.
pub open spec fn first_usable(families: Seq<QueueFamily>, flag: u32, from: int) -> int
    decreases families.len() - from,
{
    if from >= families.len() {
        families.len() as int
    } else if usable(families[from], flag) {
        from
    } else {
        first_usable(families, flag, from + 1)
    }
}

/// How many families have their operations stated.
pub open spec fn paired(families: Seq<QueueFamily>, operations: Seq<u32>) -> int {
    if families.len() < operations.len() {
        families.len() as int
    } else {
        operations.len() as int
    }
}

/// Whether any usable family states its operations at all.
pub open spec fn operations_stated(
    families: Seq<QueueFamily>,
    operations: Seq<u32>,
    flag: u32,
) -> bool {
    exists|i: int|
        0 <= i < paired(families, operations) && usable(#[trigger] families[i], flag)
            && operations[i] != 0
}

/// A position as an index, if it is below a limit and can be represented.
pub open spec fn index_below(position: int, limit: int) -> Option<u32> {
    if position < limit && position <= u32::MAX { Some(position as u32) } else { None }
}

/// The family that runs an operation: the first that states it. Where no usable
/// family states any operation, the first usable one is taken.
pub open spec fn chosen_family(
    families: Seq<QueueFamily>,
    operations: Seq<u32>,
    flag: u32,
    operation: u32,
) -> Option<u32> {
    let end = paired(families, operations);
    let strict = index_below(
        first_with_operation(families, operations, flag, operation, 0, end),
        end,
    );
    if strict is Some || operations_stated(families, operations, flag) {
        strict
    } else {
        index_below(first_usable(families, flag, 0), families.len() as int)
    }
}

fn position_index(position: usize, limit: usize) -> (r: Option<u32>)
    ensures
        r == index_below(position as int, limit as int),
{
    if position < limit && position as u64 <= 0xffff_ffff { Some(position as u32) } else { None }
}

pub fn find_video_codec_queue_family_index(
    queue_families: &Vec<QueueFamily>,
    codec_operations: &Vec<u32>,
    required_queue_flag: u32,
    required_codec_operation: u32,
) -> (r: Option<u32>)
    ensures
        r == chosen_family(
            queue_families@,
            codec_operations@,
            required_queue_flag,
            required_codec_operation,
        ),
{
    let end: usize = if queue_families.len() < codec_operations.len() {
        queue_families.len()
    } else {
        codec_operations.len()
    };
    let mut stated: bool = false;
    let mut strict: usize = end;
    let mut i: usize = 0;
    while i < end
        invariant
            i <= end,
            end == paired(queue_families@, codec_operations@),
            stated <==> exists|k: int|
                0 <= k < i && usable(#[trigger] queue_families@[k], required_queue_flag)
                    && codec_operations@[k] != 0,
            strict < end ==> strict == first_with_operation(
                queue_families@,
                codec_operations@,
                required_queue_flag,
                required_codec_operation,
                0,
                end as int,
            ),
            strict <= end,
            strict == end ==> first_with_operation(
                queue_families@,
                codec_operations@,
                required_queue_flag,
                required_codec_operation,
                0,
                end as int,
            ) == first_with_operation(
                queue_families@,
                codec_operations@,
                required_queue_flag,
                required_codec_operation,
                i as int,
                end as int,
            ),
        decreases end - i,
    {
        let family = queue_families[i];
        if family.queue_count > 0 && contains_flags(family.queue_flags, required_queue_flag) {
            if codec_operations[i] != 0 {
                assert(usable(queue_families@[i as int], required_queue_flag));
                stated = true;
            }
            if strict == end && contains_flags(codec_operations[i], required_codec_operation) {
                strict = i;
            }
        }
        i = i + 1;
    }
    let found = position_index(strict, end);
    if found.is_some() || stated {
        return found;
    }
    let mut j: usize = 0;
    while j < queue_families.len()
        invariant
            j <= queue_families.len(),
            first_usable(queue_families@, required_queue_flag, 0) == first_usable(
                queue_families@,
                required_queue_flag,
                j as int,
            ),
            !operations_stated(queue_families@, codec_operations@, required_queue_flag),
            index_below(
                first_with_operation(
                    queue_families@,
                    codec_operations@,
                    required_queue_flag,
                    required_codec_operation,
                    0,
                    paired(queue_families@, codec_operations@),
                ),
                paired(queue_families@, codec_operations@),
            ) is None,
        decreases queue_families.len() - j,
    {
        let family = queue_families[j];
        if family.queue_count > 0 && contains_flags(family.queue_flags, required_queue_flag) {
            return position_index(j, queue_families.len());
        }
        j = j + 1;
    }
    None
}

// ---------------------------------------------------------------------------
// Memory types

/// Memory type `i` is allowed and has the wanted properties.
pub open spec fn memory_type_fits(properties: u32, allowed: u32, i: int, wanted: u32) -> bool {
    i < 32 && allowed & (1u32 << (i as u32)) != 0 && has_flags(properties, wanted)
}

/// The first memory type from `from` on that fits.
pub open spec fn first_memory_type(
    types: Seq<u32>,
    allowed: u32,
    wanted: u32,
    from: int,
) -> Option<u32>
    decreases types.len() - from,
{
    if from >= types.len() {
        None
    } else if memory_type_fits(types[from], allowed, from, wanted) {
        Some(from as u32)
    } else {
        first_memory_type(types, allowed, wanted, from + 1)
    }
}

/// The first memory type that is allowed and has the wanted properties.
pub fn select_memory_type_index(memory_types: &Vec<u32>, memory_type_bits: u32, required: u32) -> (r:
    Option<u32>)
    ensures
        r == first_memory_type(memory_types@, memory_type_bits, required, 0),
{
    let mut i: usize = 0;
    while i < memory_types.len()
        invariant
            i <= memory_types.len(),
            first_memory_type(memory_types@, memory_type_bits, required, 0) == first_memory_type(
                memory_types@,
                memory_type_bits,
                required,
                i as int,
            ),
        decreases memory_types.len() - i,
    {
        if i < 32 {
            let mask: u32 = 1u32 << (i as u32);
            if memory_type_bits & mask != 0 && contains_flags(memory_types[i], required) {
                return Some(i as u32);
            }
        }
        i = i + 1;
    }
    None
}

/// Memory on the device, or else any that is allowed.
pub open spec fn device_memory(types: Seq<u32>, allowed: u32) -> Option<u32> {
    match first_memory_type(types, allowed, MEMORY_DEVICE_LOCAL, 0) {
        Some(i) => Some(i),
        None => first_memory_type(types, allowed, 0, 0),
    }
}

pub fn select_device_memory(memory_types: &Vec<u32>, memory_type_bits: u32) -> (r: Option<u32>)
    ensures
        r == device_memory(memory_types@, memory_type_bits),
{
    match select_memory_type_index(memory_types, memory_type_bits, MEMORY_DEVICE_LOCAL) {
        Some(i) => Some(i),
        None => select_memory_type_index(memory_types, memory_type_bits, 0),
    }
}

/// Memory that the host sees without flushing, or else that it sees, or else on the
/// device, or else any that is allowed.
pub open spec fn host_memory(types: Seq<u32>, allowed: u32) -> Option<u32> {
    match first_memory_type(types, allowed, 6, 0) {
        Some(i) => Some(i),
        None => match first_memory_type(types, allowed, MEMORY_HOST_VISIBLE, 0) {
            Some(i) => Some(i),
            None => device_memory(types, allowed),
        },
    }
}

pub fn select_host_memory(memory_types: &Vec<u32>, memory_type_bits: u32) -> (r: Option<u32>)
    ensures
        r == host_memory(memory_types@, memory_type_bits),
{
    assert(MEMORY_HOST_VISIBLE | MEMORY_HOST_COHERENT == 6) by (bit_vector);
    match select_memory_type_index(
        memory_types,
        memory_type_bits,
        MEMORY_HOST_VISIBLE | MEMORY_HOST_COHERENT,
    ) {
        Some(i) => Some(i),
        None => match select_memory_type_index(
            memory_types,
            memory_type_bits,
            MEMORY_HOST_VISIBLE,
        ) {
            Some(i) => Some(i),
            None => select_device_memory(memory_types, memory_type_bits),
        },
    }
}

/// Why no memory can be bound to a session, if none can.
pub open spec fn session_memory_fault(operation: Seq<char>, bind_index: u32, allowed: u32) -> Seq<
    char,
> {
    "no compatible memory type for "@ + operation + " video session bind index "@ + decimal(
        bind_index as nat,
    ) + " (bits=0x"@ + upper_hex(allowed as nat) + ")"@
}

/// The memory type for a part of a session.
pub fn select_session_memory(
    operation: &str,
    bind_index: u32,
    memory_types: &Vec<u32>,
    memory_type_bits: u32,
) -> (r: Result<u32, String>)
    ensures
        match device_memory(memory_types@, memory_type_bits) {
            Some(i) => r == Ok::<u32, String>(i),
            None => r matches Err(m) && m@ == session_memory_fault(
                operation@,
                bind_index,
                memory_type_bits,
            ),
        },
{
    match select_device_memory(memory_types, memory_type_bits) {
        Some(i) => Ok(i),
        None => Err(
            String::from_str("no compatible memory type for ").concat(operation).concat(
                " video session bind index ",
            ).concat(decimal_text(bind_index as u64).as_str()).concat(" (bits=0x").concat(
                upper_hex_text(memory_type_bits as u64).as_str(),
            ).concat(")"),
        ),
    }
}

/// A memory type that is selected is allowed and has the wanted properties.
pub proof fn law_selected_memory_type_fits(types: Seq<u32>, allowed: u32, wanted: u32, from: int)
    requires
        0 <= from,
    ensures
        first_memory_type(types, allowed, wanted, from) matches Some(i) ==> i < types.len()
            && memory_type_fits(types[i as int], allowed, i as int, wanted),
    decreases types.len() - from,
{
    if from < types.len() && !memory_type_fits(types[from], allowed, from, wanted) {
        law_selected_memory_type_fits(types, allowed, wanted, from + 1);
    }
}

// ---------------------------------------------------------------------------
// Images

pub const IMAGE_USAGE_VIDEO_ENCODE_SRC: u32 = 0x4000;

pub const IMAGE_USAGE_VIDEO_ENCODE_DPB: u32 = 0x8000;

/// The usage of a view on an image: the video usage alone, where there is one.
pub fn encode_view_usage(usage: u32) -> (r: u32)
    ensures
        r == (if has_flags(usage, 0x8000) {
            0x8000u32
        } else if has_flags(usage, 0x4000) {
            0x4000u32
        } else {
            usage
        }),
{
    if contains_flags(usage, IMAGE_USAGE_VIDEO_ENCODE_DPB) {
        IMAGE_USAGE_VIDEO_ENCODE_DPB
    } else if contains_flags(usage, IMAGE_USAGE_VIDEO_ENCODE_SRC) {
        IMAGE_USAGE_VIDEO_ENCODE_SRC
    } else {
        usage
    }
}

// ---------------------------------------------------------------------------
// Messages

pub const SEVERITY_WARNING: u32 = 0x100;

pub const SEVERITY_ERROR: u32 = 0x1000;

/// How severe a validation message is.
pub open spec fn severity_name(severity: u32) -> Seq<char> {
    if has_flags(severity, 0x1000) {
        "error"@
    } else if has_flags(severity, 0x100) {
        "warn"@
    } else {
        "info"@
    }
}

/// A validation message with its severity.
pub fn validation_message(severity: u32, message: &str) -> (r: String)
    ensures
        r@ == "["@ + severity_name(severity) + "] "@ + message@,
{
    let name = if contains_flags(severity, SEVERITY_ERROR) {
        "error"
    } else if contains_flags(severity, SEVERITY_WARNING) {
        "warn"
    } else {
        "info"
    };
    String::from_str("[").concat(name).concat("] ").concat(message)
}

// ---------------------------------------------------------------------------
// Extensions

/// Whether a name stands in a list.
pub open spec fn listed(names: Seq<String>, name: Seq<char>) -> bool {
    exists|i: int| 0 <= i < names.len() && (#[trigger] names[i])@ == name
}

pub fn is_listed(names: &Vec<String>, name: &str) -> (r: bool)
    ensures
        r == listed(names@, name@),
{
    let mut i: usize = 0;
    while i < names.len()
        invariant
            i <= names.len(),
            forall|k: int| 0 <= k < i ==> (#[trigger] names@[k])@ != name@,
        decreases names.len() - i,
    {
        if same_text(names[i].as_str(), name) {
            assert(names@[i as int]@ == name@);
            return true;
        }
        i = i + 1;
    }
    false
}

} // verus!
