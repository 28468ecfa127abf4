//! That choices among queues, memory and adapters are the first fitting ones, and that none
//! is missed; and that times of frames are evenly spaced.

use crate::backend::select::{chosen_adapter, first_suitable, VulkanAdapterReport};
use crate::backend::time::{frame_time, pts_step};
use crate::vulkan::{
    chosen_family, device_memory, first_memory_type, first_usable, first_with_operation, has_flags,
    host_memory, operations_stated, paired, usable, QueueFamily,
};
use vstd::prelude::*;

verus! {

// ---------------------------------------------------------------------------
// Flags

/// Flags are contained where none of the wanted bits is missing, whatever else is set.
pub proof fn law_no_wanted_flag_is_missing(flags: u32, wanted: u32, others: u32)
    ensures
        has_flags(flags, wanted) <==> wanted & !flags == 0,
        has_flags(flags, wanted) ==> has_flags(flags | others, wanted),
{
    assert((flags & wanted == wanted) == (wanted & !flags == 0)) by (bit_vector);
    assert(flags & wanted == wanted ==> (flags | others) & wanted == wanted) by (bit_vector);
}

// ---------------------------------------------------------------------------
// Memory

/// A type may be used: its bit is set among the allowed ones, and it has all the wanted
/// properties.
pub open spec fn type_fits(types: Seq<u32>, allowed: u32, wanted: u32, i: int) -> bool {
    0 <= i < types.len() && i < 32 && (allowed >> (i as u32)) & 1 == 1 && wanted & !types[i] == 0
}

proof fn lemma_memory(types: Seq<u32>, allowed: u32, wanted: u32, from: int)
    requires
        0 <= from,
    ensures
        match first_memory_type(types, allowed, wanted, from) {
            Some(i) => from <= i && type_fits(types, allowed, wanted, i as int) && forall|k: int|
                from <= k < i ==> !#[trigger] type_fits(types, allowed, wanted, k),
            None => forall|k: int| from <= k ==> !#[trigger] type_fits(types, allowed, wanted, k),
        },
    decreases types.len() - from,
{
    if from < types.len() {
        if from < 32 {
            let i = from as u32;
            assert((allowed & (1u32 << i) != 0) == ((allowed >> i) & 1 == 1)) by (bit_vector)
                requires
                    i < 32,
            ;
        }
        law_no_wanted_flag_is_missing(types[from], wanted, 0);
        lemma_memory(types, allowed, wanted, from + 1);
    }
}

/// The memory type that is chosen is the first one that fits, and there is none only where
/// none fits.
pub proof fn law_first_fitting_memory_type(types: Seq<u32>, allowed: u32, wanted: u32)
    ensures
        match first_memory_type(types, allowed, wanted, 0) {
            Some(i) => type_fits(types, allowed, wanted, i as int) && forall|k: int|
                0 <= k < i ==> !#[trigger] type_fits(types, allowed, wanted, k),
            None => forall|k: int| !#[trigger] type_fits(types, allowed, wanted, k),
        },
{
    lemma_memory(types, allowed, wanted, 0);
}

/// Some allowed type has the wanted properties.
pub open spec fn some_type_fits(types: Seq<u32>, allowed: u32, wanted: u32) -> bool {
    exists|k: int| type_fits(types, allowed, wanted, k)
}

/// Memory of the device is local to it (property 1) where an allowed type is, and otherwise
/// any allowed type; there is none only where no type is allowed.
pub proof fn law_device_memory_is_local_where_it_can_be(types: Seq<u32>, allowed: u32)
    ensures
        match device_memory(types, allowed) {
            Some(i) => if some_type_fits(types, allowed, 1) {
                type_fits(types, allowed, 1, i as int)
            } else {
                type_fits(types, allowed, 0, i as int)
            },
            None => !some_type_fits(types, allowed, 0),
        },
{
    law_first_fitting_memory_type(types, allowed, 1);
    law_first_fitting_memory_type(types, allowed, 0);
    if some_type_fits(types, allowed, 1) {
        let k = choose|k: int| type_fits(types, allowed, 1, k);
        assert(type_fits(types, allowed, 1, k));
    }
}

/// Memory of the host is visible to it and coherent (properties 2 and 4) where an allowed
/// type is both, visible where one is that, and otherwise it is chosen as for the device.
pub proof fn law_host_memory_is_visible_where_it_can_be(types: Seq<u32>, allowed: u32)
    ensures
        match host_memory(types, allowed) {
            Some(i) => if some_type_fits(types, allowed, 6) {
                type_fits(types, allowed, 6, i as int)
            } else if some_type_fits(types, allowed, 2) {
                type_fits(types, allowed, 2, i as int)
            } else if some_type_fits(types, allowed, 1) {
                type_fits(types, allowed, 1, i as int)
            } else {
                type_fits(types, allowed, 0, i as int)
            },
            None => !some_type_fits(types, allowed, 0),
        },
{
    law_first_fitting_memory_type(types, allowed, 6);
    law_first_fitting_memory_type(types, allowed, 2);
    law_device_memory_is_local_where_it_can_be(types, allowed);
    if some_type_fits(types, allowed, 6) {
        let k = choose|k: int| type_fits(types, allowed, 6, k);
        assert(type_fits(types, allowed, 6, k));
    }
    if some_type_fits(types, allowed, 2) {
        let k = choose|k: int| type_fits(types, allowed, 2, k);
        assert(type_fits(types, allowed, 2, k));
    }
}

// ---------------------------------------------------------------------------
// Queues

/// A family has a queue and all of the wanted flags.
pub open spec fn family_fits(families: Seq<QueueFamily>, flag: u32, i: int) -> bool {
    0 <= i < families.len() && families[i].queue_count > 0 && flag & !families[i].queue_flags == 0
}

/// A family fits and is known to do the operation.
pub open spec fn family_does(
    families: Seq<QueueFamily>,
    operations: Seq<u32>,
    flag: u32,
    operation: u32,
    i: int,
) -> bool {
    family_fits(families, flag, i) && i < operations.len() && operation & !operations[i] == 0
}

proof fn lemma_usable(family: QueueFamily, flag: u32)
    ensures
        usable(family, flag) <==> family.queue_count > 0 && flag & !family.queue_flags == 0,
{
    law_no_wanted_flag_is_missing(family.queue_flags, flag, 0);
}

proof fn lemma_first_doing(
    families: Seq<QueueFamily>,
    operations: Seq<u32>,
    flag: u32,
    operation: u32,
    from: int,
)
    requires
        0 <= from <= paired(families, operations),
    ensures
        ({
            let end = paired(families, operations);
            let found = first_with_operation(families, operations, flag, operation, from, end);
            &&& from <= found <= end
            &&& found < end ==> family_does(families, operations, flag, operation, found)
            &&& forall|k: int|
                from <= k < found ==> !#[trigger] family_does(
                    families,
                    operations,
                    flag,
                    operation,
                    k,
                )
        }),
    decreases paired(families, operations) - from,
{
    if from < paired(families, operations) {
        lemma_usable(families[from], flag);
        law_no_wanted_flag_is_missing(operations[from], operation, 0);
        lemma_first_doing(families, operations, flag, operation, from + 1);
    }
}

proof fn lemma_first_fitting(families: Seq<QueueFamily>, flag: u32, from: int)
    requires
        0 <= from <= families.len(),
    ensures
        ({
            let found = first_usable(families, flag, from);
            &&& from <= found <= families.len()
            &&& found < families.len() ==> family_fits(families, flag, found)
            &&& forall|k: int| from <= k < found ==> !#[trigger] family_fits(families, flag, k)
        }),
    decreases families.len() - from,
{
    if from < families.len() {
        lemma_usable(families[from], flag);
        lemma_first_fitting(families, flag, from + 1);
    }
}

/// The first family that is known to do the operation is chosen. Where none is, and some
/// fitting family is known to do something, there is no choice; where nothing is known, the
/// first fitting family is chosen.
pub proof fn law_first_fitting_queue_family(
    families: Seq<QueueFamily>,
    operations: Seq<u32>,
    flag: u32,
    operation: u32,
)
    requires
        families.len() <= u32::MAX,
    ensures
        match chosen_family(families, operations, flag, operation) {
            Some(i) => {
                ||| family_does(families, operations, flag, operation, i as int) && forall|k: int|
                    0 <= k < i ==> !#[trigger] family_does(
                        families,
                        operations,
                        flag,
                        operation,
                        k,
                    )
                ||| family_fits(families, flag, i as int) && (forall|k: int|
                    0 <= k < i ==> !#[trigger] family_fits(families, flag, k)) && (forall|k: int|
                    !#[trigger] family_does(families, operations, flag, operation, k)) && (forall|
                    k: int,
                |
                    #[trigger] family_fits(families, flag, k) && k < operations.len()
                        ==> operations[k] == 0)
            },
            None => {
                &&& forall|k: int|
                    !#[trigger] family_does(families, operations, flag, operation, k)
                &&& (forall|k: int| !#[trigger] family_fits(families, flag, k)) || exists|k: int|
                    #[trigger] family_fits(families, flag, k) && k < operations.len()
                        && operations[k] != 0
            },
        },
{
    let end = paired(families, operations);
    lemma_first_doing(families, operations, flag, operation, 0);
    lemma_first_fitting(families, flag, 0);
    let strict = first_with_operation(families, operations, flag, operation, 0, end);
    if strict >= end {
        assert forall|k: int| !#[trigger] family_does(families, operations, flag, operation, k) by {
            if 0 <= k < end {
            }
        }
        if operations_stated(families, operations, flag) {
            let i = choose|i: int|
                0 <= i < end && usable(#[trigger] families[i], flag) && operations[i] != 0;
            lemma_usable(families[i], flag);
            assert(family_fits(families, flag, i));
        } else {
            assert forall|k: int| #[trigger]
                family_fits(families, flag, k) && k < operations.len() implies operations[k]
                == 0 by {
                lemma_usable(families[k], flag);
            }
        }
    }
}

// ---------------------------------------------------------------------------
// Adapters

/// An adapter can do all that is required.
pub open spec fn adapter_suits(
    adapters: Seq<VulkanAdapterReport>,
    decode: bool,
    encode: bool,
    i: int,
) -> bool {
    0 <= i < adapters.len() && (decode ==> adapters[i].supports_decoding) && (encode
        ==> adapters[i].supports_encoding)
}

proof fn lemma_first_adapter(
    adapters: Seq<VulkanAdapterReport>,
    decode: bool,
    encode: bool,
    from: int,
)
    requires
        0 <= from <= adapters.len(),
    ensures
        ({
            let found = first_suitable(adapters, decode, encode, from);
            &&& from <= found <= adapters.len()
            &&& found < adapters.len() ==> adapter_suits(adapters, decode, encode, found)
            &&& forall|k: int|
                from <= k < found ==> !#[trigger] adapter_suits(adapters, decode, encode, k)
        }),
    decreases adapters.len() - from,
{
    if from < adapters.len() {
        lemma_first_adapter(adapters, decode, encode, from + 1);
    }
}

/// An adapter that is asked for is chosen if and only if it can do what is required, and no
/// other in its place. Where none is asked for, the first that can is chosen, and there
/// is no choice only where none can.
pub proof fn law_first_suitable_adapter(
    adapters: Seq<VulkanAdapterReport>,
    decode: bool,
    encode: bool,
    wanted: Option<usize>,
)
    requires
        adapters.len() <= usize::MAX,
    ensures
        match (wanted, chosen_adapter(adapters, decode, encode, wanted)) {
            (Some(index), Ok(i)) => i == index && adapter_suits(
                adapters,
                decode,
                encode,
                index as int,
            ),
            (Some(index), Err(_)) => !adapter_suits(adapters, decode, encode, index as int),
            (None, Ok(i)) => adapter_suits(adapters, decode, encode, i as int) && forall|k: int|
                0 <= k < i ==> !#[trigger] adapter_suits(adapters, decode, encode, k),
            (None, Err(_)) => forall|k: int| !#[trigger]
                adapter_suits(adapters, decode, encode, k),
        },
{
    lemma_first_adapter(adapters, decode, encode, 0);
}

// ---------------------------------------------------------------------------
// Times

/// The time of a frame is the longest that fits as often as there are frames into a second
/// of ninety thousand ticks; with no rate there are thirty frames.
pub proof fn law_frames_fill_a_second(fps: i32)
    ensures
        fps > 0 ==> pts_step(fps) * fps <= 90_000 < (pts_step(fps) + 1) * fps,
        fps <= 0 ==> pts_step(fps) * 30 == 90_000,
{
    if fps > 0 {
        let f = fps as int;
        let q = 90_000int / f;
        vstd::arithmetic::div_mod::lemma_fundamental_div_mod(90_000, f);
        assert(0 <= 90_000int % f < f) by (nonlinear_arith)
            requires
                f > 0,
        ;
        assert(q * f <= 90_000 < (q + 1) * f && 0 <= q <= 90_000) by (nonlinear_arith)
            requires
                90_000int == f * q + 90_000int % f,
                0 <= 90_000int % f < f,
                f > 0,
        ;
    }
}

/// Frames are one step apart, as far as times can be told.
pub proof fn law_frames_are_one_step_apart(start: i64, i: int, step: i64)
    requires
        0 <= i <= i64::MAX,
        0 <= step,
    ensures
        frame_time(start, 0, step) == start,
        i * step <= i64::MAX && start + i * step <= i64::MAX ==> frame_time(start, i, step) == start
            + i * step,
        start >= 0 && start + i * step > i64::MAX ==> frame_time(start, i, step) == i64::MAX,
{
    assert(0 * (step as int) == 0);
    assert(i * step >= 0) by (nonlinear_arith)
        requires
            0 <= i,
            0 <= step,
    ;
}

} // verus!
