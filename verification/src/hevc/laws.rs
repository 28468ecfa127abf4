//! What the choices and plans of the encode probe amount to.

use super::encode::{
    chosen_qp, chosen_rate_control, effective_mode, last_items, ExtensionFlags, HevcSequenceParameters,
};
use super::modes::{
    HevcEncodeParameterMode, HevcEncodeProbeControlMode, HevcEncodeProbeRateControlMode,
};
use super::parity::{
    dst_prefix, HevcEncodeDstPrefixMode, HevcEncodeDstRangeMode, HevcEncodeVuiSafety,
};
use super::session::{by_score, pairs_upto, score};
use super::submit::{
    coding_control, dst_range, submit_plan, used_range, HevcEncodeProbeModes,
    HevcEncodeSubmitExecutionConfig,
};
use crate::av1::plan::{aligned, law_aligned};
use crate::order::{law_ordered_is_a_ranking, ordered};
use vstd::prelude::*;

verus! {

// ---------------------------------------------------------------------------
// Candidates

/// Candidates are tried by their scores, the highest first, and among equal ones the first
/// given comes first. Each is tried.
pub proof fn law_candidates_are_tried_by_score(scores: Seq<u32>)
    requires
        scores.len() <= usize::MAX,
    ensures
        ({
            let tried = Seq::new(scores.len(), |i: int| ordered(by_score(scores))[i].1);
            &&& forall|i: int| 0 <= i < scores.len() ==> (#[trigger] tried[i]) < scores.len()
            &&& forall|i: int, j: int|
                0 <= i < j < scores.len() ==> scores[(#[trigger] tried[i]) as int] > scores[(
                #[trigger] tried[j]) as int] || (scores[tried[i] as int] == scores[tried[j] as int]
                    && tried[i] < tried[j])
        }),
{
    let items = by_score(scores);
    let from = law_ordered_is_a_ranking(items);
    let all = ordered(items);
    let tried = Seq::new(scores.len(), |i: int| ordered(by_score(scores))[i].1);
    assert forall|i: int| 0 <= i < scores.len() implies (#[trigger] tried[i]) < scores.len()
        && tried[i] == from[i] by {
        assert(all[i] == items[from[i]]);
    }
    assert forall|i: int, j: int| 0 <= i < j < scores.len() implies scores[(
    #[trigger] tried[i]) as int] > scores[(#[trigger] tried[j]) as int] || (scores[tried[i] as int]
        == scores[tried[j] as int] && tried[i] < tried[j]) by {
        assert(items[from[i]].0 < items[from[j]].0 || (items[from[i]].0 == items[from[j]].0
            && from[i] < from[j]));
    }
}

/// A discrete device is better than one that is not, whatever else they offer; among equal
/// ones the feature counts before the extension.
pub proof fn law_discrete_devices_come_first(
    first: (bool, bool, bool),
    second: (bool, bool, bool),
)
    ensures
        first.0 && !second.0 ==> score(first.0, first.1, first.2) > score(
            second.0,
            second.1,
            second.2,
        ),
        first.0 == second.0 && first.1 && !second.1 ==> score(first.0, first.1, first.2) > score(
            second.0,
            second.1,
            second.2,
        ),
        first.0 == second.0 && first.1 == second.1 && first.2 && !second.2 ==> score(
            first.0,
            first.1,
            first.2,
        ) > score(second.0, second.1, second.2),
{
}

proof fn lemma_pairs(inputs: Seq<i32>, references: Seq<i32>, n: nat, i: int, k: int)
    requires
        0 <= i < n <= inputs.len(),
        0 <= k < references.len(),
    ensures
        pairs_upto(inputs, references, n).len() == n * references.len(),
        0 <= i * references.len() + k < n * references.len(),
        pairs_upto(inputs, references, n)[i * references.len() + k] == (inputs[i], references[k]),
    decreases n,
{
    let m = references.len();
    let before = pairs_upto(inputs, references, (n - 1) as nat);
    if n > 1 {
        lemma_pairs(inputs, references, (n - 1) as nat, if i < n - 1 {
            i
        } else {
            0
        }, k);
    } else {
        assert(before.len() == 0);
        assert(0 * m == 0);
    }
    assert((n - 1) * m + m == n * m) by (nonlinear_arith);
    if i == n - 1 {
        assert(pairs_upto(inputs, references, n)[i * m + k] == (inputs[n - 1], references[k]));
    } else {
        assert(pairs_upto(inputs, references, n)[i * m + k] == before[i * m + k]);
    }
    assert(0 <= i * m) by (nonlinear_arith)
        requires
            0 <= i,
    ;
}

/// Every input format is tried with every reference format, one input after the other.
pub proof fn law_all_format_pairs_are_tried(
    inputs: Seq<i32>,
    references: Seq<i32>,
    i: int,
    k: int,
)
    requires
        0 <= i < inputs.len(),
        0 <= k < references.len(),
    ensures
        pairs_upto(inputs, references, inputs.len()).len() == inputs.len() * references.len(),
        0 <= i * references.len() + k < inputs.len() * references.len(),
        pairs_upto(inputs, references, inputs.len())[i * references.len() + k] == (
            inputs[i],
            references[k],
        ),
{
    lemma_pairs(inputs, references, inputs.len(), i, k);
}

// ---------------------------------------------------------------------------
// Extensions and messages

/// An extension is reported as missing if and only if it is, and two devices together have
/// what either has.
pub proof fn law_missing_extensions_are_reported(a: ExtensionFlags, b: ExtensionFlags)
    ensures
        a.complete() <==> a.missing().len() == 0,
        a.missing().contains("VK_KHR_video_queue"@) <==> !a.has_video_queue,
        a.missing().contains("VK_KHR_video_encode_queue"@) <==> !a.has_video_encode_queue,
        a.missing().contains("VK_KHR_video_encode_h265"@) <==> !a.has_video_encode_h265,
        a.complete() ==> a.joined_with(b).complete(),
        a.joined_with(b) == b.joined_with(a),
{
    reveal_strlit("VK_KHR_video_queue");
    reveal_strlit("VK_KHR_video_encode_queue");
    reveal_strlit("VK_KHR_video_encode_h265");
    let x = "VK_KHR_video_queue"@;
    let y = "VK_KHR_video_encode_queue"@;
    let z = "VK_KHR_video_encode_h265"@;
    assert(x.len() != y.len() && x.len() != z.len() && y.len() != z.len());
    let first = if a.has_video_queue {
        Seq::empty()
    } else {
        seq![x]
    };
    let second = if a.has_video_encode_queue {
        first
    } else {
        first.push(y)
    };
    let all = a.missing();
    if !a.has_video_queue {
        assert(all[0] == x);
    }
    if !a.has_video_encode_queue {
        assert(all[first.len() as int] == y);
    }
    if !a.has_video_encode_h265 {
        assert(all[second.len() as int] == z);
    }
}

/// Of the items of a list the last ones are kept, in their order, and all of them where there
/// are no more than the limit.
pub proof fn law_the_last_items_are_kept<T>(s: Seq<T>, n: int, i: int)
    requires
        0 <= n,
        0 <= i < last_items(s, n).len(),
    ensures
        last_items(s, n).len() == (if s.len() < n {
            s.len() as int
        } else {
            n
        }),
        last_items(s, n)[last_items(s, n).len() - 1 - i] == s[s.len() - 1 - i],
{
}

// ---------------------------------------------------------------------------
// Rate control

/// What is asked for is chosen where the device has it (bit 0: none, bit 1: constant, bit 2:
/// variable bitrate) and never anything else; a bitrate needs a layer. Where the choice is
/// free, no control is best, a constant bitrate is next, and a variable one is last.
pub proof fn law_rate_control_is_what_was_asked_for(
    requested: HevcEncodeProbeRateControlMode,
    modes: u32,
    layers: u32,
)
    ensures
        ({
            let chosen = chosen_rate_control(requested, modes, layers);
            let none = modes & 1 == 1;
            let constant = layers >= 1 && (modes >> 1) & 1 == 1;
            let variable = layers >= 1 && (modes >> 2) & 1 == 1;
            match requested {
                HevcEncodeProbeRateControlMode::Disabled => chosen == (if none {
                    Some(1u32)
                } else {
                    None
                }),
                HevcEncodeProbeRateControlMode::Cbr => chosen == (if constant {
                    Some(2u32)
                } else {
                    None
                }),
                HevcEncodeProbeRateControlMode::Vbr => chosen == (if variable {
                    Some(4u32)
                } else {
                    None
                }),
                HevcEncodeProbeRateControlMode::NoRateControl => chosen is None,
                HevcEncodeProbeRateControlMode::Auto => {
                    &&& none ==> chosen == Some(1u32)
                    &&& !none && constant ==> chosen == Some(2u32)
                    &&& !none && !constant && variable ==> chosen == Some(4u32)
                    &&& !none && !constant && !variable ==> chosen is None
                },
            }
        }),
{
    assert((modes & 2 == 2) == ((modes >> 1) & 1 == 1) && (modes & 4 == 4) == ((modes >> 2) & 1
        == 1)) by (bit_vector);
}

/// A quantizer is set only where no bitrate is controlled; it is the one that was asked for
/// if that is at most 51.
pub proof fn law_quantizer_is_set_without_a_bitrate(selected: Option<u32>, set: Option<u32>)
    ensures
        0 <= chosen_qp(selected, set) <= 51,
        (selected matches Some(mode) && mode != 1) ==> chosen_qp(selected, set) == 0,
        !(selected matches Some(mode) && mode != 1) ==> match set {
            Some(qp) => qp <= 51 ==> chosen_qp(selected, set) == qp,
            None => chosen_qp(selected, set) > 0,
        },
        (set matches Some(qp) && qp > 51) ==> chosen_qp(selected, set) == chosen_qp(selected, None),
{
}

/// Controls are issued unless that was turned off, a layer only for a bitrate, and each flag
/// stands for what is set: reset, rate control, quality level.
pub proof fn law_controls_match_their_flags(
    mode: HevcEncodeProbeControlMode,
    selected: Option<u32>,
    quality: bool,
    trial: bool,
)
    ensures
        ({
            let control = coding_control(mode, selected, quality, trial);
            &&& control.issue <==> mode != HevcEncodeProbeControlMode::NoControl
            &&& control.sets_rate_control ==> control.issue
            &&& control.sets_quality_level <==> control.issue && quality
            &&& control.with_layer <==> control.sets_rate_control && control.rate_control_mode != 1
            &&& control.with_sequence_structure <==> control.sets_rate_control && !trial
            &&& control.flags % 2 == 1
            &&& (control.flags / 2) % 2 == 1 <==> control.sets_rate_control
            &&& (control.flags / 4) % 2 == 1 <==> control.sets_quality_level
            &&& control.flags < 8
            &&& selected is None ==> control.rate_control_mode == 1
            &&& selected matches Some(m) ==> control.rate_control_mode == m
            &&& mode == HevcEncodeProbeControlMode::Default ==> (control.sets_rate_control
                <==> control.rate_control_mode != 1)
            &&& mode == HevcEncodeProbeControlMode::Ffmpeg ==> control.sets_rate_control
        }),
{
}

// ---------------------------------------------------------------------------
// Parameters

/// Sequence parameters of a sample are taken as they are, and those that a mode sets are set
/// once: with the same mode again nothing changes.
pub proof fn law_modes_are_applied_once(
    before: HevcSequenceParameters,
    mode: HevcEncodeParameterMode,
    once: HevcSequenceParameters,
    twice: HevcSequenceParameters,
)
    requires
        before.changed_to(mode, once),
        once.changed_to(mode, twice),
    ensures
        twice.profile_idc == once.profile_idc && once.profile_idc == before.profile_idc,
        twice.level_idc == once.level_idc,
        twice.has_vui_parameters == once.has_vui_parameters,
        twice.amp_enabled_flag == once.amp_enabled_flag,
        twice.sps_temporal_mvp_enabled_flag == once.sps_temporal_mvp_enabled_flag,
        twice.strong_intra_smoothing_enabled_flag == once.strong_intra_smoothing_enabled_flag,
        twice.short_term_ref_pic_set_count == once.short_term_ref_pic_set_count,
        twice.max_dec_pic_buffering_minus1@ == once.max_dec_pic_buffering_minus1@,
        twice.max_num_reorder_pics@ == once.max_num_reorder_pics@,
        twice.max_latency_increase_plus1@ == once.max_latency_increase_plus1@,
        mode == HevcEncodeParameterMode::Sample ==> once.level_idc == before.level_idc
            && once.has_vui_parameters == before.has_vui_parameters && once.amp_enabled_flag
            == before.amp_enabled_flag && once.sps_temporal_mvp_enabled_flag
            == before.sps_temporal_mvp_enabled_flag && once.strong_intra_smoothing_enabled_flag
            == before.strong_intra_smoothing_enabled_flag && once.short_term_ref_pic_set_count
            == before.short_term_ref_pic_set_count && once.max_dec_pic_buffering_minus1@
            == before.max_dec_pic_buffering_minus1@ && once.max_num_reorder_pics@
            == before.max_num_reorder_pics@ && once.max_latency_increase_plus1@
            == before.max_latency_increase_plus1@,
{
    assert(twice.max_dec_pic_buffering_minus1@ =~= once.max_dec_pic_buffering_minus1@);
    assert(twice.max_num_reorder_pics@ =~= once.max_num_reorder_pics@);
    assert(twice.max_latency_increase_plus1@ =~= once.max_latency_increase_plus1@);
}

/// Only a plain sample is ever taken in another mode, and only where announced display
/// information of a given sample is not to be kept. Forcing it off always wins over a sample,
/// and keeping it leaves every mode as it was asked for.
pub proof fn law_only_plain_samples_change_their_mode(
    requested: HevcEncodeParameterMode,
    safety: HevcEncodeVuiSafety,
    sample_given: bool,
    has_vui: bool,
)
    ensures
        ({
            let used = effective_mode(requested, safety, sample_given, has_vui);
            &&& used != requested ==> requested == HevcEncodeParameterMode::Sample && used
                == HevcEncodeParameterMode::SampleSpsVuiFlagOff
            &&& safety == HevcEncodeVuiSafety::Preserve ==> used == requested
            &&& safety == HevcEncodeVuiSafety::ForceOff ==> used
                != HevcEncodeParameterMode::Sample
            &&& safety == HevcEncodeVuiSafety::Auto && !(sample_given && has_vui) ==> used
                == requested
            &&& safety == HevcEncodeVuiSafety::Auto && sample_given && has_vui ==> used
                != HevcEncodeParameterMode::Sample
        }),
{
}

/// What stands before the encoded picture is left alone, or has just the length asked for: all
/// zero, or the start of the parameter sample with zeros behind it.
pub proof fn law_prefixes_have_the_length_asked_for(len: nat, sample: Seq<u8>, i: int)
    requires
        0 <= i < len,
    ensures
        dst_prefix(HevcEncodeDstPrefixMode::Untouched, len, sample) is None,
        dst_prefix(HevcEncodeDstPrefixMode::Zero, len, sample) matches Some(bytes) && bytes.len()
            == len && bytes[i] == 0,
        dst_prefix(HevcEncodeDstPrefixMode::ParameterSample, len, sample) matches Some(bytes)
            && bytes.len() == len && (i < sample.len() ==> bytes[i] == sample[i]) && (i
            >= sample.len() ==> bytes[i] == 0),
{
}

// ---------------------------------------------------------------------------
// Plans

/// A side of an image holds the coded side, is a multiple of the granularity, and is the
/// least such.
pub open spec fn is_least_multiple(side: int, coded: int, granularity: int) -> bool {
    let step = if granularity < 1 { 1 } else { granularity };
    side % step == 0 && coded <= side < coded + step
}

proof fn lemma_least_multiple(coded: int, granularity: int)
    requires
        0 <= coded <= u32::MAX,
        0 <= granularity <= u32::MAX,
    ensures
        is_least_multiple(
            aligned(coded, if granularity < 1 { 1 } else { granularity }),
            coded,
            granularity,
        ),
{
    law_aligned(coded, if granularity < 1 { 1 } else { granularity });
}

/// A plan that is made: the image holds the picture at the least size that the granularity
/// admits, the slices get back to the quantizer that was chosen from the one that the
/// parameter sets start with, and the encoded part lies in the buffer behind its prefix.
pub proof fn law_plans_hold_the_picture(
    config: HevcEncodeSubmitExecutionConfig,
    modes: HevcEncodeProbeModes,
)
    requires
        submit_plan(config, modes) is Ok,
    ensures
        ({
            let plan = submit_plan(config, modes)->Ok_0;
            let parity = modes.parity;
            &&& is_least_multiple(
                plan.image_width as int,
                config.coded_width as int,
                config.picture_access_granularity_width as int,
            )
            &&& is_least_multiple(
                plan.image_height as int,
                config.coded_height as int,
                config.picture_access_granularity_height as int,
            )
            &&& plan.slice_qp_delta + 26 + config.parameter_set_pps_init_qp_minus26
                == plan.constant_qp
            &&& plan.dst_buffer_offset == parity.dst_prefix_bytes
            &&& 0 < plan.dst_buffer_range
            &&& plan.dst_buffer_offset + plan.dst_buffer_range <= plan.dst_buffer_size
            &&& plan.dst_buffer_size == plan.dst_buffer_offset + dst_range(config)
            &&& plan.picture_resource_coded_width == config.coded_width
                || plan.picture_resource_coded_width == plan.image_width
            &&& plan.picture_resource_coded_height == config.coded_height
                || plan.picture_resource_coded_height == plan.image_height
        }),
{
    lemma_least_multiple(
        config.coded_width as int,
        config.picture_access_granularity_width as int,
    );
    lemma_least_multiple(
        config.coded_height as int,
        config.picture_access_granularity_height as int,
    );
    super::submit::law_encoded_part_lies_in_the_buffer(config, modes.parity);
}

/// The buffer for the encoded picture is the least multiple of its alignment that holds four
/// bytes for each pixel and a mebibyte.
pub proof fn law_the_buffer_is_the_least_that_holds_the_picture(
    config: HevcEncodeSubmitExecutionConfig,
)
    requires
        config.coded_width * config.coded_height * 4
            + config.min_bitstream_buffer_size_alignment <= u64::MAX,
        config.min_bitstream_buffer_size_alignment + 1_048_576 <= u64::MAX,
    ensures
        ({
            let bytes = config.coded_width * config.coded_height * 4;
            is_least_multiple(
                dst_range(config),
                if bytes < 1_048_576 {
                    1_048_576
                } else {
                    bytes
                },
                config.min_bitstream_buffer_size_alignment as int,
            )
        }),
{
    let alignment = if config.min_bitstream_buffer_size_alignment == 0 {
        1
    } else {
        config.min_bitstream_buffer_size_alignment as int
    };
    let bytes = config.coded_width * config.coded_height * 4;
    assert(0 <= bytes) by (nonlinear_arith)
        requires
            bytes == config.coded_width * config.coded_height * 4,
            0 <= config.coded_width,
            0 <= config.coded_height,
    ;
    law_aligned(
        if bytes < 1_048_576 {
            1_048_576
        } else {
            bytes
        },
        alignment,
    );
}

/// With all of the buffer in use nothing is left over; with an alignment kept back, just
/// that is.
pub proof fn law_the_used_part_ends_with_the_buffer(config: HevcEncodeSubmitExecutionConfig)
    ensures
        used_range(config, HevcEncodeDstRangeMode::Full) == dst_range(config),
        config.min_bitstream_buffer_size_alignment as int <= dst_range(config) && 1 <= dst_range(
            config,
        ) ==> dst_range(config) - used_range(config, HevcEncodeDstRangeMode::ReserveAlignment) == (
        if config.min_bitstream_buffer_size_alignment == 0 {
            1
        } else {
            config.min_bitstream_buffer_size_alignment as int
        }),
{
}

} // verus!
