//! Choosing a device for HEVC encoding and trying sessions on it.

use super::encode::{
    add_info_filter, apply_hevc_encode_parameter_mode_sps_overrides,
    apply_hevc_encode_parameter_mode_std_overrides, effective_mode, fit_hevc_encode_parameters,
    hevc_encode_parameter_mode_add_info_filter, resolve_hevc_encode_parameter_mode_for_sample,
    resolve_hevc_encode_probe_maintenance1_feature_enabled,
    validate_hevc_encode_probe_parameter_profile, ExtensionFlags, HevcSequenceParameters,
};
use super::modes::{
    hevc_encode_probe_maintenance1_mode_label, HevcEncodeParameterMode,
    HevcEncodeProbeMaintenance1Mode,
};
use super::parity::{HevcEncodeParameterSizeMode, HevcEncodeVuiSafety};
use super::submit::HevcEncodeSubmitExecutionProbe;
use crate::av1::support::{extent_chars, extent_text};
use crate::order::{order_by_key, ordered};
use crate::text::{decimal, join_text, joined, views};
use crate::vk_names::{format_name, format_name_text};
use vstd::prelude::*;
use vstd::string::*;

verus! {

#[derive(Debug, Clone, PartialEq, Eq)]
pub enum HevcEncodePrerequisiteProbe {
    Ready,
    MissingExtensions { missing: Vec<String> },
    MissingEncodeQueueFamily,
    NoCompatibleAdapter,
    DeviceInitializationFailed(String),
    ProbeUnavailable(String),
}

/// What one device offers.
#[derive(Debug, Clone, Copy, PartialEq, Eq, Structural)]
pub struct AdapterEncodeSupport {
    pub extensions: ExtensionFlags,
    pub encode_queue_family_index: Option<u32>,
}

/// How much a device is preferred: discrete devices first, then those on which the
/// maintenance feature works, then those that know it.
pub open spec fn score(is_discrete: bool, feature_supported: bool, extension: bool) -> u32 {
    ((if is_discrete { 4int } else { 0int }) + (if feature_supported { 2int } else { 0int }) + (
    if extension { 1int } else { 0int })) as u32
}

pub fn selection_score(is_discrete: bool, feature_supported: bool, extension_available: bool) -> (r:
    u32)
    ensures
        r == score(is_discrete, feature_supported, extension_available),
        r <= 7,
{
    let discrete: u32 = if is_discrete { 4 } else { 0 };
    let feature: u32 = if feature_supported { 2 } else { 0 };
    let extension: u32 = if extension_available { 1 } else { 0 };
    discrete + feature + extension
}

/// The devices with their scores turned round, so that the best come first.
pub open spec fn by_score(scores: Seq<u32>) -> Seq<(i32, usize)> {
    Seq::new(scores.len(), |i: int| ((i32::MAX - scores[i]) as i32, i as usize))
}

/// The order in which devices are tried: those with higher scores first, and in the
/// order of enumeration among equals.
pub fn order_candidates(scores: &Vec<u32>) -> (r: Vec<usize>)
    ensures
        r@ == Seq::new(scores@.len(), |i: int| ordered(by_score(scores@))[i].1),
{
    let mut items: Vec<(i32, usize)> = Vec::new();
    let mut i: usize = 0;
    while i < scores.len()
        invariant
            i <= scores.len(),
            items@ =~= by_score(scores@).take(i as int),
        decreases scores.len() - i,
    {
        let turned: i64 = 0x7fff_ffff - scores[i] as i64;
        items.push((turned as i32, i));
        i = i + 1;
    }
    assert(items@ =~= by_score(scores@));
    proof {
        crate::order::law_ordered_is_sorted_permutation(items@);
    }
    let sorted = order_by_key(items);
    let mut out: Vec<usize> = Vec::new();
    let mut j: usize = 0;
    while j < sorted.len()
        invariant
            j <= sorted.len(),
            sorted@ == ordered(by_score(scores@)),
            sorted@.len() == scores@.len(),
            out@ =~= Seq::new(j as nat, |k: int| sorted@[k].1),
        decreases sorted.len() - j,
    {
        out.push(sorted[j].1);
        j = j + 1;
    }
    out
}

/// What has been seen of the devices so far, with what went wrong on those that were
/// tried.
#[derive(Debug)]
pub struct HevcEncodeProbe {
    pub observed_extensions: ExtensionFlags,
    pub observed_encode_queue: bool,
    pub errors: Vec<String>,
}

/// What the devices come to when none of them could be used.
pub open spec fn encode_outcome_is(
    extensions: ExtensionFlags,
    queue: bool,
    errors: Seq<Seq<char>>,
    outcome: HevcEncodePrerequisiteProbe,
) -> bool {
    if extensions.missing().len() > 0 {
        outcome matches HevcEncodePrerequisiteProbe::MissingExtensions { missing } && views(
            missing@,
        ) == extensions.missing()
    } else if !queue {
        outcome is MissingEncodeQueueFamily
    } else if errors.len() > 0 {
        outcome matches HevcEncodePrerequisiteProbe::DeviceInitializationFailed(details)
            && details@ == joined(errors, "; "@)
    } else {
        outcome is NoCompatibleAdapter
    }
}

impl HevcEncodeProbe {
    pub fn new() -> (r: Self)
        ensures
            r.observed_extensions.missing().len() == 3,
            !r.observed_extensions.has_video_maintenance1,
            !r.observed_encode_queue,
            r.errors@.len() == 0,
    {
        HevcEncodeProbe {
            observed_extensions: ExtensionFlags::default(),
            observed_encode_queue: false,
            errors: Vec::new(),
        }
    }

    /// Takes note of a device. The result is the queue family to try, if the device
    /// is worth trying.
    pub fn observe(&mut self, support: AdapterEncodeSupport) -> (r: Option<u32>)
        ensures
            final(self).observed_extensions == old(self).observed_extensions.joined_with(
                support.extensions,
            ),
            final(self).observed_encode_queue == (old(self).observed_encode_queue
                || support.encode_queue_family_index is Some),
            final(self).errors@ == old(self).errors@,
            r == (if support.extensions.complete() {
                support.encode_queue_family_index
            } else {
                None
            }),
    {
        self.observed_extensions.union_assign(support.extensions);
        self.observed_encode_queue = self.observed_encode_queue
            || support.encode_queue_family_index.is_some();
        if support.extensions.supports_hevc_encode() {
            support.encode_queue_family_index
        } else {
            None
        }
    }

    /// Takes note that a device was tried in vain.
    pub fn fail(&mut self, error: String)
        ensures
            final(self).observed_extensions == old(self).observed_extensions,
            final(self).observed_encode_queue == old(self).observed_encode_queue,
            final(self).errors@ == old(self).errors@.push(error),
    {
        self.errors.push(error);
    }

    /// What the devices come to when none of them could be used.
    pub fn finish(&self) -> (r: HevcEncodePrerequisiteProbe)
        ensures
            encode_outcome_is(
                self.observed_extensions,
                self.observed_encode_queue,
                views(self.errors@),
                r,
            ),
    {
        let missing = self.observed_extensions.missing_extensions();
        assert(views(missing@).len() == missing@.len());
        if missing.len() > 0 {
            return HevcEncodePrerequisiteProbe::MissingExtensions { missing };
        }
        if !self.observed_encode_queue {
            return HevcEncodePrerequisiteProbe::MissingEncodeQueueFamily;
        }
        if self.errors.len() > 0 {
            return HevcEncodePrerequisiteProbe::DeviceInitializationFailed(
                join_text(&self.errors, "; "),
            );
        }
        HevcEncodePrerequisiteProbe::NoCompatibleAdapter
    }
}

// ---------------------------------------------------------------------------
// Bootstrap

/// A picture must not be empty.
pub fn check_bootstrap_dimensions(coded_width: u32, coded_height: u32) -> (r: Result<(), String>)
    ensures
        r is Ok <==> coded_width > 0 && coded_height > 0,
        r matches Err(m) ==> m@ == "HEVC encode bootstrap dimensions must be > 0, got "@
            + extent_chars(coded_width, coded_height),
{
    if coded_width == 0 || coded_height == 0 {
        return Err(
            String::from_str("HEVC encode bootstrap dimensions must be > 0, got ").concat(
                extent_text(coded_width, coded_height).as_str(),
            ),
        );
    }
    Ok(())
}

#[derive(Debug, Clone, Copy, PartialEq, Eq, Structural)]
pub struct HevcEncodeCapabilitySnapshot {
    pub min_coded_width: u32,
    pub min_coded_height: u32,
    pub max_coded_width: u32,
    pub max_coded_height: u32,
    pub picture_access_granularity_width: u32,
    pub picture_access_granularity_height: u32,
    pub encode_input_granularity_width: u32,
    pub encode_input_granularity_height: u32,
    pub max_dpb_slots: u32,
    pub max_active_reference_pictures: u32,
    pub encode_capability_flags: u32,
    pub encode_h265_capability_flags: u32,
    pub std_syntax_flags: u32,
    pub rate_control_modes: u32,
    pub max_rate_control_layers: u32,
    pub max_bitrate: u64,
    pub max_quality_levels: u32,
    pub supported_encode_feedback_flags: u32,
    pub min_bitstream_buffer_offset_alignment: u64,
    pub min_bitstream_buffer_size_alignment: u64,
    pub max_level_idc: u32,
    pub video_maintenance1_extension_available: bool,
    pub video_maintenance1_feature_supported: bool,
}

impl HevcEncodeCapabilitySnapshot {
    /// A picture of this size can be encoded.
    pub open spec fn admits(self, width: u32, height: u32) -> bool {
        self.min_coded_width <= width <= self.max_coded_width && self.min_coded_height <= height
            <= self.max_coded_height
    }

    pub open spec fn extent_fault(self, width: u32, height: u32) -> Seq<char> {
        "configured coded extent "@ + extent_chars(width, height)
            + " is outside device-supported range "@ + extent_chars(
            self.min_coded_width,
            self.min_coded_height,
        ) + ".."@ + extent_chars(self.max_coded_width, self.max_coded_height)
    }

    /// Checks that a picture of this size can be encoded.
    pub fn check_extent(&self, coded_width: u32, coded_height: u32) -> (r: Result<(), String>)
        ensures
            r is Ok <==> self.admits(coded_width, coded_height),
            r matches Err(m) ==> m@ == self.extent_fault(coded_width, coded_height),
    {
        if coded_width < self.min_coded_width || coded_width > self.max_coded_width
            || coded_height < self.min_coded_height || coded_height > self.max_coded_height {
            return Err(
                String::from_str("configured coded extent ").concat(
                    extent_text(coded_width, coded_height).as_str(),
                ).concat(" is outside device-supported range ").concat(
                    extent_text(self.min_coded_width, self.min_coded_height).as_str(),
                ).concat("..").concat(
                    extent_text(self.max_coded_width, self.max_coded_height).as_str(),
                ),
            );
        }
        Ok(())
    }

    /// Whether both sides of a picture are multiples of the input granularity.
    pub fn input_granularity_aligned(&self, coded_width: u32, coded_height: u32) -> (r: bool)
        ensures
            r == (multiple_of(coded_width, self.encode_input_granularity_width) && multiple_of(
                coded_height,
                self.encode_input_granularity_height,
            )),
    {
        is_multiple(coded_width, self.encode_input_granularity_width) && is_multiple(
            coded_height,
            self.encode_input_granularity_height,
        )
    }
}

/// A granularity of zero counts as one.
pub open spec fn multiple_of(n: u32, granularity: u32) -> bool {
    granularity <= 1 || n as int % granularity as int == 0
}

fn is_multiple(n: u32, granularity: u32) -> (r: bool)
    ensures
        r == multiple_of(n, granularity),
{
    granularity <= 1 || n % granularity == 0
}

/// The best device so far and what was wrong with others.
#[derive(Debug)]
pub struct HevcEncodeCandidates {
    best: Option<(u32, usize)>,
    errors: Vec<String>,
}

/// The first of the offers with the highest score.
pub open spec fn best_of(offers: Seq<(u32, usize)>) -> Option<(u32, usize)>
    decreases offers.len(),
{
    if offers.len() == 0 {
        None
    } else {
        match best_of(offers.drop_last()) {
            Some(best) => if best.0 >= offers.last().0 { Some(best) } else { Some(offers.last()) },
            None => Some(offers.last()),
        }
    }
}

/// The best offer is one of them, none has a higher score, and those before it have
/// lower ones.
pub proof fn law_best_offer_is_first_of_the_highest(offers: Seq<(u32, usize)>)
    requires
        offers.len() > 0,
    ensures
        exists|k: int|
            0 <= k < offers.len() && best_of(offers) == Some(#[trigger] offers[k]) && (forall|i: int|
                0 <= i < offers.len() ==> (#[trigger] offers[i]).0 <= offers[k].0) && (forall|i: int|
                0 <= i < k ==> (#[trigger] offers[i]).0 < offers[k].0),
    decreases offers.len(),
{
    let rest = offers.drop_last();
    let last = offers.len() - 1;
    if rest.len() == 0 {
        assert(best_of(rest) is None);
        assert(best_of(offers) == Some(offers[last]));
    } else {
        law_best_offer_is_first_of_the_highest(rest);
        let k = choose|k: int|
            0 <= k < rest.len() && best_of(rest) == Some(#[trigger] rest[k]) && (forall|i: int|
                0 <= i < rest.len() ==> (#[trigger] rest[i]).0 <= rest[k].0) && (forall|i: int|
                0 <= i < k ==> (#[trigger] rest[i]).0 < rest[k].0);
        if rest[k].0 >= offers[last].0 {
            assert(best_of(offers) == Some(offers[k]));
            assert forall|i: int| 0 <= i < offers.len() implies (#[trigger] offers[i]).0
                <= offers[k].0 by {
                if i < last {
                    assert(rest[i].0 <= rest[k].0);
                }
            }
            assert forall|i: int| 0 <= i < k implies (#[trigger] offers[i]).0 < offers[k].0 by {
                assert(rest[i].0 < rest[k].0);
            }
        } else {
            assert(best_of(offers) == Some(offers[last]));
            assert forall|i: int| 0 <= i < offers.len() implies (#[trigger] offers[i]).0
                <= offers[last].0 by {
                if i < last {
                    assert(rest[i].0 <= rest[k].0);
                }
            }
            assert forall|i: int| 0 <= i < last implies (#[trigger] offers[i]).0
                < offers[last].0 by {
                assert(rest[i].0 <= rest[k].0);
            }
        }
    }
}

/// The message when no device will do.
pub open spec fn bootstrap_failure(errors: Seq<Seq<char>>) -> Seq<char> {
    if errors.len() == 0 {
        "no Vulkan adapter passed HEVC encode bootstrap checks"@
    } else {
        "HEVC encode bootstrap checks failed on all candidate adapters: "@ + joined(errors, "; "@)
    }
}

impl HevcEncodeCandidates {
    pub closed spec fn best(self) -> Option<(u32, usize)> {
        self.best
    }

    pub closed spec fn errors(self) -> Seq<Seq<char>> {
        views(self.errors@)
    }

    pub fn new() -> (r: Self)
        ensures
            r.best() is None,
            r.best() == best_of(Seq::empty()),
            r.errors().len() == 0,
    {
        HevcEncodeCandidates { best: None, errors: Vec::new() }
    }

    /// Takes a device into account. It replaces the best so far only where its score
    /// is higher.
    pub fn offer(&mut self, score: u32, index: usize)
        ensures
            final(self).errors() == old(self).errors(),
            final(self).best() == (match old(self).best() {
                Some(best) => if best.0 >= score { Some(best) } else { Some((score, index)) },
                None => Some((score, index)),
            }),
            forall|offers: Seq<(u32, usize)>|
                old(self).best() == #[trigger] best_of(offers) ==> final(self).best() == best_of(
                    offers.push((score, index)),
                ),
    {
        match self.best {
            Some((best_score, _)) => {
                if best_score < score {
                    self.best = Some((score, index));
                }
            },
            None => {
                self.best = Some((score, index));
            },
        }
        assert forall|offers: Seq<(u32, usize)>|
            old(self).best() == #[trigger] best_of(offers) implies self.best() == best_of(
            offers.push((score, index)),
        ) by {
            assert(offers.push((score, index)).drop_last() =~= offers);
        }
    }

    /// Takes note of why a device will not do.
    pub fn reject(&mut self, error: String)
        ensures
            final(self).best() == old(self).best(),
            final(self).errors() == old(self).errors().push(error@),
    {
        self.errors.push(error);
        assert(views(self.errors@) =~= old(self).errors().push(error@));
    }

    /// The best device, or why there is none.
    pub fn choose_best(&self) -> (r: Result<usize, String>)
        ensures
            match self.best() {
                Some(best) => r == Ok::<usize, String>(best.1),
                None => r matches Err(m) && m@ == bootstrap_failure(self.errors()),
            },
    {
        match self.best {
            Some((_, index)) => Ok(index),
            None => {
                if self.errors.len() == 0 {
                    Err(String::from_str("no Vulkan adapter passed HEVC encode bootstrap checks"))
                } else {
                    Err(
                        String::from_str(
                            "HEVC encode bootstrap checks failed on all candidate adapters: ",
                        ).concat(join_text(&self.errors, "; ").as_str()),
                    )
                }
            },
        }
    }
}

// ---------------------------------------------------------------------------
// Sessions

#[derive(Debug, Clone)]
pub enum HevcEncodeVideoSessionCreateProbe {
    Created,
    Failed(String),
}

#[derive(Debug, Clone)]
pub enum HevcEncodeVideoSessionParametersCreateProbe {
    Created,
    Failed(String),
    Skipped(String),
}

/// The references of a pair of formats: those that are offered, or else the input
/// formats.
pub open spec fn reference_formats(inputs: Seq<i32>, references: Seq<i32>) -> Seq<i32> {
    if references.len() == 0 { inputs } else { references }
}

/// The pairs of the first `n` input formats with every reference format.
pub open spec fn pairs_upto(inputs: Seq<i32>, references: Seq<i32>, n: nat) -> Seq<(i32, i32)>
    decreases n,
{
    if n == 0 {
        Seq::empty()
    } else {
        pairs_upto(inputs, references, (n - 1) as nat) + Seq::new(
            references.len(),
            |k: int| (inputs[n - 1], references[k]),
        )
    }
}

/// The pairs of picture and reference formats in the order in which they are tried.
pub fn hevc_encode_format_pairs(input_formats: &Vec<i32>, dpb_formats: &Vec<i32>) -> (r: Vec<
    (i32, i32),
>)
    ensures
        r@ == pairs_upto(
            input_formats@,
            reference_formats(input_formats@, dpb_formats@),
            input_formats@.len(),
        ),
{
    let references = if dpb_formats.len() == 0 { input_formats } else { dpb_formats };
    let mut out: Vec<(i32, i32)> = Vec::new();
    let mut i: usize = 0;
    while i < input_formats.len()
        invariant
            i <= input_formats.len(),
            references@ == reference_formats(input_formats@, dpb_formats@),
            out@ == pairs_upto(input_formats@, references@, i as nat),
        decreases input_formats.len() - i,
    {
        let ghost before = out@;
        let mut k: usize = 0;
        while k < references.len()
            invariant
                i < input_formats.len(),
                k <= references.len(),
                out@ =~= before + Seq::new(
                    k as nat,
                    |j: int| (input_formats@[i as int], references@[j]),
                ),
            decreases references.len() - k,
        {
            out.push((input_formats[i], references[k]));
            k = k + 1;
        }
        i = i + 1;
    }
    out
}

/// How trying one pair of formats went.
#[derive(Debug)]
pub enum HevcSessionTrial {
    /// Session and parameters were created; the picture was tried too.
    Created(HevcEncodeSubmitExecutionProbe),
    /// The session was created, its parameters were not.
    ParametersFailed(String),
    /// The session was created, its parameters were not tried.
    ParametersSkipped(String),
    /// The session was not created.
    SessionFailed(String),
}

/// What went wrong with the pairs that have been tried.
#[derive(Debug)]
pub struct HevcSessionTrials {
    parameter_errors: Vec<String>,
    create_errors: Vec<String>,
}

/// An error with the names of the formats.
pub open spec fn pair_error(picture: Seq<char>, reference: Seq<char>, error: Seq<char>) -> Seq<
    char,
> {
    "picture="@ + picture + ", reference="@ + reference + ": "@ + error
}

pub fn pair_error_text(picture: &str, reference: &str, error: &str) -> (r: String)
    ensures
        r@ == pair_error(picture@, reference@, error@),
{
    String::from_str("picture=").concat(picture).concat(", reference=").concat(reference).concat(
        ": ",
    ).concat(error)
}

/// What trying sessions came to.
#[derive(Debug)]
pub struct HevcSessionOutcome {
    pub session: HevcEncodeVideoSessionCreateProbe,
    pub parameters: HevcEncodeVideoSessionParametersCreateProbe,
    pub submit: HevcEncodeSubmitExecutionProbe,
}

impl HevcSessionOutcome {
    /// No session could be made.
    pub open spec fn is_session_failure(self, details: Seq<char>) -> bool {
        &&& self.session matches HevcEncodeVideoSessionCreateProbe::Failed(m) && m@ == details
        &&& self.parameters matches HevcEncodeVideoSessionParametersCreateProbe::Skipped(m) && m@
            == "video session parameters create probe skipped: video session creation failed"@
        &&& self.submit matches HevcEncodeSubmitExecutionProbe::Skipped(m) && m@
            == "encode submit execution probe skipped: video session creation failed"@
    }

    /// A session could be made, but no parameters for it.
    pub open spec fn is_parameter_failure(self, details: Seq<char>) -> bool {
        &&& self.session is Created
        &&& self.parameters matches HevcEncodeVideoSessionParametersCreateProbe::Failed(m) && m@
            == details
        &&& self.submit matches HevcEncodeSubmitExecutionProbe::Skipped(m) && m@
            == "encode submit execution probe skipped: session parameters creation failed"@
    }

    /// No device could be made.
    pub fn without_device(error: String) -> (r: Self)
        ensures
            r.session == HevcEncodeVideoSessionCreateProbe::Failed(error),
            r.parameters matches HevcEncodeVideoSessionParametersCreateProbe::Skipped(m) && m@
                == "video session parameters create probe skipped: no video session handle"@,
            r.submit matches HevcEncodeSubmitExecutionProbe::Skipped(m) && m@
                == "encode submit execution probe skipped: no video session handle"@,
    {
        HevcSessionOutcome {
            session: HevcEncodeVideoSessionCreateProbe::Failed(error),
            parameters: HevcEncodeVideoSessionParametersCreateProbe::Skipped(
                String::from_str(
                    "video session parameters create probe skipped: no video session handle",
                ),
            ),
            submit: HevcEncodeSubmitExecutionProbe::Skipped(
                String::from_str("encode submit execution probe skipped: no video session handle"),
            ),
        }
    }
}

impl HevcSessionTrials {
    pub closed spec fn parameter_errors(self) -> Seq<Seq<char>> {
        views(self.parameter_errors@)
    }

    pub closed spec fn create_errors(self) -> Seq<Seq<char>> {
        views(self.create_errors@)
    }

    pub fn new() -> (r: Self)
        ensures
            r.parameter_errors().len() == 0,
            r.create_errors().len() == 0,
    {
        HevcSessionTrials { parameter_errors: Vec::new(), create_errors: Vec::new() }
    }

    /// Takes note of a trial, given the names of the formats. Where all was created,
    /// the result is final and trying stops.
    pub fn note_named(&mut self, picture: &str, reference: &str, trial: HevcSessionTrial) -> (r:
        Option<HevcSessionOutcome>)
        ensures
            match trial {
                HevcSessionTrial::Created(submit) => r matches Some(outcome) && outcome.session
                    is Created && outcome.parameters is Created && outcome.submit == submit
                    && final(self).parameter_errors() == old(self).parameter_errors() && final(self).create_errors() == old(self).create_errors(),
                HevcSessionTrial::ParametersFailed(e) | HevcSessionTrial::ParametersSkipped(e) => r
                    is None && final(self).parameter_errors() == old(self).parameter_errors().push(
                    pair_error(picture@, reference@, e@),
                ) && final(self).create_errors() == old(self).create_errors(),
                HevcSessionTrial::SessionFailed(e) => r is None && final(self).create_errors()
                    == old(self).create_errors().push(pair_error(picture@, reference@, e@))
                    && final(self).parameter_errors() == old(self).parameter_errors(),
            },
    {
        match trial {
            HevcSessionTrial::Created(submit) => Some(
                HevcSessionOutcome {
                    session: HevcEncodeVideoSessionCreateProbe::Created,
                    parameters: HevcEncodeVideoSessionParametersCreateProbe::Created,
                    submit,
                },
            ),
            HevcSessionTrial::ParametersFailed(e) => {
                self.parameter_errors.push(pair_error_text(picture, reference, e.as_str()));
                assert(views(self.parameter_errors@) =~= old(self).parameter_errors().push(
                    pair_error(picture@, reference@, e@),
                ));
                None
            },
            HevcSessionTrial::ParametersSkipped(e) => {
                self.parameter_errors.push(pair_error_text(picture, reference, e.as_str()));
                assert(views(self.parameter_errors@) =~= old(self).parameter_errors().push(
                    pair_error(picture@, reference@, e@),
                ));
                None
            },
            HevcSessionTrial::SessionFailed(e) => {
                self.create_errors.push(pair_error_text(picture, reference, e.as_str()));
                assert(views(self.create_errors@) =~= old(self).create_errors().push(
                    pair_error(picture@, reference@, e@),
                ));
                None
            },
        }
    }

    /// Takes note of a trial of a pair of formats.
    pub fn note(&mut self, picture_format: i32, reference_format: i32, trial: HevcSessionTrial)
        -> (r: Option<HevcSessionOutcome>)
        ensures
            match trial {
                HevcSessionTrial::Created(submit) => r matches Some(outcome) && outcome.session
                    is Created && outcome.parameters is Created && outcome.submit == submit
                    && final(self).parameter_errors() == old(self).parameter_errors() && final(self).create_errors() == old(self).create_errors(),
                HevcSessionTrial::ParametersFailed(e) | HevcSessionTrial::ParametersSkipped(e) => r
                    is None && final(self).parameter_errors() == old(self).parameter_errors().push(
                    pair_error(format_name(picture_format), format_name(reference_format), e@),
                ) && final(self).create_errors() == old(self).create_errors(),
                HevcSessionTrial::SessionFailed(e) => r is None && final(self).create_errors()
                    == old(self).create_errors().push(
                    pair_error(format_name(picture_format), format_name(reference_format), e@),
                ) && final(self).parameter_errors() == old(self).parameter_errors(),
            },
    {
        let picture = format_name_text(picture_format);
        let reference = format_name_text(reference_format);
        self.note_named(picture.as_str(), reference.as_str(), trial)
    }

    /// What the trials come to when no pair of formats would do.
    pub fn finish(&self) -> (r: HevcSessionOutcome)
        ensures
            if self.parameter_errors().len() > 0 {
                r.is_parameter_failure(
                    "vkCreateVideoSessionParametersKHR failed on all candidate format pairs: "@
                        + joined(self.parameter_errors(), "; "@),
                )
            } else {
                r.is_session_failure(
                    "vkCreateVideoSessionKHR failed on all candidate format pairs: "@ + (
                    if self.create_errors().len() == 0 {
                        "no encode input formats were reported"@
                    } else {
                        joined(self.create_errors(), "; "@)
                    }),
                )
            },
    {
        if self.parameter_errors.len() > 0 {
            return HevcSessionOutcome {
                session: HevcEncodeVideoSessionCreateProbe::Created,
                parameters: HevcEncodeVideoSessionParametersCreateProbe::Failed(
                    String::from_str(
                        "vkCreateVideoSessionParametersKHR failed on all candidate format pairs: ",
                    ).concat(join_text(&self.parameter_errors, "; ").as_str()),
                ),
                submit: HevcEncodeSubmitExecutionProbe::Skipped(
                    String::from_str(
                        "encode submit execution probe skipped: session parameters creation failed",
                    ),
                ),
            };
        }
        let details = if self.create_errors.len() == 0 {
            String::from_str("no encode input formats were reported")
        } else {
            join_text(&self.create_errors, "; ")
        };
        HevcSessionOutcome {
            session: HevcEncodeVideoSessionCreateProbe::Failed(
                String::from_str(
                    "vkCreateVideoSessionKHR failed on all candidate format pairs: ",
                ).concat(details.as_str()),
            ),
            parameters: HevcEncodeVideoSessionParametersCreateProbe::Skipped(
                String::from_str(
                    "video session parameters create probe skipped: video session creation failed",
                ),
            ),
            submit: HevcEncodeSubmitExecutionProbe::Skipped(
                String::from_str(
                    "encode submit execution probe skipped: video session creation failed",
                ),
            ),
        }
    }
}

// ---------------------------------------------------------------------------
// Session parameters

/// How the parameters of a session are made from a sample.
#[derive(Debug)]
pub struct HevcSessionParametersPlan {
    pub mode: HevcEncodeParameterMode,
    pub parameters: HevcSequenceParameters,
    /// What the announcement of usability information is changed to.
    pub vui_flag: Option<bool>,
    /// Which of the parameter sets are given.
    pub given: Option<(bool, bool, bool)>,
    /// The picture size that the sequence parameter set tells.
    pub coded_width: u32,
    pub coded_height: u32,
}

/// What the parameters of a session are made from beside a sample.
#[derive(Debug, Clone, Copy, PartialEq, Eq, Structural)]
pub struct HevcSessionParametersRequest {
    pub mode: HevcEncodeParameterMode,
    pub vui_safety: HevcEncodeVuiSafety,
    pub size_mode: HevcEncodeParameterSizeMode,
    /// Whether the sample was named by the user.
    pub sample_override_enabled: bool,
    /// What the device can encode with.
    pub std_syntax_flags: u32,
    pub sample_coded_width: u32,
    pub sample_coded_height: u32,
    pub coded_width: u32,
    pub coded_height: u32,
}

/// The parameters of a session from a sample. Only samples of the Main profile will do.
pub fn plan_hevc_session_parameters(
    request: &HevcSessionParametersRequest,
    sample: HevcSequenceParameters,
) -> (r: Result<HevcSessionParametersPlan, String>)
    ensures
        r is Ok <==> sample.profile_idc == 1,
        r matches Err(m) ==> m@
            == "unsupported HEVC encode probe parameter sample profile_idc="@ + decimal(
            sample.profile_idc as nat,
        )
            + "; only Main profile (profile_idc=1) is currently supported for Vulkan HEVC encode probe session parameters"@,
        r matches Ok(plan) ==> {
            let mode = effective_mode(
                request.mode,
                request.vui_safety,
                request.sample_override_enabled,
                sample.has_vui_parameters,
            );
            let of_sample = request.size_mode == HevcEncodeParameterSizeMode::Sample;
            &&& plan.mode == mode
            &&& sample.prepared_as(mode, request.std_syntax_flags, plan.parameters)
            &&& plan.given == add_info_filter(mode)
            &&& plan.vui_flag == (match mode {
                HevcEncodeParameterMode::SampleSpsVuiFlagOff => Some(false),
                HevcEncodeParameterMode::SampleSpsNoVuiFlagOn => Some(true),
                _ => None,
            })
            &&& plan.coded_width == (if of_sample {
                request.sample_coded_width
            } else {
                request.coded_width
            })
            &&& plan.coded_height == (if of_sample {
                request.sample_coded_height
            } else {
                request.coded_height
            })
        },
{
    validate_hevc_encode_probe_parameter_profile(sample.profile_idc)?;
    let mode = resolve_hevc_encode_parameter_mode_for_sample(
        request.mode,
        request.vui_safety,
        request.sample_override_enabled,
        sample.has_vui_parameters,
    );
    let mut parameters = sample;
    apply_hevc_encode_parameter_mode_sps_overrides(&mut parameters, mode);
    fit_hevc_encode_parameters(&mut parameters, request.std_syntax_flags);
    let (coded_width, coded_height): (u32, u32) = match request.size_mode {
        HevcEncodeParameterSizeMode::Sample => (
            request.sample_coded_width,
            request.sample_coded_height,
        ),
        HevcEncodeParameterSizeMode::Coded => (request.coded_width, request.coded_height),
    };
    Ok(
        HevcSessionParametersPlan {
            mode,
            parameters,
            vui_flag: apply_hevc_encode_parameter_mode_std_overrides(mode),
            given: hevc_encode_parameter_mode_add_info_filter(mode),
            coded_width,
            coded_height,
        },
    )
}

// ---------------------------------------------------------------------------
// The report

/// The device that was chosen.
#[derive(Debug, Clone)]
pub struct HevcEncodeAdapter {
    pub name: String,
    pub vendor_id: u32,
    pub device_id: u32,
    pub driver_version: u32,
    pub api_version: u32,
}

/// What preparing to encode came to.
#[derive(Debug)]
pub struct HevcEncodeSessionBootstrap {
    pub coded_width: u32,
    pub coded_height: u32,
    pub adapter: HevcEncodeAdapter,
    pub capabilities: HevcEncodeCapabilitySnapshot,
    pub coded_extent_input_granularity_aligned: bool,
    pub video_maintenance1_mode: &'static str,
    pub video_maintenance1_feature_enabled: bool,
    pub encode_input_formats: Vec<i32>,
    pub encode_dpb_formats: Vec<i32>,
    pub outcome: HevcSessionOutcome,
}

pub fn report_hevc_encode_bootstrap(
    coded_width: u32,
    coded_height: u32,
    adapter: HevcEncodeAdapter,
    capabilities: HevcEncodeCapabilitySnapshot,
    maintenance1_mode: HevcEncodeProbeMaintenance1Mode,
    encode_input_formats: Vec<i32>,
    encode_dpb_formats: Vec<i32>,
    outcome: HevcSessionOutcome,
) -> (r: HevcEncodeSessionBootstrap)
    ensures
        r.coded_width == coded_width,
        r.coded_height == coded_height,
        r.adapter == adapter,
        r.capabilities == capabilities,
        r.coded_extent_input_granularity_aligned == (multiple_of(
            coded_width,
            capabilities.encode_input_granularity_width,
        ) && multiple_of(coded_height, capabilities.encode_input_granularity_height)),
        r.video_maintenance1_mode@ == maintenance1_mode.label(),
        r.video_maintenance1_feature_enabled == (maintenance1_mode
            != HevcEncodeProbeMaintenance1Mode::Off
            && capabilities.video_maintenance1_extension_available
            && capabilities.video_maintenance1_feature_supported),
        r.encode_input_formats@ == encode_input_formats@,
        r.encode_dpb_formats@ == encode_dpb_formats@,
        r.outcome == outcome,
{
    HevcEncodeSessionBootstrap {
        coded_width,
        coded_height,
        adapter,
        coded_extent_input_granularity_aligned: capabilities.input_granularity_aligned(
            coded_width,
            coded_height,
        ),
        video_maintenance1_mode: hevc_encode_probe_maintenance1_mode_label(maintenance1_mode),
        video_maintenance1_feature_enabled: resolve_hevc_encode_probe_maintenance1_feature_enabled(
            maintenance1_mode,
            capabilities.video_maintenance1_extension_available,
            capabilities.video_maintenance1_feature_supported,
        ),
        capabilities,
        encode_input_formats,
        encode_dpb_formats,
        outcome,
    }
}

} // verus!
