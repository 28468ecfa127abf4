//! Joining an upload buffer with the commands that read from it.

use super::command::{
    command_fault, commands, frame_command, law_built_commands_are_consistent,
    lemma_bundles_ok, record_bundle,
    record_bundles, Av1DecodeCommandSkeleton, Av1DecodeFrameRecordBundle,
    Av1DecodeFrameSubmitBundle,
};
use super::decode::{info_views, DecodeInfo};
use super::plan::{
    all_placed, law_upload_keeps_frames, lemma_upload_bytes_len, lemma_upload_grows, placed,
    reads_inside, upload_bytes, upload_fits, Av1DecodeBitstreamUploadPlan,
};
use crate::text::{decimal, decimal_text, size_text};
use std::ops::Range;
use vstd::prelude::*;
use vstd::string::*;

verus! {

/// The bytes that frame `i` of a command reads, or why plan and command do not fit.
pub open spec fn upload_range(
    plan: Av1DecodeBitstreamUploadPlan,
    command: Av1DecodeCommandSkeleton,
    i: int,
) -> Result<(int, int), Seq<char>> {
    let frame = command.frames@[i];
    let decode = plan.decodes@[i];
    let end = frame.src_buffer_offset + frame.src_buffer_range;
    if frame.frame_index != i {
        Err(
            "AV1 aligned upload frame index mismatch: frame_index="@ + decimal(
                frame.frame_index as nat,
            ) + ", decode_index="@ + decimal(i as nat),
        )
    } else if frame.src_buffer_offset != decode.src_buffer_offset || frame.src_buffer_range
        != decode.src_buffer_range {
        Err(
            "AV1 aligned upload source range mismatch for frame "@ + decimal(
                frame.frame_index as nat,
            ) + ": command="@ + decimal(frame.src_buffer_offset as nat) + "+"@ + decimal(
                frame.src_buffer_range as nat,
            ) + ", decode="@ + decimal(decode.src_buffer_offset as nat) + "+"@ + decimal(
                decode.src_buffer_range as nat,
            ),
        )
    } else if frame.src_buffer_offset > usize::MAX {
        Err("AV1 aligned upload offset exceeds usize"@)
    } else if frame.src_buffer_range > usize::MAX {
        Err("AV1 aligned upload range exceeds usize"@)
    } else if end > usize::MAX {
        Err("AV1 aligned upload range overflows usize"@)
    } else if end > plan.bytes@.len() {
        Err(
            "AV1 aligned upload range exceeds upload bytes: end="@ + decimal(end as nat)
                + ", len="@ + decimal(plan.bytes@.len()),
        )
    } else {
        Ok((frame.src_buffer_offset as int, end))
    }
}

/// The bytes that the first `n` frames read.
pub open spec fn upload_ranges(
    plan: Av1DecodeBitstreamUploadPlan,
    command: Av1DecodeCommandSkeleton,
    n: nat,
) -> Result<Seq<(int, int)>, Seq<char>>
    decreases n,
{
    if n == 0 {
        Ok(Seq::empty())
    } else {
        match upload_ranges(plan, command, (n - 1) as nat) {
            Err(e) => Err(e),
            Ok(before) => match upload_range(plan, command, n - 1) {
                Err(e) => Err(e),
                Ok(range) => Ok(before.push(range)),
            },
        }
    }
}

/// The bytes that all frames read.
pub open spec fn all_upload_ranges(
    plan: Av1DecodeBitstreamUploadPlan,
    command: Av1DecodeCommandSkeleton,
) -> Result<Seq<(int, int)>, Seq<char>> {
    if command.frames@.len() != plan.decodes@.len() {
        Err(
            "AV1 aligned upload frame count mismatch: command_frames="@ + decimal(
                command.frames@.len(),
            ) + ", decodes="@ + decimal(plan.decodes@.len()),
        )
    } else {
        upload_ranges(plan, command, command.frames@.len())
    }
}

proof fn lemma_ranges_fault(
    plan: Av1DecodeBitstreamUploadPlan,
    command: Av1DecodeCommandSkeleton,
    n: nat,
    total: nat,
)
    requires
        n <= total,
        upload_ranges(plan, command, n) is Err,
    ensures
        upload_ranges(plan, command, total) == upload_ranges(plan, command, n),
    decreases total,
{
    if n < total {
        lemma_ranges_fault(plan, command, n, (total - 1) as nat);
    }
}

pub proof fn lemma_ranges_ok(
    plan: Av1DecodeBitstreamUploadPlan,
    command: Av1DecodeCommandSkeleton,
    n: nat,
)
    requires
        upload_ranges(plan, command, n) is Ok,
    ensures
        upload_ranges(plan, command, n)->Ok_0.len() == n,
        forall|i: int|
            0 <= i < n ==> upload_range(plan, command, i) == Ok::<(int, int), Seq<char>>(
                #[trigger] upload_ranges(plan, command, n)->Ok_0[i],
            ),
    decreases n,
{
    if n > 0 {
        lemma_ranges_ok(plan, command, (n - 1) as nat);
    }
}

/// Whatever the command, each frame that is accepted reads bytes of the buffer.
pub proof fn law_accepted_ranges_lie_in_the_buffer(
    plan: Av1DecodeBitstreamUploadPlan,
    command: Av1DecodeCommandSkeleton,
    i: int,
)
    requires
        all_upload_ranges(plan, command) is Ok,
        0 <= i < command.frames@.len(),
    ensures
        all_upload_ranges(plan, command)->Ok_0.len() == command.frames@.len(),
        0 <= all_upload_ranges(plan, command)->Ok_0[i].0 <= all_upload_ranges(
            plan,
            command,
        )->Ok_0[i].1 <= plan.bytes@.len(),
{
    lemma_ranges_ok(plan, command, command.frames@.len());
    let range = upload_ranges(plan, command, command.frames@.len())->Ok_0[i];
    assert(upload_range(plan, command, i) == Ok::<(int, int), Seq<char>>(range));
}

/// A command that was built for an upload buffer fits it: every frame reads exactly
/// the bytes at which it was placed.
pub proof fn law_built_plan_and_command_fit(
    b: Seq<u8>,
    infos: Seq<DecodeInfo>,
    offset_alignment: int,
    size_alignment: int,
    slots: nat,
    plan: Av1DecodeBitstreamUploadPlan,
    command: Av1DecodeCommandSkeleton,
)
    requires
        0 <= offset_alignment,
        0 <= size_alignment,
        reads_inside(infos, b.len()),
        b.len() <= usize::MAX,
        infos.len() <= usize::MAX,
        upload_fits(infos, offset_alignment, size_alignment, infos.len()),
        plan.bytes@ == upload_bytes(b, infos, offset_alignment, size_alignment, infos.len()),
        info_views(plan.decodes@) == all_placed(infos, offset_alignment, size_alignment),
        command_fault(all_placed(infos, offset_alignment, size_alignment), slots) is None,
        commands(command, all_placed(infos, offset_alignment, size_alignment), slots),
    ensures
        submit_fault(plan, command) is None,
        all_upload_ranges(plan, command)->Ok_0 == Seq::new(
            infos.len(),
            |i: int|
                (
                    placed(infos, offset_alignment, size_alignment, i).source,
                    placed(infos, offset_alignment, size_alignment, i).source + placed(
                        infos,
                        offset_alignment,
                        size_alignment,
                        i,
                    ).range,
                ),
        ),
{
    let held = all_placed(infos, offset_alignment, size_alignment);
    law_built_commands_are_consistent(command, held, slots, held.len());
    assert(info_views(plan.decodes@).len() == plan.decodes@.len());
    lemma_built_ranges(b, infos, offset_alignment, size_alignment, slots, plan, command, infos.len());
}

proof fn lemma_built_ranges(
    b: Seq<u8>,
    infos: Seq<DecodeInfo>,
    offset_alignment: int,
    size_alignment: int,
    slots: nat,
    plan: Av1DecodeBitstreamUploadPlan,
    command: Av1DecodeCommandSkeleton,
    n: nat,
)
    requires
        0 <= offset_alignment,
        0 <= size_alignment,
        n <= infos.len(),
        reads_inside(infos, b.len()),
        b.len() <= usize::MAX,
        infos.len() <= usize::MAX,
        upload_fits(infos, offset_alignment, size_alignment, infos.len()),
        plan.bytes@ == upload_bytes(b, infos, offset_alignment, size_alignment, infos.len()),
        info_views(plan.decodes@) == all_placed(infos, offset_alignment, size_alignment),
        commands(command, all_placed(infos, offset_alignment, size_alignment), slots),
    ensures
        upload_ranges(plan, command, n) == Ok::<Seq<(int, int)>, Seq<char>>(
            Seq::new(
                n,
                |i: int|
                    (
                        placed(infos, offset_alignment, size_alignment, i).source,
                        placed(infos, offset_alignment, size_alignment, i).source + placed(
                            infos,
                            offset_alignment,
                            size_alignment,
                            i,
                        ).range,
                    ),
            ),
        ),
    decreases n,
{
    let held = all_placed(infos, offset_alignment, size_alignment);
    if n > 0 {
        let i = n - 1;
        lemma_built_ranges(
            b,
            infos,
            offset_alignment,
            size_alignment,
            slots,
            plan,
            command,
            (n - 1) as nat,
        );
        law_upload_keeps_frames(b, infos, offset_alignment, size_alignment, i, infos.len());
        lemma_upload_bytes_len(b, infos, offset_alignment, size_alignment, infos.len());
        lemma_upload_grows(infos, offset_alignment, size_alignment, i as nat, infos.len());
        assert(command.frames@[i] == frame_command(held, slots, i));
        assert(info_views(plan.decodes@)[i] == plan.decodes@[i]@);
        assert(held[i] == placed(infos, offset_alignment, size_alignment, i));
    }
    assert(upload_ranges(plan, command, n)->Ok_0 =~= Seq::new(
        n,
        |i: int|
            (
                placed(infos, offset_alignment, size_alignment, i).source,
                placed(infos, offset_alignment, size_alignment, i).source + placed(
                    infos,
                    offset_alignment,
                    size_alignment,
                    i,
                ).range,
            ),
    ));
}

impl Av1DecodeFrameSubmitBundle {
    /// The bundle is what is recorded for a frame, with the bytes that it reads.
    pub open spec fn joins(self, record: Av1DecodeFrameRecordBundle, range: (int, int)) -> bool {
        &&& self.frame_index == record.frame_index
        &&& self.temporal_unit_index == record.temporal_unit_index
        &&& self.decode_info_index == record.decode_info_index
        &&& self.setup_slot_index == record.setup_slot_index
        &&& self.dst_base_array_layer == record.dst_base_array_layer
        &&& self.src_buffer_offset == record.src_buffer_offset
        &&& self.src_buffer_range == record.src_buffer_range
        &&& self.tile_count == record.tile_count
        &&& self.upload_range.start == range.0
        &&& self.upload_range.end == range.1
    }
}

/// The bundles join the records with the ranges, one for one.
pub open spec fn bundles_join(
    bundles: Seq<Av1DecodeFrameSubmitBundle>,
    records: Seq<Av1DecodeFrameRecordBundle>,
    ranges: Seq<(int, int)>,
) -> bool {
    bundles.len() == records.len() && forall|i: int|
        0 <= i < bundles.len() ==> (#[trigger] bundles[i]).joins(records[i], ranges[i])
}

/// What is handed over for each frame, or why there is nothing.
pub open spec fn submit_fault(
    plan: Av1DecodeBitstreamUploadPlan,
    command: Av1DecodeCommandSkeleton,
) -> Option<Seq<char>> {
    match record_bundles(command, command.frames@.len()) {
        Err(e) => Some(e),
        Ok(_) => match all_upload_ranges(plan, command) {
            Err(e) => Some(e),
            Ok(_) => None,
        },
    }
}

/// A decode operation with all that it needs.
#[derive(Debug, Clone, Copy, PartialEq, Eq, Structural)]
pub struct Av1FrameDecode {
    pub frame_index: usize,
    pub temporal_unit_index: usize,
    pub decode_info_index: usize,
    pub setup_slot_index: i32,
    pub dst_base_array_layer: u32,
    pub src_buffer_offset: u64,
    pub src_buffer_range: u64,
    pub tile_count: usize,
    /// The bytes of the upload buffer that are read.
    pub upload_start: usize,
    pub upload_end: usize,
    pub coded_width: u32,
    pub coded_height: u32,
}

/// The decode operation of frame `i`.
pub open spec fn frame_decode(
    plan: Av1DecodeBitstreamUploadPlan,
    command: Av1DecodeCommandSkeleton,
    i: int,
) -> Av1FrameDecode {
    let record = record_bundles(command, command.frames@.len())->Ok_0[i];
    let decode = plan.decodes@[i];
    let range = all_upload_ranges(plan, command)->Ok_0[i];
    Av1FrameDecode {
        frame_index: record.frame_index,
        temporal_unit_index: record.temporal_unit_index,
        decode_info_index: record.decode_info_index,
        setup_slot_index: record.setup_slot_index,
        dst_base_array_layer: record.dst_base_array_layer,
        src_buffer_offset: decode.src_buffer_offset,
        src_buffer_range: decode.src_buffer_range,
        tile_count: record.tile_count,
        upload_start: range.0 as usize,
        upload_end: range.1 as usize,
        coded_width: decode.coded_width,
        coded_height: decode.coded_height,
    }
}

#[derive(Debug, Clone, Copy, PartialEq, Eq, Structural)]
pub enum Av1DecodeCommandVisit {
    BeginCoding { reference_slot_count: usize },
    ResetCoding,
    DecodeFrame(Av1FrameDecode),
    EndCoding,
}

/// How often each kind of command was recorded.
#[derive(Debug, Clone, Copy, PartialEq, Eq, Structural)]
pub struct Av1DecodeCommandRecordSummary {
    pub begin_count: usize,
    pub reset_count: usize,
    pub decode_count: usize,
    pub end_count: usize,
}

impl Av1DecodeCommandRecordSummary {
    /// Checks that the scope was opened, reset and closed once and every frame was
    /// decoded.
    pub fn validate_for_command(&self, command: &Av1DecodeCommandSkeleton) -> (r: bool)
        ensures
            r == (self.begin_count == 1 && self.reset_count == 1 && self.decode_count
                == command.frames@.len() && self.end_count == 1),
    {
        self.begin_count == 1 && self.reset_count == 1 && self.decode_count
            == command.frames.len() && self.end_count == 1
    }
}

/// The commands of a whole sequence.
pub open spec fn visits(
    plan: Av1DecodeBitstreamUploadPlan,
    command: Av1DecodeCommandSkeleton,
) -> Seq<Av1DecodeCommandVisit> {
    opening(command) + Seq::new(
        command.frames@.len(),
        |i: int| Av1DecodeCommandVisit::DecodeFrame(frame_decode(plan, command, i)),
    ) + seq![Av1DecodeCommandVisit::EndCoding]
}

pub open spec fn opening(command: Av1DecodeCommandSkeleton) -> Seq<Av1DecodeCommandVisit> {
    seq![
        Av1DecodeCommandVisit::BeginCoding {
            reference_slot_count: command.begin_slots@.len() as usize,
        },
        Av1DecodeCommandVisit::ResetCoding,
    ]
}

/// Why a sequence stops behind its opening, if it does.
pub open spec fn sequence_fault(
    plan: Av1DecodeBitstreamUploadPlan,
    command: Av1DecodeCommandSkeleton,
) -> Option<Seq<char>> {
    if command.frames@.len() == 0 { None } else { submit_fault(plan, command) }
}

impl Av1DecodeBitstreamUploadPlan {
    fn frame_upload_range(&self, command: &Av1DecodeCommandSkeleton, at: usize) -> (r: Result<
        Range<usize>,
        String,
    >)
        requires
            at < command.frames@.len(),
            command.frames@.len() == self.decodes@.len(),
        ensures
            match upload_range(*self, *command, at as int) {
                Ok((start, end)) => r matches Ok(range) && range.start == start && range.end == end,
                Err(e) => r matches Err(m) && m@ == e,
            },
    {
        let frame = command.frames[at];
        let decode = &self.decodes[at];
        if frame.frame_index != at {
            return Err(
                String::from_str("AV1 aligned upload frame index mismatch: frame_index=").concat(
                    size_text(frame.frame_index).as_str(),
                ).concat(", decode_index=").concat(size_text(at).as_str()),
            );
        }
        if frame.src_buffer_offset != decode.src_buffer_offset || frame.src_buffer_range
            != decode.src_buffer_range {
            return Err(
                String::from_str("AV1 aligned upload source range mismatch for frame ").concat(
                    size_text(frame.frame_index).as_str(),
                ).concat(": command=").concat(
                    decimal_text(frame.src_buffer_offset).as_str(),
                ).concat("+").concat(decimal_text(frame.src_buffer_range).as_str()).concat(
                    ", decode=",
                ).concat(decimal_text(decode.src_buffer_offset).as_str()).concat("+").concat(
                    decimal_text(decode.src_buffer_range).as_str(),
                ),
            );
        }
        if frame.src_buffer_offset > usize::MAX as u64 {
            return Err(String::from_str("AV1 aligned upload offset exceeds usize"));
        }
        if frame.src_buffer_range > usize::MAX as u64 {
            return Err(String::from_str("AV1 aligned upload range exceeds usize"));
        }
        let start: usize = frame.src_buffer_offset as usize;
        let end: usize = match start.checked_add(frame.src_buffer_range as usize) {
            Some(end) => end,
            None => {
                return Err(String::from_str("AV1 aligned upload range overflows usize"));
            },
        };
        if end > self.bytes.len() {
            return Err(
                String::from_str("AV1 aligned upload range exceeds upload bytes: end=").concat(
                    size_text(end).as_str(),
                ).concat(", len=").concat(size_text(self.bytes.len()).as_str()),
            );
        }
        Ok(Range { start, end })
    }

    /// The bytes of the buffer that each frame reads.
    pub fn frame_upload_ranges(&self, command: &Av1DecodeCommandSkeleton) -> (r: Result<
        Vec<Range<usize>>,
        String,
    >)
        ensures
            match all_upload_ranges(*self, *command) {
                Ok(ranges) => r matches Ok(found) && found@.len() == ranges.len() && forall|i: int|
                    0 <= i < ranges.len() ==> (#[trigger] found@[i]).start == ranges[i].0
                        && found@[i].end == ranges[i].1,
                Err(e) => r matches Err(m) && m@ == e,
            },
    {
        if command.frames.len() != self.decodes.len() {
            return Err(
                String::from_str(
                    "AV1 aligned upload frame count mismatch: command_frames=",
                ).concat(size_text(command.frames.len()).as_str()).concat(", decodes=").concat(
                    size_text(self.decodes.len()).as_str(),
                ),
            );
        }
        let mut out: Vec<Range<usize>> = Vec::new();
        let mut i: usize = 0;
        while i < command.frames.len()
            invariant
                i <= command.frames.len(),
                command.frames.len() == self.decodes.len(),
                upload_ranges(*self, *command, i as nat) is Ok,
                upload_ranges(*self, *command, i as nat)->Ok_0.len() == i,
                out@.len() == i,
                forall|k: int|
                    0 <= k < i ==> (#[trigger] out@[k]).start == upload_ranges(
                        *self,
                        *command,
                        i as nat,
                    )->Ok_0[k].0 && out@[k].end == upload_ranges(
                        *self,
                        *command,
                        i as nat,
                    )->Ok_0[k].1,
            decreases command.frames.len() - i,
        {
            proof {
                if upload_ranges(*self, *command, (i + 1) as nat) is Err {
                    lemma_ranges_fault(*self, *command, (i + 1) as nat, command.frames@.len());
                }
            }
            let range = self.frame_upload_range(command, i)?;
            out.push(range);
            i = i + 1;
        }
        Ok(out)
    }

    /// What is handed over for each frame.
    pub fn frame_submit_bundles(&self, command: &Av1DecodeCommandSkeleton) -> (r: Result<
        Vec<Av1DecodeFrameSubmitBundle>,
        String,
    >)
        ensures
            match submit_fault(*self, *command) {
                Some(e) => r matches Err(m) && m@ == e,
                None => r matches Ok(bundles) && bundles_join(
                    bundles@,
                    record_bundles(*command, command.frames@.len())->Ok_0,
                    all_upload_ranges(*self, *command)->Ok_0,
                ),
            },
    {
        let records = command.frame_record_bundles()?;
        let ranges = self.frame_upload_ranges(command)?;
        proof {
            lemma_bundles_ok(*command, command.frames@.len());
            lemma_ranges_ok(*self, *command, command.frames@.len());
        }
        let ghost spans = all_upload_ranges(*self, *command)->Ok_0;
        let mut out: Vec<Av1DecodeFrameSubmitBundle> = Vec::new();
        let mut i: usize = 0;
        while i < records.len()
            invariant
                i <= records.len(),
                records@.len() == ranges@.len(),
                ranges@.len() == spans.len(),
                forall|k: int|
                    0 <= k < spans.len() ==> (#[trigger] ranges@[k]).start == spans[k].0
                        && ranges@[k].end == spans[k].1,
                out@.len() == i,
                forall|k: int| 0 <= k < i ==> (#[trigger] out@[k]).joins(records@[k], spans[k]),
            decreases records.len() - i,
        {
            let record = records[i];
            assert(ranges@[i as int].start == spans[i as int].0);
            out.push(
                Av1DecodeFrameSubmitBundle {
                    frame_index: record.frame_index,
                    temporal_unit_index: record.temporal_unit_index,
                    decode_info_index: record.decode_info_index,
                    setup_slot_index: record.setup_slot_index,
                    dst_base_array_layer: record.dst_base_array_layer,
                    src_buffer_offset: record.src_buffer_offset,
                    src_buffer_range: record.src_buffer_range,
                    tile_count: record.tile_count,
                    upload_range: Range { start: ranges[i].start, end: ranges[i].end },
                },
            );
            i = i + 1;
        }
        Ok(out)
    }

    /// The decode operation of one frame.
    pub fn with_frame_decode_info(
        &self,
        command: &Av1DecodeCommandSkeleton,
        frame_index: usize,
    ) -> (r: Result<Av1FrameDecode, String>)
        ensures
            match submit_fault(*self, *command) {
                Some(e) => r matches Err(m) && m@ == e,
                None => if frame_index < command.frames@.len() {
                    r == Ok::<Av1FrameDecode, String>(
                        frame_decode(*self, *command, frame_index as int),
                    )
                } else {
                    r matches Err(m) && m@ == "AV1 frame "@ + decimal(frame_index as nat)
                        + " is missing from submit bundles"@
                },
            },
    {
        let bundles = self.frame_submit_bundles(command)?;
        proof {
            lemma_bundles_ok(*command, command.frames@.len());
        }
        let ghost records = record_bundles(*command, command.frames@.len())->Ok_0;
        let mut i: usize = 0;
        while i < bundles.len()
            invariant
                i <= bundles.len(),
                i <= frame_index,
                bundles@.len() == command.frames@.len(),
                command.frames@.len() == self.decodes@.len(),
                submit_fault(*self, *command) is None,
                records == record_bundles(*command, command.frames@.len())->Ok_0,
                records.len() == bundles@.len(),
                forall|k: int|
                    0 <= k < records.len() ==> record_bundle(*command, k) == Ok::<
                        Av1DecodeFrameRecordBundle,
                        Seq<char>,
                    >(#[trigger] records[k]),
                bundles_join(bundles@, records, all_upload_ranges(*self, *command)->Ok_0),
            decreases bundles.len() - i,
        {
            let bundle = &bundles[i];
            assert(bundle.joins(
                records[i as int],
                all_upload_ranges(*self, *command)->Ok_0[i as int],
            ));
            assert(record_bundle(*command, i as int) is Ok);
            if bundle.frame_index == frame_index {
                let decode = &self.decodes[bundle.decode_info_index];
                return Ok(
                    Av1FrameDecode {
                        frame_index: bundle.frame_index,
                        temporal_unit_index: bundle.temporal_unit_index,
                        decode_info_index: bundle.decode_info_index,
                        setup_slot_index: bundle.setup_slot_index,
                        dst_base_array_layer: bundle.dst_base_array_layer,
                        src_buffer_offset: decode.src_buffer_offset,
                        src_buffer_range: decode.src_buffer_range,
                        tile_count: bundle.tile_count,
                        upload_start: bundle.upload_range.start,
                        upload_end: bundle.upload_range.end,
                        coded_width: decode.coded_width,
                        coded_height: decode.coded_height,
                    },
                );
            }
            i = i + 1;
        }
        Err(
            String::from_str("AV1 frame ").concat(size_text(frame_index).as_str()).concat(
                " is missing from submit bundles",
            ),
        )
    }

    /// The decode operations of all frames in the order of the command.
    pub fn with_frame_decode_infos(&self, command: &Av1DecodeCommandSkeleton) -> (r: Result<
        Vec<Av1FrameDecode>,
        String,
    >)
        ensures
            match sequence_fault(*self, *command) {
                Some(e) => r matches Err(m) && m@ == e,
                None => r matches Ok(decodes) && decodes@ == Seq::new(
                    command.frames@.len(),
                    |i: int| frame_decode(*self, *command, i),
                ),
            },
    {
        let mut out: Vec<Av1FrameDecode> = Vec::new();
        let mut i: usize = 0;
        while i < command.frames.len()
            invariant
                i <= command.frames.len(),
                i > 0 ==> submit_fault(*self, *command) is None,
                out@ == Seq::new(i as nat, |k: int| frame_decode(*self, *command, k)),
            decreases command.frames.len() - i,
        {
            proof {
                if submit_fault(*self, *command) is None {
                    lemma_bundles_ok(*command, command.frames@.len());
                    let record = record_bundles(*command, command.frames@.len())->Ok_0[i as int];
                    assert(record_bundle(*command, i as int) == Ok::<
                        Av1DecodeFrameRecordBundle,
                        Seq<char>,
                    >(record));
                }
            }
            let decode = self.with_frame_decode_info(command, command.frames[i].frame_index)?;
            out.push(decode);
            i = i + 1;
            assert(out@ =~= Seq::new(i as nat, |k: int| frame_decode(*self, *command, k)));
        }
        Ok(out)
    }

    /// The commands in order. Where plan and command do not fit, the sequence stops
    /// behind its opening.
    pub fn visit_decode_command_sequence(&self, command: &Av1DecodeCommandSkeleton) -> (r: (
        Vec<Av1DecodeCommandVisit>,
        Result<(), String>,
    ))
        ensures
            match sequence_fault(*self, *command) {
                Some(e) => r.0@ == opening(*command) && (r.1 matches Err(m) && m@ == e),
                None => r.0@ == visits(*self, *command) && r.1 is Ok,
            },
    {
        let mut out: Vec<Av1DecodeCommandVisit> = Vec::new();
        out.push(
            Av1DecodeCommandVisit::BeginCoding { reference_slot_count: command.begin_slots.len() },
        );
        out.push(Av1DecodeCommandVisit::ResetCoding);
        assert(out@ =~= opening(*command));
        let decodes = match self.with_frame_decode_infos(command) {
            Ok(decodes) => decodes,
            Err(e) => {
                return (out, Err(e));
            },
        };
        let mut i: usize = 0;
        while i < decodes.len()
            invariant
                i <= decodes.len(),
                decodes@ == Seq::new(
                    command.frames@.len(),
                    |k: int| frame_decode(*self, *command, k),
                ),
                out@ =~= opening(*command) + Seq::new(
                    i as nat,
                    |k: int| Av1DecodeCommandVisit::DecodeFrame(frame_decode(*self, *command, k)),
                ),
            decreases decodes.len() - i,
        {
            out.push(Av1DecodeCommandVisit::DecodeFrame(decodes[i]));
            i = i + 1;
        }
        out.push(Av1DecodeCommandVisit::EndCoding);
        assert(out@ =~= visits(*self, *command));
        (out, Ok(()))
    }

    /// What recording the commands comes to, given the first error that recording one
    /// of them met.
    pub fn record_decode_command_sequence(
        &self,
        command: &Av1DecodeCommandSkeleton,
        first_error: Option<String>,
    ) -> (r: Result<Av1DecodeCommandRecordSummary, String>)
        ensures
            match (sequence_fault(*self, *command), first_error) {
                (Some(e), _) => r matches Err(m) && m@ == e,
                (None, Some(e)) => r == Err::<Av1DecodeCommandRecordSummary, String>(e),
                (None, None) => r == Ok::<Av1DecodeCommandRecordSummary, String>(
                    Av1DecodeCommandRecordSummary {
                        begin_count: 1,
                        reset_count: 1,
                        decode_count: command.frames@.len() as usize,
                        end_count: 1,
                    },
                ),
            },
    {
        let (_visits, outcome) = self.visit_decode_command_sequence(command);
        outcome?;
        match first_error {
            Some(e) => Err(e),
            None => Ok(
                Av1DecodeCommandRecordSummary {
                    begin_count: 1,
                    reset_count: 1,
                    decode_count: command.frames.len(),
                    end_count: 1,
                },
            ),
        }
    }
}

} // verus!
