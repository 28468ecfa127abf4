//! The commands that decode the frames of an AV1 bitstream.

use super::decode::{
    all_key_frames, build_av1_decode_info_skeletons, decode_infos, info_views,
    key_frame_std_reference_info_for_order_hint, Av1DecodeInfoSkeleton, Av1StdReferenceInfo,
    DecodeInfo,
};
use super::plan::{
    all_placed, build_av1_aligned_decode_bitstream_upload_plan, upload_allocatable,
    upload_bytes, upload_fault,
    Av1DecodeBitstreamUploadPlan,
};
use crate::text::{decimal, decimal_text, signed_decimal, signed_text, size_text};
use std::ops::Range;
use vstd::prelude::*;
use vstd::string::*;

verus! {

#[derive(Debug, Clone, Copy, PartialEq, Eq, Structural)]
pub struct Av1DecodeFrameCommandSkeleton {
    pub frame_index: usize,
    pub temporal_unit_index: usize,
    pub setup_slot_index: i32,
    pub src_buffer_offset: u64,
    pub src_buffer_range: u64,
    pub tile_count: usize,
}

#[derive(Debug, Clone, Copy, PartialEq, Eq, Structural)]
pub struct Av1BeginCodingSlotSkeleton {
    pub slot_index: i32,
    pub base_array_layer: u32,
}

#[derive(Debug, PartialEq, Eq)]
pub struct Av1DecodeCommandSkeleton {
    pub coded_width: u32,
    pub coded_height: u32,
    pub begin_slots: Vec<Av1BeginCodingSlotSkeleton>,
    pub frames: Vec<Av1DecodeFrameCommandSkeleton>,
}

#[derive(Debug, Clone, Copy, PartialEq, Eq, Structural)]
pub struct Av1DecodeFrameRecordBundle {
    pub frame_index: usize,
    pub temporal_unit_index: usize,
    pub decode_info_index: usize,
    pub setup_slot_index: i32,
    pub dst_base_array_layer: u32,
    pub src_buffer_offset: u64,
    pub src_buffer_range: u64,
    pub tile_count: usize,
}

#[derive(Debug, PartialEq, Eq)]
pub struct Av1DecodeFrameSubmitBundle {
    pub frame_index: usize,
    pub temporal_unit_index: usize,
    pub decode_info_index: usize,
    pub setup_slot_index: i32,
    pub dst_base_array_layer: u32,
    pub src_buffer_offset: u64,
    pub src_buffer_range: u64,
    pub tile_count: usize,
    pub upload_range: Range<usize>,
}

#[derive(Debug, Clone, Copy, PartialEq, Eq, Structural)]
pub enum Av1DecodeRecordStep {
    BeginCoding { reference_slot_count: usize },
    ResetCoding,
    DecodeFrame {
        frame_index: usize,
        temporal_unit_index: usize,
        setup_slot_index: i32,
        src_buffer_offset: u64,
        src_buffer_range: u64,
        tile_count: usize,
    },
    EndCoding,
}

/// A picture in an array image.
#[derive(Debug, Clone, Copy, PartialEq, Eq, Structural)]
pub struct Av1PictureResource {
    pub coded_width: u32,
    pub coded_height: u32,
    pub base_array_layer: u32,
}

/// A reference slot and its picture.
#[derive(Debug, Clone, Copy, PartialEq, Eq, Structural)]
pub struct Av1ReferenceSlot {
    pub slot_index: i32,
    pub resource: Av1PictureResource,
}

// ---------------------------------------------------------------------------
// From decode operations to commands

/// Slot `i` stores in layer `i`.
pub open spec fn numbered_slots(count: nat) -> Seq<Av1BeginCodingSlotSkeleton> {
    Seq::new(
        count,
        |i: int| Av1BeginCodingSlotSkeleton { slot_index: i as i32, base_array_layer: i as u32 },
    )
}

/// The command of frame `i`. Setup slots are used in turn.
pub open spec fn frame_command(infos: Seq<DecodeInfo>, slots: nat, i: int) ->
    Av1DecodeFrameCommandSkeleton {
    Av1DecodeFrameCommandSkeleton {
        frame_index: i as usize,
        temporal_unit_index: infos[i].temporal_unit as usize,
        setup_slot_index: (i % slots as int) as i32,
        src_buffer_offset: infos[i].source as u64,
        src_buffer_range: infos[i].range as u64,
        tile_count: infos[i].picture.offsets.len() as usize,
    }
}

/// Why there is no command for these operations, if there is none.
pub open spec fn command_fault(infos: Seq<DecodeInfo>, max_dpb_slots: nat) -> Option<Seq<char>> {
    if max_dpb_slots == 0 {
        Some("AV1 decode command skeleton requires at least one DPB slot"@)
    } else if max_dpb_slots > usize::MAX {
        Some("AV1 max_dpb_slots does not fit usize"@)
    } else if infos.len() == 0 {
        Some("missing AV1 frames for decode command skeleton"@)
    } else if max_dpb_slots > 0x8000_0000 {
        Some("AV1 begin-coding slot index exceeds i32 range"@)
    } else {
        None
    }
}

/// The command decodes these operations with this many slots.
pub open spec fn commands(
    command: Av1DecodeCommandSkeleton,
    infos: Seq<DecodeInfo>,
    slots: nat,
) -> bool {
    &&& command.coded_width == infos[0].width
    &&& command.coded_height == infos[0].height
    &&& command.begin_slots@ == numbered_slots(slots)
    &&& command.frames@ == Seq::new(infos.len(), |i: int| frame_command(infos, slots, i))
}

pub fn build_av1_key_frame_decode_command_skeleton_from_decodes(
    decodes: &Vec<Av1DecodeInfoSkeleton>,
    max_dpb_slots: u32,
) -> (r: Result<Av1DecodeCommandSkeleton, String>)
    ensures
        match command_fault(info_views(decodes@), max_dpb_slots as nat) {
            Some(e) => r matches Err(m) && m@ == e,
            None => r matches Ok(command) && commands(
                command,
                info_views(decodes@),
                max_dpb_slots as nat,
            ),
        },
{
    let ghost infos = info_views(decodes@);
    if max_dpb_slots == 0 {
        return Err(
            String::from_str("AV1 decode command skeleton requires at least one DPB slot"),
        );
    }
    if max_dpb_slots as u64 > usize::MAX as u64 {
        return Err(String::from_str("AV1 max_dpb_slots does not fit usize"));
    }
    if decodes.len() == 0 {
        return Err(String::from_str("missing AV1 frames for decode command skeleton"));
    }
    if max_dpb_slots > 0x8000_0000 {
        return Err(String::from_str("AV1 begin-coding slot index exceeds i32 range"));
    }
    let slots: usize = max_dpb_slots as usize;
    let mut begin_slots: Vec<Av1BeginCodingSlotSkeleton> = Vec::new();
    let mut s: usize = 0;
    while s < slots
        invariant
            s <= slots <= 0x8000_0000,
            begin_slots@ == numbered_slots(s as nat),
        decreases slots - s,
    {
        begin_slots.push(
            Av1BeginCodingSlotSkeleton { slot_index: s as i32, base_array_layer: s as u32 },
        );
        s = s + 1;
        assert(begin_slots@ =~= numbered_slots(s as nat));
    }
    let mut frames: Vec<Av1DecodeFrameCommandSkeleton> = Vec::new();
    let mut i: usize = 0;
    while i < decodes.len()
        invariant
            i <= decodes.len(),
            0 < slots <= 0x8000_0000,
            infos == info_views(decodes@),
            frames@ == Seq::new(i as nat, |k: int| frame_command(infos, slots as nat, k)),
        decreases decodes.len() - i,
    {
        assert(infos[i as int] == decodes@[i as int]@);
        frames.push(
            Av1DecodeFrameCommandSkeleton {
                frame_index: i,
                temporal_unit_index: decodes[i].temporal_unit_index,
                setup_slot_index: (i % slots) as i32,
                src_buffer_offset: decodes[i].src_buffer_offset,
                src_buffer_range: decodes[i].src_buffer_range,
                tile_count: decodes[i].tile_count(),
            },
        );
        i = i + 1;
        assert(frames@ =~= Seq::new(i as nat, |k: int| frame_command(infos, slots as nat, k)));
    }
    assert(infos[0] == decodes@[0]@);
    Ok(
        Av1DecodeCommandSkeleton {
            coded_width: decodes[0].coded_width,
            coded_height: decodes[0].coded_height,
            begin_slots,
            frames,
        },
    )
}

/// The command that decodes a bitstream from where it stands.
pub fn build_av1_key_frame_decode_command_skeleton(bitstream: &[u8], max_dpb_slots: u32) -> (r:
    Result<Av1DecodeCommandSkeleton, String>)
    ensures
        match decode_infos(bitstream@) {
            Err(e) => r matches Err(m) && m@ == e,
            Ok(infos) => match command_fault(infos, max_dpb_slots as nat) {
                Some(e) => r matches Err(m) && m@ == e,
                None => r matches Ok(command) && commands(command, infos, max_dpb_slots as nat),
            },
        },
{
    let decodes = build_av1_decode_info_skeletons(bitstream)?;
    build_av1_key_frame_decode_command_skeleton_from_decodes(&decodes, max_dpb_slots)
}

/// The upload buffer for a bitstream and the command that decodes from it.
pub fn build_av1_aligned_key_frame_decode_command_skeleton(
    bitstream: &[u8],
    max_dpb_slots: u32,
    offset_alignment: u64,
    size_alignment: u64,
) -> (r: Result<(Av1DecodeBitstreamUploadPlan, Av1DecodeCommandSkeleton), String>)
    requires
        decode_infos(bitstream@) matches Ok(infos) ==> upload_allocatable(
            infos,
            offset_alignment as int,
            size_alignment as int,
            infos.len(),
        ),
    ensures
        match decode_infos(bitstream@) {
            Err(e) => r matches Err(m) && m@ == e,
            Ok(infos) => {
                let held = all_placed(infos, offset_alignment as int, size_alignment as int);
                let unplaced = upload_fault(
                    infos,
                    offset_alignment as int,
                    size_alignment as int,
                    infos.len(),
                );
                match (unplaced, command_fault(held, max_dpb_slots as nat)) {
                    (Some(e), _) => r matches Err(m) && m@ == e,
                    (None, Some(e)) => r matches Err(m) && m@ == e,
                    (None, None) => r matches Ok(found) && found.0.bytes@ == upload_bytes(
                        bitstream@,
                        infos,
                        offset_alignment as int,
                        size_alignment as int,
                        infos.len(),
                    ) && info_views(found.0.decodes@) == held && all_key_frames(
                        found.0.decodes@,
                    ) && commands(
                        found.1,
                        held,
                        max_dpb_slots as nat,
                    ),
                }
            },
        },
{
    let plan = build_av1_aligned_decode_bitstream_upload_plan(
        bitstream,
        offset_alignment,
        size_alignment,
    )?;
    let command = build_av1_key_frame_decode_command_skeleton_from_decodes(
        &plan.decodes,
        max_dpb_slots,
    )?;
    Ok((plan, command))
}

// ---------------------------------------------------------------------------
// Frames and their slots

/// The position of the first slot with an index, or the number of slots.
pub open spec fn slot_position(slots: Seq<Av1BeginCodingSlotSkeleton>, index: i32, from: int) -> int
    decreases slots.len() - from,
{
    if from >= slots.len() {
        slots.len() as int
    } else if slots[from].slot_index == index {
        from
    } else {
        slot_position(slots, index, from + 1)
    }
}

/// What is recorded for frame `i`, or why the command is at odds with itself.
pub open spec fn record_bundle(command: Av1DecodeCommandSkeleton, i: int) -> Result<
    Av1DecodeFrameRecordBundle,
    Seq<char>,
> {
    let frame = command.frames@[i];
    let at = slot_position(command.begin_slots@, frame.setup_slot_index, 0);
    let slot = command.begin_slots@[at];
    if frame.frame_index != i {
        Err(
            "AV1 frame/decode-info index mismatch: frame_index="@ + decimal(
                frame.frame_index as nat,
            ) + ", decode_info_index="@ + decimal(i as nat),
        )
    } else if at >= command.begin_slots@.len() {
        Err(
            "AV1 frame "@ + decimal(frame.frame_index as nat)
                + " references unavailable setup slot "@ + signed_decimal(
                frame.setup_slot_index as int,
            ),
        )
    } else if frame.setup_slot_index < 0 {
        Err("AV1 frame setup slot index is negative"@)
    } else if slot.base_array_layer != frame.setup_slot_index {
        Err(
            "AV1 setup slot/base layer mismatch: slot="@ + signed_decimal(
                frame.setup_slot_index as int,
            ) + ", base_layer="@ + decimal(slot.base_array_layer as nat),
        )
    } else {
        Ok(
            Av1DecodeFrameRecordBundle {
                frame_index: frame.frame_index,
                temporal_unit_index: frame.temporal_unit_index,
                decode_info_index: i as usize,
                setup_slot_index: frame.setup_slot_index,
                dst_base_array_layer: slot.base_array_layer,
                src_buffer_offset: frame.src_buffer_offset,
                src_buffer_range: frame.src_buffer_range,
                tile_count: frame.tile_count,
            },
        )
    }
}

/// What is recorded for the first `n` frames.
pub open spec fn record_bundles(command: Av1DecodeCommandSkeleton, n: nat) -> Result<
    Seq<Av1DecodeFrameRecordBundle>,
    Seq<char>,
>
    decreases n,
{
    if n == 0 {
        Ok(Seq::empty())
    } else {
        match record_bundles(command, (n - 1) as nat) {
            Err(e) => Err(e),
            Ok(before) => match record_bundle(command, n - 1) {
                Err(e) => Err(e),
                Ok(bundle) => Ok(before.push(bundle)),
            },
        }
    }
}

proof fn lemma_bundles_fault(command: Av1DecodeCommandSkeleton, n: nat, total: nat)
    requires
        n <= total,
        record_bundles(command, n) is Err,
    ensures
        record_bundles(command, total) == record_bundles(command, n),
    decreases total,
{
    if n < total {
        lemma_bundles_fault(command, n, (total - 1) as nat);
    }
}

/// Where the bundles of a command are given, there is one for each frame, in order.
pub proof fn lemma_bundles_ok(command: Av1DecodeCommandSkeleton, n: nat)
    requires
        record_bundles(command, n) is Ok,
    ensures
        record_bundles(command, n)->Ok_0.len() == n,
        forall|i: int|
            0 <= i < n ==> record_bundle(command, i) == Ok::<
                Av1DecodeFrameRecordBundle,
                Seq<char>,
            >(#[trigger] record_bundles(command, n)->Ok_0[i]),
    decreases n,
{
    if n > 0 {
        lemma_bundles_ok(command, (n - 1) as nat);
    }
}

proof fn lemma_slot_position_numbered(count: nat, index: int, from: int)
    requires
        0 <= from <= index < count,
        count <= 0x8000_0000,
    ensures
        slot_position(numbered_slots(count), index as i32, from) == index,
    decreases index - from,
{
    if from < index {
        assert(numbered_slots(count)[from].slot_index == from);
        lemma_slot_position_numbered(count, index, from + 1);
    }
}

/// A command that was built from decode operations is consistent: every frame is
/// recorded, in order, and stored in the layer of its slot, which goes round through
/// all slots.
pub proof fn law_built_commands_are_consistent(
    command: Av1DecodeCommandSkeleton,
    infos: Seq<DecodeInfo>,
    slots: nat,
    n: nat,
)
    requires
        command_fault(infos, slots) is None,
        commands(command, infos, slots),
        n <= infos.len(),
        infos.len() <= usize::MAX,
    ensures
        record_bundles(command, n) matches Ok(bundles) && bundles.len() == n && forall|i: int|
            0 <= i < n ==> (#[trigger] bundles[i]).frame_index == i && bundles[i].setup_slot_index
                == i % slots as int && bundles[i].dst_base_array_layer == i % slots as int,
    decreases n,
{
    if n > 0 {
        law_built_commands_are_consistent(command, infos, slots, (n - 1) as nat);
        let i = n - 1;
        assert(command.frames@[i] == frame_command(infos, slots, i));
        vstd::arithmetic::div_mod::lemma_mod_bound(i, slots as int);
        lemma_slot_position_numbered(slots, i % slots as int, 0);
    }
}

impl Av1DecodeCommandSkeleton {
    pub open spec fn resource(self, layer: u32) -> Av1PictureResource {
        Av1PictureResource {
            coded_width: self.coded_width,
            coded_height: self.coded_height,
            base_array_layer: layer,
        }
    }

    pub fn coded_extent(&self) -> (r: (u32, u32))
        ensures
            r == (self.coded_width, self.coded_height),
    {
        (self.coded_width, self.coded_height)
    }

    fn find_slot(&self, index: i32) -> (r: usize)
        ensures
            r == slot_position(self.begin_slots@, index, 0),
            r <= self.begin_slots@.len(),
    {
        let mut i: usize = 0;
        while i < self.begin_slots.len()
            invariant
                i <= self.begin_slots.len(),
                slot_position(self.begin_slots@, index, 0) == slot_position(
                    self.begin_slots@,
                    index,
                    i as int,
                ),
            decreases self.begin_slots.len() - i,
        {
            if self.begin_slots[i].slot_index == index {
                return i;
            }
            i = i + 1;
        }
        i
    }

    /// What is recorded for one frame.
    fn frame_record_bundle(&self, at: usize) -> (r: Result<Av1DecodeFrameRecordBundle, String>)
        requires
            at < self.frames@.len(),
        ensures
            match record_bundle(*self, at as int) {
                Ok(bundle) => r == Ok::<Av1DecodeFrameRecordBundle, String>(bundle),
                Err(e) => r matches Err(m) && m@ == e,
            },
    {
        let frame = self.frames[at];
        if frame.frame_index != at {
            return Err(
                String::from_str("AV1 frame/decode-info index mismatch: frame_index=").concat(
                    size_text(frame.frame_index).as_str(),
                ).concat(", decode_info_index=").concat(size_text(at).as_str()),
            );
        }
        let slot_at: usize = self.find_slot(frame.setup_slot_index);
        if slot_at >= self.begin_slots.len() {
            return Err(
                String::from_str("AV1 frame ").concat(
                    size_text(frame.frame_index).as_str(),
                ).concat(" references unavailable setup slot ").concat(
                    signed_text(frame.setup_slot_index as i64).as_str(),
                ),
            );
        }
        let slot = self.begin_slots[slot_at];
        if frame.setup_slot_index < 0 {
            return Err(String::from_str("AV1 frame setup slot index is negative"));
        }
        if slot.base_array_layer != frame.setup_slot_index as u32 {
            return Err(
                String::from_str("AV1 setup slot/base layer mismatch: slot=").concat(
                    signed_text(frame.setup_slot_index as i64).as_str(),
                ).concat(", base_layer=").concat(
                    decimal_text(slot.base_array_layer as u64).as_str(),
                ),
            );
        }
        Ok(
            Av1DecodeFrameRecordBundle {
                frame_index: frame.frame_index,
                temporal_unit_index: frame.temporal_unit_index,
                decode_info_index: at,
                setup_slot_index: frame.setup_slot_index,
                dst_base_array_layer: slot.base_array_layer,
                src_buffer_offset: frame.src_buffer_offset,
                src_buffer_range: frame.src_buffer_range,
                tile_count: frame.tile_count,
            },
        )
    }

    pub fn frame_record_bundles(&self) -> (r: Result<Vec<Av1DecodeFrameRecordBundle>, String>)
        ensures
            match record_bundles(*self, self.frames@.len()) {
                Ok(bundles) => r matches Ok(found) && found@ == bundles,
                Err(e) => r matches Err(m) && m@ == e,
            },
    {
        let mut bundles: Vec<Av1DecodeFrameRecordBundle> = Vec::new();
        let mut i: usize = 0;
        while i < self.frames.len()
            invariant
                i <= self.frames.len(),
                record_bundles(*self, i as nat) == Ok::<
                    Seq<Av1DecodeFrameRecordBundle>,
                    Seq<char>,
                >(bundles@),
            decreases self.frames.len() - i,
        {
            proof {
                if record_bundles(*self, (i + 1) as nat) is Err {
                    lemma_bundles_fault(*self, (i + 1) as nat, self.frames@.len());
                }
            }
            let bundle = self.frame_record_bundle(i)?;
            bundles.push(bundle);
            i = i + 1;
        }
        Ok(bundles)
    }

    /// The pictures of all slots.
    pub fn begin_picture_resources(&self) -> (r: Vec<Av1PictureResource>)
        ensures
            r@ == Seq::new(
                self.begin_slots@.len(),
                |i: int| self.resource(self.begin_slots@[i].base_array_layer),
            ),
    {
        let mut out: Vec<Av1PictureResource> = Vec::new();
        let mut i: usize = 0;
        while i < self.begin_slots.len()
            invariant
                i <= self.begin_slots.len(),
                out@ == Seq::new(
                    i as nat,
                    |k: int| self.resource(self.begin_slots@[k].base_array_layer),
                ),
            decreases self.begin_slots.len() - i,
        {
            out.push(
                Av1PictureResource {
                    coded_width: self.coded_width,
                    coded_height: self.coded_height,
                    base_array_layer: self.begin_slots[i].base_array_layer,
                },
            );
            i = i + 1;
            assert(out@ =~= Seq::new(
                i as nat,
                |k: int| self.resource(self.begin_slots@[k].base_array_layer),
            ));
        }
        out
    }

    /// The pictures that the frames are decoded into.
    pub fn frame_picture_resources(&self) -> (r: Result<Vec<Av1PictureResource>, String>)
        ensures
            match record_bundles(*self, self.frames@.len()) {
                Ok(bundles) => r matches Ok(found) && found@ == Seq::new(
                    bundles.len(),
                    |i: int| self.resource(bundles[i].dst_base_array_layer),
                ),
                Err(e) => r matches Err(m) && m@ == e,
            },
    {
        let bundles = self.frame_record_bundles()?;
        let mut out: Vec<Av1PictureResource> = Vec::new();
        let mut i: usize = 0;
        while i < bundles.len()
            invariant
                i <= bundles.len(),
                out@ == Seq::new(
                    i as nat,
                    |k: int| self.resource(bundles@[k].dst_base_array_layer),
                ),
            decreases bundles.len() - i,
        {
            out.push(
                Av1PictureResource {
                    coded_width: self.coded_width,
                    coded_height: self.coded_height,
                    base_array_layer: bundles[i].dst_base_array_layer,
                },
            );
            i = i + 1;
            assert(out@ =~= Seq::new(
                i as nat,
                |k: int| self.resource(bundles@[k].dst_base_array_layer),
            ));
        }
        Ok(out)
    }

    /// What each slot holds at first: key frames.
    pub fn begin_std_reference_infos(&self) -> (r: Vec<Av1StdReferenceInfo>)
        ensures
            r@ == Seq::new(
                self.begin_slots@.len(),
                |i: int| (Av1StdReferenceInfo { frame_type: 0, order_hint: 0 }),
            ),
    {
        let mut out: Vec<Av1StdReferenceInfo> = Vec::new();
        let mut i: usize = 0;
        while i < self.begin_slots.len()
            invariant
                i <= self.begin_slots.len(),
                out@ == Seq::new(
                    i as nat,
                    |k: int| (Av1StdReferenceInfo { frame_type: 0, order_hint: 0 }),
                ),
            decreases self.begin_slots.len() - i,
        {
            out.push(key_frame_std_reference_info_for_order_hint(0));
            i = i + 1;
            assert(out@ =~= Seq::new(
                i as nat,
                |k: int| (Av1StdReferenceInfo { frame_type: 0, order_hint: 0 }),
            ));
        }
        out
    }

    /// Checks that there is one reference for each slot.
    pub fn begin_dpb_slot_infos(&self, reference_infos: &Vec<Av1StdReferenceInfo>) -> (r: Result<
        (),
        String,
    >)
        ensures
            r is Ok <==> reference_infos@.len() == self.begin_slots@.len(),
            r matches Err(m) ==> m@ == "AV1 begin reference info count mismatch: refs="@ + decimal(
                reference_infos@.len(),
            ) + ", slots="@ + decimal(self.begin_slots@.len()),
    {
        if reference_infos.len() != self.begin_slots.len() {
            return Err(
                String::from_str("AV1 begin reference info count mismatch: refs=").concat(
                    size_text(reference_infos.len()).as_str(),
                ).concat(", slots=").concat(size_text(self.begin_slots.len()).as_str()),
            );
        }
        Ok(())
    }

    /// The slots with their pictures, given one reference for each.
    pub fn begin_reference_slots(
        &self,
        picture_resources: &Vec<Av1PictureResource>,
        reference_infos: &Vec<Av1StdReferenceInfo>,
    ) -> (r: Result<Vec<Av1ReferenceSlot>, String>)
        ensures
            if picture_resources@.len() != self.begin_slots@.len() {
                r matches Err(m) && m@ == "AV1 begin picture resource count mismatch: resources="@
                    + decimal(picture_resources@.len()) + ", slots="@ + decimal(
                    self.begin_slots@.len(),
                )
            } else if reference_infos@.len() != self.begin_slots@.len() {
                r matches Err(m) && m@ == "AV1 begin DPB slot info count mismatch: dpb_infos="@
                    + decimal(reference_infos@.len()) + ", slots="@ + decimal(
                    self.begin_slots@.len(),
                )
            } else {
                r matches Ok(slots) && slots@ == Seq::new(
                    self.begin_slots@.len(),
                    |i: int|
                        (Av1ReferenceSlot {
                            slot_index: self.begin_slots@[i].slot_index,
                            resource: picture_resources@[i],
                        }),
                )
            },
    {
        if picture_resources.len() != self.begin_slots.len() {
            return Err(
                String::from_str("AV1 begin picture resource count mismatch: resources=").concat(
                    size_text(picture_resources.len()).as_str(),
                ).concat(", slots=").concat(size_text(self.begin_slots.len()).as_str()),
            );
        }
        if reference_infos.len() != self.begin_slots.len() {
            return Err(
                String::from_str("AV1 begin DPB slot info count mismatch: dpb_infos=").concat(
                    size_text(reference_infos.len()).as_str(),
                ).concat(", slots=").concat(size_text(self.begin_slots.len()).as_str()),
            );
        }
        let mut out: Vec<Av1ReferenceSlot> = Vec::new();
        let mut i: usize = 0;
        while i < self.begin_slots.len()
            invariant
                i <= self.begin_slots.len(),
                picture_resources.len() == self.begin_slots.len(),
                out@ == Seq::new(
                    i as nat,
                    |k: int|
                        (Av1ReferenceSlot {
                            slot_index: self.begin_slots@[k].slot_index,
                            resource: picture_resources@[k],
                        }),
                ),
            decreases self.begin_slots.len() - i,
        {
            out.push(
                Av1ReferenceSlot {
                    slot_index: self.begin_slots[i].slot_index,
                    resource: picture_resources[i],
                },
            );
            i = i + 1;
            assert(out@ =~= Seq::new(
                i as nat,
                |k: int|
                    (Av1ReferenceSlot {
                        slot_index: self.begin_slots@[k].slot_index,
                        resource: picture_resources@[k],
                    }),
            ));
        }
        Ok(out)
    }

    /// Checks that the scope is opened with all slots.
    pub fn vk_begin_coding_info(&self, reference_slots: &Vec<Av1ReferenceSlot>) -> (r: Result<
        usize,
        String,
    >)
        ensures
            match r {
                Ok(count) => reference_slots@.len() == self.begin_slots@.len() && count
                    == reference_slots@.len(),
                Err(m) => reference_slots@.len() != self.begin_slots@.len() && m@
                    == "AV1 begin reference slot count mismatch: reference_slots="@ + decimal(
                    reference_slots@.len(),
                ) + ", slots="@ + decimal(self.begin_slots@.len()),
            },
    {
        if reference_slots.len() != self.begin_slots.len() {
            return Err(
                String::from_str(
                    "AV1 begin reference slot count mismatch: reference_slots=",
                ).concat(size_text(reference_slots.len()).as_str()).concat(", slots=").concat(
                    size_text(self.begin_slots.len()).as_str(),
                ),
            );
        }
        Ok(reference_slots.len())
    }

    /// The step that decodes frame `i`.
    pub open spec fn frame_step(self, i: int) -> Av1DecodeRecordStep {
        Av1DecodeRecordStep::DecodeFrame {
            frame_index: self.frames@[i].frame_index,
            temporal_unit_index: self.frames@[i].temporal_unit_index,
            setup_slot_index: self.frames@[i].setup_slot_index,
            src_buffer_offset: self.frames@[i].src_buffer_offset,
            src_buffer_range: self.frames@[i].src_buffer_range,
            tile_count: self.frames@[i].tile_count,
        }
    }

    /// The scope is opened and reset, the frames are decoded in order, and the scope
    /// is closed.
    pub open spec fn steps(self) -> Seq<Av1DecodeRecordStep> {
        seq![
            Av1DecodeRecordStep::BeginCoding {
                reference_slot_count: self.begin_slots@.len() as usize,
            },
            Av1DecodeRecordStep::ResetCoding,
        ] + Seq::new(self.frames@.len(), |i: int| self.frame_step(i)) + seq![
            Av1DecodeRecordStep::EndCoding,
        ]
    }

    pub fn record_steps(&self) -> (r: Vec<Av1DecodeRecordStep>)
        ensures
            r@ == self.steps(),
    {
        let mut steps: Vec<Av1DecodeRecordStep> = Vec::new();
        steps.push(
            Av1DecodeRecordStep::BeginCoding { reference_slot_count: self.begin_slots.len() },
        );
        steps.push(Av1DecodeRecordStep::ResetCoding);
        let ghost head = steps@;
        let mut i: usize = 0;
        while i < self.frames.len()
            invariant
                i <= self.frames.len(),
                steps@ == head + Seq::new(i as nat, |k: int| self.frame_step(k)),
            decreases self.frames.len() - i,
        {
            let frame = self.frames[i];
            steps.push(
                Av1DecodeRecordStep::DecodeFrame {
                    frame_index: frame.frame_index,
                    temporal_unit_index: frame.temporal_unit_index,
                    setup_slot_index: frame.setup_slot_index,
                    src_buffer_offset: frame.src_buffer_offset,
                    src_buffer_range: frame.src_buffer_range,
                    tile_count: frame.tile_count,
                },
            );
            i = i + 1;
            assert(steps@ =~= head + Seq::new(i as nat, |k: int| self.frame_step(k)));
        }
        steps.push(Av1DecodeRecordStep::EndCoding);
        assert(steps@ =~= self.steps());
        steps
    }
}

} // verus!
