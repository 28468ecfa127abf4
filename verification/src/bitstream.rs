//! Annex-B and length-prefixed bitstreams: splitting, converting, grouping into
//! access units and collecting parameter sets.

use crate::bits::{bit_at, exp_golomb, rbsp_from_ebsp, unescaped, BitReader};
use crate::text::{decimal, size_text};
use crate::types::{Codec, EncodedLayout, Timestamp90k};
use std::marker::PhantomData;
use vstd::prelude::*;
use vstd::slice::*;
use vstd::string::*;

verus! {

#[derive(Debug, Clone, PartialEq, Eq)]
pub enum BitstreamError {
    Invalid(String),
    UnsupportedLayout { codec: Codec, layout: EncodedLayout },
    OpaquePayload,
    EmptyAccessUnit,
    AccessUnitTooLarge { actual: usize, limit: usize },
}

/// The error is `Invalid` with this message.
pub open spec fn is_invalid(error: BitstreamError, message: Seq<char>) -> bool {
    error matches BitstreamError::Invalid(m) && m@ == message
}

#[derive(Debug, Clone, Copy, PartialEq, Eq, Structural)]
pub enum ValidationLevel {
    Full,
    StructuralOnly,
    TrustCaller,
}

impl Default for ValidationLevel {
    fn default() -> (r: Self)
        ensures
            r == ValidationLevel::StructuralOnly,
    {
        ValidationLevel::StructuralOnly
    }
}

#[derive(Debug, Clone, Copy, PartialEq, Eq, Structural)]
pub enum CopyPolicy {
    BorrowWhenPossible,
    AlwaysOwned,
}

impl Default for CopyPolicy {
    fn default() -> (r: Self)
        ensures
            r == CopyPolicy::BorrowWhenPossible,
    {
        CopyPolicy::BorrowWhenPossible
    }
}

#[derive(Debug, Clone, Copy, PartialEq, Eq, Structural)]
pub struct BitstreamParseOptions {
    pub validation: ValidationLevel,
    pub copy_policy: CopyPolicy,
}

impl Default for BitstreamParseOptions {
    fn default() -> (r: Self)
        ensures
            r.validation == ValidationLevel::StructuralOnly,
            r.copy_policy == CopyPolicy::BorrowWhenPossible,
    {
        BitstreamParseOptions {
            validation: ValidationLevel::StructuralOnly,
            copy_policy: CopyPolicy::BorrowWhenPossible,
        }
    }
}

// ---------------------------------------------------------------------------
// Start codes

pub open spec fn long_start_code() -> Seq<u8> {
    seq![0u8, 0u8, 0u8, 1u8]
}

/// The length of the start code at a position: 4, 3, or 0 where there is none.
pub open spec fn start_code_len(b: Seq<u8>, i: int) -> int {
    if 0 <= i && i + 4 <= b.len() && b[i] == 0 && b[i + 1] == 0 && b[i + 2] == 0 && b[i + 3] == 1 {
        4
    } else if 0 <= i && i + 3 <= b.len() && b[i] == 0 && b[i + 1] == 0 && b[i + 2] == 1 {
        3
    } else {
        0
    }
}

/// The first position from `i` on at which a start code stands, or the length of
/// the data where there is none.
pub open spec fn next_start(b: Seq<u8>, i: int) -> int
    decreases b.len() - i,
{
    if i >= b.len() {
        b.len() as int
    } else if start_code_len(b, i) > 0 {
        i
    } else {
        next_start(b, i + 1)
    }
}

/// The NAL units from `i` on, where `i` is behind a start code. A unit reaches to
/// the next start code or to the end of the data; empty units are left out.
pub open spec fn units_from(b: Seq<u8>, i: int) -> Seq<Seq<u8>>
    decreases b.len() - i,
    when 0 <= i <= b.len()
    via units_from_decreases
{
    let end = next_start(b, i);
    let first = if i < end { seq![b.subrange(i, end)] } else { Seq::empty() };
    if end < b.len() {
        first + units_from(b, end + start_code_len(b, end))
    } else {
        first
    }
}

#[via_fn]
proof fn units_from_decreases(b: Seq<u8>, i: int) {
    lemma_next_start(b, i);
}

/// The NAL units of an Annex-B byte string, where it holds a start code. What
/// precedes the first start code belongs to no unit.
pub open spec fn annexb_units(b: Seq<u8>) -> Option<Seq<Seq<u8>>> {
    let first = next_start(b, 0);
    if first < b.len() {
        Some(units_from(b, first + start_code_len(b, first)))
    } else {
        None
    }
}

/// A byte string in which no start code stands.
pub open spec fn free_of_start_codes(b: Seq<u8>) -> bool {
    forall|i: int| start_code_len(b, i) == 0
}

proof fn lemma_next_start(b: Seq<u8>, i: int)
    requires
        0 <= i <= b.len(),
    ensures
        i <= next_start(b, i) <= b.len(),
        next_start(b, i) < b.len() ==> start_code_len(b, next_start(b, i)) > 0,
        forall|j: int| i <= j < next_start(b, i) ==> start_code_len(b, j) == 0,
    decreases b.len() - i,
{
    if i < b.len() && start_code_len(b, i) == 0 {
        lemma_next_start(b, i + 1);
    }
}

/// What splitting gives back holds no start code and is not empty.
proof fn lemma_units_plain(b: Seq<u8>, i: int)
    requires
        0 <= i <= b.len(),
    ensures
        forall|k: int|
            0 <= k < units_from(b, i).len() ==> units_from(b, i)[k].len() > 0
                && free_of_start_codes(#[trigger] units_from(b, i)[k]),
    decreases b.len() - i,
{
    lemma_next_start(b, i);
    let end = next_start(b, i);
    let unit = b.subrange(i, end);
    assert forall|k: int| start_code_len(unit, k) == 0 by {
        if start_code_len(unit, k) > 0 {
            assert(start_code_len(b, i + k) > 0);
        }
    }
    let first = if i < end { seq![unit] } else { Seq::empty() };
    let rest = if end < b.len() {
        units_from(b, end + start_code_len(b, end))
    } else {
        Seq::empty()
    };
    if end < b.len() {
        lemma_units_plain(b, end + start_code_len(b, end));
    }
    assert(units_from(b, i) =~= first + rest);
    assert forall|k: int| 0 <= k < units_from(b, i).len() implies units_from(b, i)[k].len() > 0
        && free_of_start_codes(#[trigger] units_from(b, i)[k]) by {
        if k < first.len() {
            assert(units_from(b, i)[k] == unit);
        } else {
            assert(units_from(b, i)[k] == rest[k - first.len()]);
        }
    }
}

/// The bytes behind a leading start code.
pub open spec fn stripped(b: Seq<u8>) -> Seq<u8> {
    b.skip(start_code_len(b, 0))
}

/// The units one after the other, each behind a four byte start code.
pub open spec fn annexb_bytes(units: Seq<Seq<u8>>) -> Seq<u8>
    decreases units.len(),
{
    if units.len() == 0 {
        Seq::empty()
    } else {
        annexb_bytes(units.drop_last()) + long_start_code() + stripped(units.last())
    }
}

// ---------------------------------------------------------------------------
// Length prefixes

/// A number in big endian order.
pub open spec fn be_bytes(value: nat, count: nat) -> Seq<u8>
    decreases count,
{
    if count == 0 {
        Seq::empty()
    } else {
        be_bytes(value / 256, (count - 1) as nat).push((value % 256) as u8)
    }
}

/// The number that bytes in big endian order spell.
pub open spec fn be_value(b: Seq<u8>) -> nat
    decreases b.len(),
{
    if b.len() == 0 {
        0
    } else {
        256 * be_value(b.drop_last()) + b.last() as nat
    }
}

proof fn lemma_be_value_bound(b: Seq<u8>)
    requires
        b.len() <= 4,
    ensures
        b.len() == 1 ==> be_value(b) <= 0xff,
        b.len() == 2 ==> be_value(b) <= 0xffff,
        b.len() == 3 ==> be_value(b) <= 0xff_ffff,
        be_value(b) <= 0xffff_ffff,
    decreases b.len(),
{
    if b.len() > 0 {
        lemma_be_value_bound(b.drop_last());
        if b.len() == 1 {
            assert(be_value(b.drop_last()) == 0);
        }
    }
}

/// What stands in `count` bytes is read back as it was written.
proof fn lemma_be_round_trip(value: nat, count: nat)
    requires
        count == 0 ==> value == 0,
        count == 1 ==> value <= 0xff,
        count == 2 ==> value <= 0xffff,
        count == 3 ==> value <= 0xff_ffff,
        count == 4 ==> value <= 0xffff_ffff,
        count <= 4,
    ensures
        be_bytes(value, count).len() == count,
        be_value(be_bytes(value, count)) == value,
    decreases count,
{
    if count > 0 {
        lemma_be_round_trip(value / 256, (count - 1) as nat);
        assert(be_bytes(value, count).drop_last() =~= be_bytes(value / 256, (count - 1) as nat));
    }
}

/// The size of a length prefix in bytes.
#[derive(Debug, Clone, Copy, PartialEq, Eq, Structural)]
pub enum NalLengthSize {
    One,
    Two,
    Four,
}

impl NalLengthSize {
    pub open spec fn spec_bytes(self) -> nat {
        match self {
            NalLengthSize::One => 1,
            NalLengthSize::Two => 2,
            NalLengthSize::Four => 4,
        }
    }

    /// The greatest length that the prefix can hold.
    pub open spec fn limit(self) -> nat {
        match self {
            NalLengthSize::One => 0xff,
            NalLengthSize::Two => 0xffff,
            NalLengthSize::Four => 0xffff_ffff,
        }
    }

    pub fn bytes(self) -> (r: usize)
        ensures
            r == self.spec_bytes(),
    {
        match self {
            NalLengthSize::One => 1,
            NalLengthSize::Two => 2,
            NalLengthSize::Four => 4,
        }
    }

    pub fn from_bytes(value: usize) -> (r: Result<NalLengthSize, BitstreamError>)
        ensures
            r is Ok <==> value == 1 || value == 2 || value == 4,
            r matches Ok(size) ==> size.spec_bytes() == value,
            r matches Err(e) ==> is_invalid(
                e,
                "unsupported NAL length size: "@ + decimal(value as nat),
            ),
    {
        match value {
            1 => Ok(NalLengthSize::One),
            2 => Ok(NalLengthSize::Two),
            4 => Ok(NalLengthSize::Four),
            _ => Err(
                BitstreamError::Invalid(
                    String::from_str("unsupported NAL length size: ").concat(
                        size_text(value).as_str(),
                    ),
                ),
            ),
        }
    }
}

/// Every unit's length fits the prefix.
pub open spec fn all_fit(units: Seq<Seq<u8>>, size: NalLengthSize) -> bool {
    forall|k: int| 0 <= k < units.len() ==> (#[trigger] units[k]).len() <= size.limit()
}

/// The units one after the other, each behind its length.
pub open spec fn length_prefixed_bytes(units: Seq<Seq<u8>>, size: NalLengthSize) -> Seq<u8>
    decreases units.len(),
{
    if units.len() == 0 {
        Seq::empty()
    } else {
        length_prefixed_bytes(units.drop_last(), size) + be_bytes(
            units.last().len(),
            size.spec_bytes(),
        ) + units.last()
    }
}

/// Why a byte string is no length-prefixed sample.
pub enum SampleFault {
    /// A length is zero or reaches past the end.
    BadLength,
    /// Fewer bytes than a prefix needs are left over.
    TrailingBytes,
}

/// The units of a length-prefixed byte string.
pub open spec fn sample_units(b: Seq<u8>, size: NalLengthSize) -> Result<
    Seq<Seq<u8>>,
    SampleFault,
>
    decreases b.len(),
{
    let n = size.spec_bytes();
    if b.len() < n {
        if b.len() == 0 {
            Ok(Seq::empty())
        } else {
            Err(SampleFault::TrailingBytes)
        }
    } else {
        let length = be_value(b.take(n as int));
        let rest = b.skip(n as int);
        if length == 0 || rest.len() < length {
            Err(SampleFault::BadLength)
        } else {
            match sample_units(rest.skip(length as int), size) {
                Ok(units) => Ok(seq![rest.take(length as int)] + units),
                Err(fault) => Err(fault),
            }
        }
    }
}

pub open spec fn sample_fault_message(fault: SampleFault) -> Seq<char> {
    match fault {
        SampleFault::BadLength => "invalid length-prefixed sample payload"@,
        SampleFault::TrailingBytes => "trailing bytes after length-prefixed sample parse"@,
    }
}

// ---------------------------------------------------------------------------
// Views on bytes

#[derive(Debug, Clone, PartialEq, Eq)]
pub struct AnnexBAccessUnit(Vec<u8>);

#[derive(Debug, Clone, Copy, PartialEq, Eq)]
pub struct AnnexBAccessUnitRef<'a>(&'a [u8]);

#[derive(Debug, Clone, PartialEq, Eq)]
pub struct NalUnit(Vec<u8>);

#[derive(Debug, Clone, Copy, PartialEq, Eq)]
pub struct NalUnitRef<'a>(&'a [u8]);

#[derive(Debug, Clone, PartialEq, Eq)]
pub struct LengthPrefixedSample(Vec<u8>);

#[derive(Debug, Clone, Copy, PartialEq, Eq)]
pub struct LengthPrefixedSampleRef<'a>(&'a [u8]);

#[derive(Debug, Clone, PartialEq, Eq)]
pub struct DecodePayload(Vec<u8>);

impl View for AnnexBAccessUnit {
    type V = Seq<u8>;

    closed spec fn view(&self) -> Seq<u8> {
        self.0@
    }
}

impl<'a> View for AnnexBAccessUnitRef<'a> {
    type V = Seq<u8>;

    closed spec fn view(&self) -> Seq<u8> {
        self.0@
    }
}

impl View for NalUnit {
    type V = Seq<u8>;

    closed spec fn view(&self) -> Seq<u8> {
        self.0@
    }
}

impl<'a> View for NalUnitRef<'a> {
    type V = Seq<u8>;

    closed spec fn view(&self) -> Seq<u8> {
        self.0@
    }
}

impl View for LengthPrefixedSample {
    type V = Seq<u8>;

    closed spec fn view(&self) -> Seq<u8> {
        self.0@
    }
}

impl<'a> View for LengthPrefixedSampleRef<'a> {
    type V = Seq<u8>;

    closed spec fn view(&self) -> Seq<u8> {
        self.0@
    }
}

impl View for DecodePayload {
    type V = Seq<u8>;

    closed spec fn view(&self) -> Seq<u8> {
        self.0@
    }
}

pub open spec fn ref_views(units: Seq<NalUnitRef>) -> Seq<Seq<u8>> {
    Seq::new(units.len(), |i: int| units[i]@)
}

pub open spec fn unit_views(units: Seq<NalUnit>) -> Seq<Seq<u8>> {
    Seq::new(units.len(), |i: int| units[i]@)
}

pub open spec fn access_unit_views(units: Seq<AnnexBAccessUnit>) -> Seq<Seq<u8>> {
    Seq::new(units.len(), |i: int| units[i]@)
}

/// A copy of a byte slice.
pub fn copy_bytes(data: &[u8]) -> (r: Vec<u8>)
    ensures
        r@ == data@,
{
    let mut out: Vec<u8> = Vec::new();
    out.extend_from_slice(data);
    assert(out@ =~= data@);
    out
}

impl BitstreamError {
    /// The text of the error.
    pub open spec fn text(self) -> Seq<char> {
        match self {
            BitstreamError::Invalid(message) => "invalid bitstream: "@ + message@,
            BitstreamError::UnsupportedLayout { codec, layout } => layout_text(codec, layout),
            BitstreamError::OpaquePayload => "opaque encoded payload cannot be converted"@,
            BitstreamError::EmptyAccessUnit => "access unit is empty"@,
            BitstreamError::AccessUnitTooLarge { actual, limit } =>
                "access unit exceeds configured byte limit: "@ + decimal(actual as nat) + " > "@
                + decimal(limit as nat),
        }
    }

    pub fn to_string(&self) -> (r: String)
        ensures
            r@ == self.text(),
    {
        match self {
            BitstreamError::Invalid(message) => String::from_str("invalid bitstream: ").concat(
                message.as_str(),
            ),
            BitstreamError::UnsupportedLayout { codec, layout } => String::from_str(
                "unsupported bitstream layout: codec=",
            ).concat(codec.to_string().as_str()).concat(", layout=").concat(
                layout.to_string().as_str(),
            ),
            BitstreamError::OpaquePayload => String::from_str(
                "opaque encoded payload cannot be converted",
            ),
            BitstreamError::EmptyAccessUnit => String::from_str("access unit is empty"),
            BitstreamError::AccessUnitTooLarge { actual, limit } => String::from_str(
                "access unit exceeds configured byte limit: ",
            ).concat(size_text(*actual).as_str()).concat(" > ").concat(size_text(*limit).as_str()),
        }
    }
}

pub open spec fn layout_text(codec: Codec, layout: EncodedLayout) -> Seq<char> {
    "unsupported bitstream layout: codec="@ + codec.text() + ", layout="@ + layout.text()
}

impl AnnexBAccessUnit {
    pub fn new(data: Vec<u8>) -> (r: Self)
        ensures
            r@ == data@,
    {
        AnnexBAccessUnit(data)
    }

    pub fn as_ref(&self) -> (r: AnnexBAccessUnitRef<'_>)
        ensures
            r@ == self@,
    {
        AnnexBAccessUnitRef(self.0.as_slice())
    }

    pub fn as_bytes(&self) -> (r: &[u8])
        ensures
            r@ == self@,
    {
        self.0.as_slice()
    }

    pub fn into_inner(self) -> (r: Vec<u8>)
        ensures
            r@ == self@,
    {
        self.0
    }
}

impl<'a> AnnexBAccessUnitRef<'a> {
    pub fn new(data: &'a [u8]) -> (r: Self)
        ensures
            r@ == data@,
    {
        AnnexBAccessUnitRef(data)
    }

    pub fn as_bytes(self) -> (r: &'a [u8])
        ensures
            r@ == self@,
    {
        self.0
    }

    pub fn to_owned_access_unit(self) -> (r: AnnexBAccessUnit)
        ensures
            r@ == self@,
    {
        AnnexBAccessUnit(copy_bytes(self.0))
    }
}

impl NalUnit {
    /// A leading start code is left out.
    pub fn new(data: Vec<u8>) -> (r: Self)
        ensures
            r@ == stripped(data@),
    {
        NalUnit(copy_bytes(strip_start_code(data.as_slice())))
    }

    pub fn as_ref(&self) -> (r: NalUnitRef<'_>)
        ensures
            r@ == self@,
    {
        NalUnitRef(self.0.as_slice())
    }

    pub fn as_bytes(&self) -> (r: &[u8])
        ensures
            r@ == self@,
    {
        self.0.as_slice()
    }

    pub fn into_inner(self) -> (r: Vec<u8>)
        ensures
            r@ == self@,
    {
        self.0
    }
}

impl<'a> NalUnitRef<'a> {
    /// A leading start code is left out.
    pub fn new(data: &'a [u8]) -> (r: Self)
        ensures
            r@ == stripped(data@),
    {
        NalUnitRef(strip_start_code(data))
    }

    pub fn as_bytes(self) -> (r: &'a [u8])
        ensures
            r@ == self@,
    {
        self.0
    }

    pub fn to_owned_nal(self) -> (r: NalUnit)
        ensures
            r@ == self@,
    {
        NalUnit(copy_bytes(self.0))
    }
}

impl LengthPrefixedSample {
    pub fn new(data: Vec<u8>) -> (r: Self)
        ensures
            r@ == data@,
    {
        LengthPrefixedSample(data)
    }

    pub fn as_ref(&self) -> (r: LengthPrefixedSampleRef<'_>)
        ensures
            r@ == self@,
    {
        LengthPrefixedSampleRef(self.0.as_slice())
    }

    pub fn as_bytes(&self) -> (r: &[u8])
        ensures
            r@ == self@,
    {
        self.0.as_slice()
    }

    pub fn into_inner(self) -> (r: Vec<u8>)
        ensures
            r@ == self@,
    {
        self.0
    }
}

impl<'a> LengthPrefixedSampleRef<'a> {
    pub fn new(data: &'a [u8]) -> (r: Self)
        ensures
            r@ == data@,
    {
        LengthPrefixedSampleRef(data)
    }

    pub fn as_bytes(self) -> (r: &'a [u8])
        ensures
            r@ == self@,
    {
        self.0
    }
}

impl DecodePayload {
    pub fn new(data: Vec<u8>) -> (r: Self)
        ensures
            r@ == data@,
    {
        DecodePayload(data)
    }

    pub fn as_bytes(&self) -> (r: &[u8])
        ensures
            r@ == self@,
    {
        self.0.as_slice()
    }

    pub fn into_inner(self) -> (r: Vec<u8>)
        ensures
            r@ == self@,
    {
        self.0
    }
}

// ---------------------------------------------------------------------------
// Splitting and converting

/// The length of the start code at a position.
fn start_code_at(bytes: &[u8], i: usize) -> (r: usize)
    requires
        i <= bytes.len(),
    ensures
        r == start_code_len(bytes@, i as int),
{
    let left: usize = bytes.len() - i;
    if left >= 4 && bytes[i] == 0 && bytes[i + 1] == 0 && bytes[i + 2] == 0 && bytes[i + 3] == 1 {
        4
    } else if left >= 3 && bytes[i] == 0 && bytes[i + 1] == 0 && bytes[i + 2] == 1 {
        3
    } else {
        0
    }
}

fn find_start(bytes: &[u8], from: usize) -> (r: usize)
    requires
        from <= bytes.len(),
    ensures
        r == next_start(bytes@, from as int),
        from <= r <= bytes.len(),
        r < bytes.len() ==> start_code_len(bytes@, r as int) > 0,
{
    let mut i: usize = from;
    while i < bytes.len()
        invariant
            from <= i <= bytes.len(),
            next_start(bytes@, i as int) == next_start(bytes@, from as int),
        decreases bytes.len() - i,
    {
        if start_code_at(bytes, i) > 0 {
            return i;
        }
        i = i + 1;
    }
    i
}

pub fn strip_start_code(data: &[u8]) -> (r: &[u8])
    ensures
        r@ == stripped(data@),
{
    let n: usize = start_code_at(data, 0);
    slice_subrange(data, n, data.len())
}

/// The NAL units of an Annex-B byte string.
pub fn split_annexb_nalus(data: AnnexBAccessUnitRef<'_>) -> (r: Result<
    Vec<NalUnitRef<'_>>,
    BitstreamError,
>)
    ensures
        r is Ok <==> annexb_units(data@) is Some,
        r matches Ok(units) ==> annexb_units(data@) == Some(ref_views(units@)),
        r matches Err(e) ==> is_invalid(e, "Annex-B payload does not contain a start code"@),
{
    let bytes = data.as_bytes();
    let first: usize = find_start(bytes, 0);
    if first >= bytes.len() {
        return Err(
            BitstreamError::Invalid(
                String::from_str("Annex-B payload does not contain a start code"),
            ),
        );
    }
    let mut units: Vec<NalUnitRef<'_>> = Vec::new();
    let mut i: usize = first + start_code_at(bytes, first);
    let ghost total = units_from(bytes@, i as int);
    let mut more: bool = true;
    assert(ref_views(units@) + total =~= total);
    while more
        invariant
            i <= bytes.len(),
            bytes@ == data@,
            more ==> ref_views(units@) + units_from(bytes@, i as int) == total,
            !more ==> ref_views(units@) == total,
        decreases bytes.len() - i, (if more { 1int } else { 0int }),
    {
        let end: usize = find_start(bytes, i);
        let ghost before = ref_views(units@);
        let ghost here = units_from(bytes@, i as int);
        let ghost first_unit: Seq<Seq<u8>> = if i < end {
            seq![bytes@.subrange(i as int, end as int)]
        } else {
            Seq::empty()
        };
        if i < end {
            units.push(NalUnitRef(slice_subrange(bytes, i, end)));
        }
        assert(ref_views(units@) =~= before + first_unit);
        if end < bytes.len() {
            i = end + start_code_at(bytes, end);
            assert(here =~= first_unit + units_from(bytes@, i as int));
            assert(ref_views(units@) + units_from(bytes@, i as int) =~= before + here);
        } else {
            more = false;
            assert(here =~= first_unit);
        }
    }
    Ok(units)
}

/// Appends a NAL unit behind a four byte start code. A start code that the unit
/// brings along is left out.
pub fn append_annexb_nalu(out: &mut Vec<u8>, nalu_or_start_coded_nalu: &[u8])
    ensures
        final(out)@ == old(out)@ + long_start_code() + stripped(nalu_or_start_coded_nalu@),
{
    out.push(0);
    out.push(0);
    out.push(0);
    out.push(1);
    assert(out@ =~= old(out)@ + long_start_code());
    let unit = strip_start_code(nalu_or_start_coded_nalu);
    out.extend_from_slice(unit);
    assert(out@ =~= old(out)@ + long_start_code() + stripped(nalu_or_start_coded_nalu@));
}

/// A digit behind a number of which only the lowest bits are kept.
proof fn lemma_wrapped_digit(n: int, digit: int)
    requires
        0 <= n,
        0 <= digit < 256,
    ensures
        ({
            let word = usize::MAX + 1;
            let high = (n % word) % (usize::MAX as int / 256 + 1);
            0 <= high * 256 + digit <= usize::MAX && (n * 256 + digit) % word == high * 256 + digit
        }),
{
    let word = usize::MAX + 1;
    let part = usize::MAX as int / 256 + 1;
    assert(word == 256 * part);
    vstd::arithmetic::div_mod::lemma_mod_mod(n, part, 256);
    assert(part * 256 == word) by (nonlinear_arith)
        requires
            word == 256 * part,
    ;
    let high = n % part;
    let q = n / part;
    vstd::arithmetic::div_mod::lemma_fundamental_div_mod(n, part);
    assert(n * 256 + digit == q * word + (high * 256 + digit)) by (nonlinear_arith)
        requires
            n == part * q + high,
            word == 256 * part,
    ;
    vstd::arithmetic::div_mod::lemma_fundamental_div_mod_converse(
        n * 256 + digit,
        word,
        q,
        high * 256 + digit,
    );
}

/// The number that bytes give in big endian order. Of a number that is too large, the
/// lowest bits are kept.
pub fn read_be_nal_length(bytes: &[u8]) -> (r: usize)
    ensures
        r == be_value(bytes@) % (usize::MAX as nat + 1),
        bytes@.len() <= 4 ==> r == be_value(bytes@),
{
    let mut value: usize = 0;
    let mut i: usize = 0;
    proof {
        assert(bytes@.take(0).len() == 0);
        vstd::arithmetic::div_mod::lemma_small_mod(0, usize::MAX as nat + 1);
    }
    while i < bytes.len()
        invariant
            i <= bytes.len(),
            value == be_value(bytes@.take(i as int)) % (usize::MAX as nat + 1),
        decreases bytes.len() - i,
    {
        let high: usize = value % (usize::MAX / 256 + 1);
        let byte: usize = bytes[i] as usize;
        proof {
            let next = bytes@.take(i + 1);
            assert(next.drop_last() =~= bytes@.take(i as int));
            lemma_wrapped_digit(be_value(next.drop_last()) as int, byte as int);
        }
        value = high * 256 + byte;
        i = i + 1;
    }
    proof {
        assert(bytes@.take(bytes@.len() as int) =~= bytes@);
        if bytes@.len() <= 4 {
            lemma_be_value_bound(bytes@);
            vstd::arithmetic::div_mod::lemma_small_mod(be_value(bytes@), usize::MAX as nat + 1);
        }
    }
    value
}

/// Appends a length in big endian order.
pub fn write_be_nal_length(out: &mut Vec<u8>, value: usize, size: NalLengthSize) -> (r: Result<
    (),
    BitstreamError,
>)
    ensures
        r is Ok <==> value <= size.limit(),
        r is Ok ==> final(out)@ == old(out)@ + be_bytes(value as nat, size.spec_bytes()),
        r matches Err(e) ==> final(out)@ == old(out)@ && is_invalid(
            e,
            "NAL unit length "@ + decimal(value as nat) + " does not fit in "@ + decimal(
                size.spec_bytes(),
            ) + " bytes"@,
        ),
{
    let max: u64 = match size {
        NalLengthSize::One => 0xff,
        NalLengthSize::Two => 0xffff,
        NalLengthSize::Four => 0xffff_ffff,
    };
    if value as u64 > max {
        return Err(
            BitstreamError::Invalid(
                String::from_str("NAL unit length ").concat(size_text(value).as_str()).concat(
                    " does not fit in ",
                ).concat(size_text(size.bytes()).as_str()).concat(" bytes"),
            ),
        );
    }
    let v: u32 = value as u32;
    proof {
        reveal_with_fuel(be_bytes, 5);
    }
    match size {
        NalLengthSize::One => {
            out.push((v % 256) as u8);
        },
        NalLengthSize::Two => {
            out.push((v / 256 % 256) as u8);
            out.push((v % 256) as u8);
        },
        NalLengthSize::Four => {
            out.push((v / 256 / 256 / 256 % 256) as u8);
            out.push((v / 256 / 256 % 256) as u8);
            out.push((v / 256 % 256) as u8);
            out.push((v % 256) as u8);
        },
    }
    assert(out@ =~= old(out)@ + be_bytes(value as nat, size.spec_bytes()));
    Ok(())
}

/// The position of the first unit that does not fit, or the number of units.
pub open spec fn first_too_long(units: Seq<Seq<u8>>, size: NalLengthSize) -> int
    decreases units.len(),
{
    if units.len() == 0 {
        0
    } else {
        let before = first_too_long(units.drop_last(), size);
        if before < units.len() - 1 {
            before
        } else if units.last().len() > size.limit() {
            units.len() - 1
        } else {
            units.len() as int
        }
    }
}

proof fn lemma_first_too_long(units: Seq<Seq<u8>>, size: NalLengthSize)
    ensures
        0 <= first_too_long(units, size) <= units.len(),
        first_too_long(units, size) == units.len() <==> all_fit(units, size),
    decreases units.len(),
{
    if units.len() > 0 {
        let rest = units.drop_last();
        lemma_first_too_long(rest, size);
        if all_fit(units, size) {
            assert forall|k: int| 0 <= k < rest.len() implies (#[trigger] rest[k]).len()
                <= size.limit() by {
                assert(units[k].len() <= size.limit());
            }
            assert(units[units.len() - 1].len() <= size.limit());
        }
        if first_too_long(units, size) == units.len() {
            assert forall|k: int| 0 <= k < units.len() implies (#[trigger] units[k]).len()
                <= size.limit() by {
                if k < rest.len() {
                    assert(rest[k].len() <= size.limit());
                }
            }
        }
    }
}

proof fn lemma_first_too_long_prefix(units: Seq<Seq<u8>>, n: int, size: NalLengthSize)
    requires
        0 <= n < units.len(),
        first_too_long(units.take(n), size) == n,
        units[n].len() > size.limit(),
    ensures
        first_too_long(units, size) == n,
    decreases units.len(),
{
    if n == units.len() - 1 {
        assert(units.drop_last() =~= units.take(n));
    } else {
        assert(units.drop_last().take(n) =~= units.take(n));
        lemma_first_too_long_prefix(units.drop_last(), n, size);
    }
}

/// Rewrites an Annex-B byte string as a length-prefixed sample.
pub fn annexb_to_length_prefixed(
    data: AnnexBAccessUnitRef<'_>,
    nal_length_size: NalLengthSize,
) -> (r: Result<LengthPrefixedSample, BitstreamError>)
    ensures
        r is Ok <==> (annexb_units(data@) matches Some(units) && all_fit(units, nal_length_size)),
        r matches Ok(sample) ==> sample@ == length_prefixed_bytes(
            annexb_units(data@)->0,
            nal_length_size,
        ),
        r matches Err(e) ==> match annexb_units(data@) {
            None => is_invalid(e, "Annex-B payload does not contain a start code"@),
            Some(units) => is_invalid(
                e,
                "NAL unit length "@ + decimal(
                    units[first_too_long(units, nal_length_size)].len(),
                ) + " does not fit in "@ + decimal(nal_length_size.spec_bytes()) + " bytes"@,
            ),
        },
{
    let nalus = split_annexb_nalus(data)?;
    let ghost units = ref_views(nalus@);
    let mut out: Vec<u8> = Vec::new();
    let mut i: usize = 0;
    while i < nalus.len()
        invariant
            i <= nalus.len(),
            units == ref_views(nalus@),
            annexb_units(data@) == Some(units),
            first_too_long(units.take(i as int), nal_length_size) == i,
            out@ == length_prefixed_bytes(units.take(i as int), nal_length_size),
        decreases nalus.len() - i,
    {
        let unit = nalus[i].as_bytes();
        proof {
            lemma_first_too_long(units, nal_length_size);
            if unit.len() > nal_length_size.limit() {
                lemma_first_too_long_prefix(units, i as int, nal_length_size);
            }
        }
        write_be_nal_length(&mut out, unit.len(), nal_length_size)?;
        out.extend_from_slice(unit);
        i = i + 1;
        proof {
            let now = units.take(i as int);
            assert(now.drop_last() =~= units.take(i - 1));
            assert(out@ =~= length_prefixed_bytes(now, nal_length_size));
        }
    }
    proof {
        assert(units.take(units.len() as int) =~= units);
        lemma_first_too_long(units, nal_length_size);
    }
    Ok(LengthPrefixedSample(out))
}

proof fn lemma_annexb_push(units: Seq<Seq<u8>>, unit: Seq<u8>)
    ensures
        annexb_bytes(units.push(unit)) == annexb_bytes(units) + long_start_code() + stripped(unit),
{
    assert(units.push(unit).drop_last() =~= units);
}

/// Rewrites a length-prefixed sample as an Annex-B byte string.
pub fn length_prefixed_to_annexb(
    data: LengthPrefixedSampleRef<'_>,
    nal_length_size: NalLengthSize,
) -> (r: Result<AnnexBAccessUnit, BitstreamError>)
    ensures
        match sample_units(data@, nal_length_size) {
            Ok(units) => r matches Ok(unit) && unit@ == annexb_bytes(units),
            Err(fault) => r matches Err(e) && is_invalid(e, sample_fault_message(fault)),
        },
{
    let mut out: Vec<u8> = Vec::new();
    let mut payload = data.as_bytes();
    let len_size: usize = nal_length_size.bytes();
    let ghost mut done = Seq::<Seq<u8>>::empty();
    while payload.len() >= len_size
        invariant
            len_size == nal_length_size.spec_bytes(),
            out@ == annexb_bytes(done),
            sample_units(data@, nal_length_size) == (match sample_units(
                payload@,
                nal_length_size,
            ) {
                Ok(units) => Ok::<Seq<Seq<u8>>, SampleFault>(done + units),
                Err(fault) => Err(fault),
            }),
        decreases payload.len(),
    {
        let ghost before = payload@;
        let head = slice_subrange(payload, 0, len_size);
        assert(head@ =~= before.take(len_size as int));
        let nal_len: usize = read_be_nal_length(head);
        payload = slice_subrange(payload, len_size, payload.len());
        assert(payload@ =~= before.skip(len_size as int));
        if nal_len == 0 || payload.len() < nal_len {
            return Err(
                BitstreamError::Invalid(String::from_str("invalid length-prefixed sample payload")),
            );
        }
        let ghost rest = payload@;
        let unit = slice_subrange(payload, 0, nal_len);
        assert(unit@ =~= rest.take(nal_len as int));
        append_annexb_nalu(&mut out, unit);
        payload = slice_subrange(payload, nal_len, payload.len());
        assert(payload@ =~= rest.skip(nal_len as int));
        proof {
            lemma_annexb_push(done, unit@);
            let tail = sample_units(payload@, nal_length_size);
            if tail is Ok {
                assert(done + (seq![unit@] + tail->Ok_0) =~= done.push(unit@) + tail->Ok_0);
            }
            done = done.push(unit@);
        }
    }
    if payload.len() > 0 {
        return Err(
            BitstreamError::Invalid(
                String::from_str("trailing bytes after length-prefixed sample parse"),
            ),
        );
    }
    assert(done + Seq::<Seq<u8>>::empty() =~= done);
    Ok(AnnexBAccessUnit(out))
}

// ---------------------------------------------------------------------------
// Round trips

proof fn lemma_annexb_front(units: Seq<Seq<u8>>)
    requires
        units.len() > 0,
    ensures
        annexb_bytes(units) == long_start_code() + stripped(units[0]) + annexb_bytes(
            units.drop_first(),
        ),
    decreases units.len(),
{
    if units.len() == 1 {
        assert(units.drop_last() =~= Seq::<Seq<u8>>::empty());
        assert(units.drop_first() =~= Seq::<Seq<u8>>::empty());
        assert(annexb_bytes(units) =~= long_start_code() + stripped(units[0]) + annexb_bytes(
            units.drop_first(),
        ));
    } else {
        lemma_annexb_front(units.drop_last());
        assert(units.drop_first().drop_last() =~= units.drop_last().drop_first());
        assert(units.drop_first().last() == units.last());
        assert(annexb_bytes(units) =~= long_start_code() + stripped(units[0]) + annexb_bytes(
            units.drop_first(),
        ));
    }
}

/// Units that splitting can give back.
pub open spec fn plain_units(units: Seq<Seq<u8>>) -> bool {
    forall|k: int|
        0 <= k < units.len() ==> (#[trigger] units[k]).len() > 0 && free_of_start_codes(units[k])
}

pub proof fn lemma_next_start_found(b: Seq<u8>, i: int, end: int)
    requires
        0 <= i <= end <= b.len(),
        forall|j: int| i <= j < end ==> start_code_len(b, j) == 0,
        end < b.len() ==> start_code_len(b, end) > 0,
    ensures
        next_start(b, i) == end,
    decreases end - i,
{
    if i < end {
        assert(start_code_len(b, i) == 0);
        lemma_next_start_found(b, i + 1, end);
    }
}

/// Behind any prefix the written units are read back.
#[verifier::spinoff_prover]
proof fn lemma_units_read_back(prefix: Seq<u8>, units: Seq<Seq<u8>>)
    requires
        plain_units(units),
    ensures
        units_from(prefix + annexb_bytes(units), prefix.len() as int) == units,
    decreases units.len(),
{
    let b = prefix + annexb_bytes(units);
    let p = prefix.len() as int;
    if units.len() == 0 {
        assert(units_from(b, p) =~= units);
    } else {
        let unit = units[0];
        let rest = units.drop_first();
        assert(unit.len() > 0 && free_of_start_codes(unit));
        assert(start_code_len(unit, 0) == 0);
        assert(stripped(unit) =~= unit);
        lemma_annexb_front(units);
        let tail = annexb_bytes(rest);
        let head = prefix + long_start_code() + unit;
        assert(b =~= head + tail);
        assert(plain_units(rest)) by {
            assert forall|k: int| 0 <= k < rest.len() implies (#[trigger] rest[k]).len() > 0
                && free_of_start_codes(rest[k]) by {
                assert(rest[k] == units[k + 1]);
            }
        }
        lemma_units_read_back(head, rest);
        assert(b[p] == 0 && b[p + 1] == 0 && b[p + 2] == 0 && b[p + 3] == 1);
        assert(start_code_len(b, p) == 4);
        lemma_next_start_found(b, p, p);
        let end = head.len() as int;
        if rest.len() > 0 {
            lemma_annexb_front(rest);
            assert(tail[0] == 0 && tail[1] == 0 && tail[2] == 0 && tail[3] == 1);
            assert(b[end] == tail[0] && b[end + 1] == tail[1] && b[end + 2] == tail[2] && b[end + 3]
                == tail[3]);
            assert(start_code_len(b, end) == 4);
        } else {
            assert(tail.len() == 0);
        }
        assert forall|j: int| p + 4 <= j < end implies start_code_len(b, j) == 0 by {
            let k = j - (p + 4);
            assert(start_code_len(unit, k) == 0);
            assert(b[j] == unit[k]);
            if k + 1 < unit.len() {
                assert(b[j + 1] == unit[k + 1]);
            }
            if k + 2 < unit.len() {
                assert(b[j + 2] == unit[k + 2]);
            }
            if k + 3 < unit.len() {
                assert(b[j + 3] == unit[k + 3]);
            }
        }
        lemma_next_start_found(b, p + 4, end);
        assert(b.subrange(p + 4, end) =~= unit);
        lemma_next_start_found(b, end, end);
        if rest.len() > 0 {
            assert(units_from(b, end) =~= units_from(b, end + 4));
            assert(units_from(b, p + 4) =~= seq![unit] + units_from(b, end + 4));
        } else {
            assert(units_from(b, p + 4) =~= seq![unit]);
        }
        assert(units_from(b, p) =~= units_from(b, p + 4));
        assert(seq![unit] + rest =~= units);
    }
}

/// Splitting gives back the units that were written: a unit that is not empty and
/// holds no start code comes out of an Annex-B byte string as it went in.
#[verifier::spinoff_prover]
pub proof fn law_split_reads_back_appended_units(units: Seq<Seq<u8>>)
    requires
        units.len() > 0,
        plain_units(units),
    ensures
        annexb_units(annexb_bytes(units)) == Some(units),
{
    let b = annexb_bytes(units);
    lemma_units_read_back(Seq::empty(), units);
    assert(Seq::<u8>::empty() + b =~= b);
    lemma_annexb_front(units);
    assert(start_code_len(b, 0) == 4);
    assert(next_start(b, 0) == 0);
    assert(units_from(b, 0) =~= units_from(b, 4));
}

/// The units of an Annex-B byte string are never empty and hold no start code.
pub proof fn law_split_units_are_plain(data: Seq<u8>)
    requires
        annexb_units(data) is Some,
    ensures
        plain_units(annexb_units(data)->0),
{
    lemma_next_start(data, 0);
    let first = next_start(data, 0);
    let from = first + start_code_len(data, first);
    lemma_units_plain(data, from);
    let units = units_from(data, from);
    assert forall|k: int| 0 <= k < units.len() implies (#[trigger] units[k]).len() > 0
        && free_of_start_codes(units[k]) by {}
}

proof fn lemma_prefixed_front(units: Seq<Seq<u8>>, size: NalLengthSize)
    requires
        units.len() > 0,
    ensures
        length_prefixed_bytes(units, size) == be_bytes(units[0].len(), size.spec_bytes())
            + units[0] + length_prefixed_bytes(units.drop_first(), size),
    decreases units.len(),
{
    let front = be_bytes(units[0].len(), size.spec_bytes()) + units[0];
    if units.len() == 1 {
        assert(units.drop_last() =~= Seq::<Seq<u8>>::empty());
        assert(units.drop_first() =~= Seq::<Seq<u8>>::empty());
        assert(length_prefixed_bytes(units, size) =~= front + length_prefixed_bytes(
            units.drop_first(),
            size,
        ));
    } else {
        lemma_prefixed_front(units.drop_last(), size);
        assert(units.drop_first().drop_last() =~= units.drop_last().drop_first());
        assert(units.drop_first().last() == units.last());
        assert(length_prefixed_bytes(units, size) =~= front + length_prefixed_bytes(
            units.drop_first(),
            size,
        ));
    }
}

/// A length-prefixed sample gives back the units that were written into it.
pub proof fn law_length_prefixed_round_trip(units: Seq<Seq<u8>>, size: NalLengthSize)
    requires
        all_fit(units, size),
        forall|k: int| 0 <= k < units.len() ==> (#[trigger] units[k]).len() > 0,
    ensures
        sample_units(length_prefixed_bytes(units, size), size) == Ok::<
            Seq<Seq<u8>>,
            SampleFault,
        >(units),
    decreases units.len(),
{
    let b = length_prefixed_bytes(units, size);
    let n = size.spec_bytes() as int;
    if units.len() == 0 {
        assert(sample_units(b, size) == Ok::<Seq<Seq<u8>>, SampleFault>(Seq::empty()));
        assert(units =~= Seq::empty());
    } else {
        let rest = units.drop_first();
        let unit = units[0];
        let tail = length_prefixed_bytes(rest, size);
        lemma_prefixed_front(units, size);
        lemma_be_round_trip(unit.len(), size.spec_bytes());
        assert forall|k: int| 0 <= k < rest.len() implies (#[trigger] rest[k]).len() > 0
            && rest[k].len() <= size.limit() by {
            assert(rest[k] == units[k + 1]);
        }
        law_length_prefixed_round_trip(rest, size);
        assert(b.take(n) =~= be_bytes(unit.len(), size.spec_bytes()));
        assert(b.skip(n) =~= unit + tail);
        assert(b.skip(n).take(unit.len() as int) =~= unit);
        assert(b.skip(n).skip(unit.len() as int) =~= tail);
        assert(seq![unit] + rest =~= units);
    }
}

/// Converting Annex-B data to a length-prefixed sample and back keeps the NAL units:
/// the result is the same units, each behind a four byte start code, and splitting
/// it gives them once more.
pub proof fn law_annexb_round_trip(data: Seq<u8>, size: NalLengthSize)
    requires
        annexb_units(data) is Some,
        all_fit(annexb_units(data)->0, size),
    ensures
        sample_units(length_prefixed_bytes(annexb_units(data)->0, size), size) == Ok::<
            Seq<Seq<u8>>,
            SampleFault,
        >(annexb_units(data)->0),
        annexb_units(data)->0.len() > 0 ==> annexb_units(annexb_bytes(annexb_units(data)->0))
            == annexb_units(data),
{
    law_split_units_are_plain(data);
    let units = annexb_units(data)->0;
    law_length_prefixed_round_trip(units, size);
    if units.len() > 0 {
        law_split_reads_back_appended_units(units);
    }
}

// ---------------------------------------------------------------------------
// Access units

pub open spec fn h264_type(unit: Seq<u8>) -> Option<u8> {
    if unit.len() == 0 { None } else { Some(unit[0] & 0x1f) }
}

pub open spec fn hevc_type(unit: Seq<u8>) -> Option<u8> {
    if unit.len() == 0 { None } else { Some((unit[0] >> 1) & 0x3f) }
}

pub fn h264_nal_type(nalu: &[u8]) -> (r: Option<u8>)
    ensures
        r == h264_type(nalu@),
{
    if nalu.len() == 0 { None } else { Some(nalu[0] & 0x1f) }
}

pub fn hevc_nal_type(nalu: &[u8]) -> (r: Option<u8>)
    ensures
        r == hevc_type(nalu@),
{
    if nalu.len() == 0 { None } else { Some((nalu[0] >> 1) & 0x3f) }
}

/// What a NAL unit means for the limits of an access unit.
#[derive(Debug, Clone, Copy, PartialEq, Eq, Structural)]
pub enum NaluClassification {
    Vcl { first_slice: Option<bool> },
    Boundary,
    Other,
}

/// Every bit of the data can be addressed.
pub open spec fn bits_addressable(b: Seq<u8>) -> bool {
    8 * b.len() <= usize::MAX
}

/// The address of the first macroblock in an H.264 slice.
pub open spec fn h264_first_mb(unit: Seq<u8>) -> Option<nat> {
    let rbsp = unescaped(unit.skip(1)).0;
    if unit.len() < 1 || !bits_addressable(rbsp) {
        None
    } else {
        match exp_golomb(rbsp, 0, 0) {
            Some((value, _)) => Some(value),
            None => None,
        }
    }
}

/// Whether an HEVC slice segment is the first one of its picture.
pub open spec fn hevc_first_segment(unit: Seq<u8>) -> Option<bool> {
    let rbsp = unescaped(unit.skip(2)).0;
    if unit.len() < 2 || rbsp.len() == 0 || !bits_addressable(rbsp) {
        None
    } else {
        Some(bit_at(rbsp, 0))
    }
}

pub open spec fn classification(codec: Codec, unit: Seq<u8>) -> NaluClassification {
    match codec {
        Codec::H264 => match h264_type(unit) {
            Some(t) => if 1 <= t && t <= 5 {
                NaluClassification::Vcl {
                    first_slice: match h264_first_mb(unit) {
                        Some(first_mb) => Some(first_mb == 0),
                        None => None,
                    },
                }
            } else if 6 <= t && t <= 9 {
                NaluClassification::Boundary
            } else {
                NaluClassification::Other
            },
            None => NaluClassification::Other,
        },
        Codec::Hevc => match hevc_type(unit) {
            Some(t) => if t <= 31 {
                NaluClassification::Vcl { first_slice: hevc_first_segment(unit) }
            } else if t <= 35 || t == 39 || t == 40 {
                NaluClassification::Boundary
            } else {
                NaluClassification::Other
            },
            None => NaluClassification::Other,
        },
        Codec::Av1 => NaluClassification::Other,
    }
}

pub fn h264_first_mb_in_slice(nalu: &[u8]) -> (r: Option<u32>)
    ensures
        h264_first_mb(nalu@) == (match r {
            Some(value) => Some(value as nat),
            None => None,
        }),
{
    if nalu.len() < 1 {
        return None;
    }
    let body = slice_subrange(nalu, 1, nalu.len());
    assert(body@ =~= nalu@.skip(1));
    let rbsp = rbsp_from_ebsp(body);
    let mut bits = BitReader::new(rbsp.as_slice());
    bits.read_ue()
}

pub fn hevc_first_slice_segment_in_pic_flag(nalu: &[u8]) -> (r: Option<bool>)
    ensures
        r == hevc_first_segment(nalu@),
{
    if nalu.len() < 2 {
        return None;
    }
    let body = slice_subrange(nalu, 2, nalu.len());
    assert(body@ =~= nalu@.skip(2));
    let rbsp = rbsp_from_ebsp(body);
    let mut bits = BitReader::new(rbsp.as_slice());
    bits.read_bit()
}

pub fn classify_nalu(codec: Codec, nalu: &[u8]) -> (r: NaluClassification)
    ensures
        r == classification(codec, nalu@),
{
    match codec {
        Codec::H264 => match h264_nal_type(nalu) {
            Some(t) => if 1 <= t && t <= 5 {
                NaluClassification::Vcl {
                    first_slice: match h264_first_mb_in_slice(nalu) {
                        Some(first_mb) => Some(first_mb == 0),
                        None => None,
                    },
                }
            } else if 6 <= t && t <= 9 {
                NaluClassification::Boundary
            } else {
                NaluClassification::Other
            },
            None => NaluClassification::Other,
        },
        Codec::Hevc => match hevc_nal_type(nalu) {
            Some(t) => if t <= 31 {
                NaluClassification::Vcl { first_slice: hevc_first_slice_segment_in_pic_flag(nalu) }
            } else if t <= 35 || t == 39 || t == 40 {
                NaluClassification::Boundary
            } else {
                NaluClassification::Other
            },
            None => NaluClassification::Other,
        },
        Codec::Av1 => NaluClassification::Other,
    }
}

/// Units gathered into access units: the finished groups, the group in progress and
/// whether it holds a coded slice.
pub struct Grouping {
    pub done: Seq<Seq<Seq<u8>>>,
    pub current: Seq<Seq<u8>>,
    pub seen_vcl: bool,
}

/// Whether a unit opens a new access unit where a coded slice has been seen.
pub open spec fn opens_access_unit(class: NaluClassification) -> bool {
    match class {
        NaluClassification::Boundary => true,
        NaluClassification::Vcl { first_slice } => first_slice != Some(false),
        NaluClassification::Other => false,
    }
}

pub open spec fn grouped(codec: Codec, units: Seq<Seq<u8>>) -> Grouping
    decreases units.len(),
{
    if units.len() == 0 {
        Grouping { done: Seq::empty(), current: Seq::empty(), seen_vcl: false }
    } else {
        let before = grouped(codec, units.drop_last());
        let class = classification(codec, units.last());
        let split = before.seen_vcl && opens_access_unit(class);
        Grouping {
            done: if split { before.done.push(before.current) } else { before.done },
            current: if split { seq![units.last()] } else { before.current.push(units.last()) },
            seen_vcl: (before.seen_vcl && !split) || class is Vcl,
        }
    }
}

/// The access units: groups of consecutive NAL units.
pub open spec fn access_unit_groups(codec: Codec, units: Seq<Seq<u8>>) -> Seq<Seq<Seq<u8>>> {
    let state = grouped(codec, units);
    if state.current.len() > 0 { state.done.push(state.current) } else { state.done }
}

pub open spec fn all_annexb_bytes(groups: Seq<Seq<Seq<u8>>>) -> Seq<Seq<u8>> {
    Seq::new(groups.len(), |i: int| annexb_bytes(groups[i]))
}

/// All units of the groups, in order.
pub open spec fn concatenated(groups: Seq<Seq<Seq<u8>>>) -> Seq<Seq<u8>>
    decreases groups.len(),
{
    if groups.len() == 0 {
        Seq::empty()
    } else {
        concatenated(groups.drop_last()) + groups.last()
    }
}

proof fn lemma_grouped_keeps_units(codec: Codec, units: Seq<Seq<u8>>)
    ensures
        concatenated(grouped(codec, units).done) + grouped(codec, units).current == units,
        units.len() > 0 ==> grouped(codec, units).current.len() > 0,
        grouped(codec, units).seen_vcl ==> grouped(codec, units).current.len() > 0,
        forall|k: int|
            0 <= k < grouped(codec, units).done.len() ==> (#[trigger] grouped(
                codec,
                units,
            ).done[k]).len() > 0,
    decreases units.len(),
{
    if units.len() == 0 {
        assert(concatenated(grouped(codec, units).done) + grouped(codec, units).current =~= units);
    } else {
        let rest = units.drop_last();
        lemma_grouped_keeps_units(codec, rest);
        let before = grouped(codec, rest);
        let now = grouped(codec, units);
        assert(rest.push(units.last()) =~= units);
        if before.seen_vcl && opens_access_unit(classification(codec, units.last())) {
            assert(before.done.push(before.current).drop_last() =~= before.done);
            assert(concatenated(now.done) + now.current =~= rest.push(units.last()));
        } else {
            assert(concatenated(now.done) + now.current =~= rest.push(units.last()));
        }
    }
}

/// Grouping into access units loses nothing: the groups one after the other are the
/// NAL units in their order, and no group is empty.
pub proof fn law_access_units_keep_all_nal_units(codec: Codec, units: Seq<Seq<u8>>)
    ensures
        concatenated(access_unit_groups(codec, units)) == units,
        forall|k: int|
            0 <= k < access_unit_groups(codec, units).len() ==> (#[trigger] access_unit_groups(
                codec,
                units,
            )[k]).len() > 0,
{
    lemma_grouped_keeps_units(codec, units);
    let state = grouped(codec, units);
    if state.current.len() > 0 {
        assert(state.done.push(state.current).drop_last() =~= state.done);
    } else {
        assert(concatenated(state.done) =~= units);
    }
}

/// Splits an Annex-B byte string into access units, each one in Annex-B form.
pub fn split_access_units(codec: Codec, annexb: AnnexBAccessUnitRef<'_>) -> (r: Result<
    Vec<AnnexBAccessUnit>,
    BitstreamError,
>)
    ensures
        r is Ok <==> annexb_units(annexb@) is Some,
        r matches Ok(units) ==> access_unit_views(units@) == all_annexb_bytes(
            access_unit_groups(codec, annexb_units(annexb@)->0),
        ),
        r matches Err(e) ==> is_invalid(e, "Annex-B payload does not contain a start code"@),
{
    let nalus = split_annexb_nalus(annexb)?;
    let ghost all = ref_views(nalus@);
    let mut units: Vec<AnnexBAccessUnit> = Vec::new();
    let mut current: Vec<u8> = Vec::new();
    let mut seen_vcl: bool = false;
    let mut i: usize = 0;
    assert(access_unit_views(units@) =~= all_annexb_bytes(grouped(codec, all.take(0)).done));
    while i < nalus.len()
        invariant
            i <= nalus.len(),
            all == ref_views(nalus@),
            access_unit_views(units@) == all_annexb_bytes(grouped(codec, all.take(i as int)).done),
            current@ == annexb_bytes(grouped(codec, all.take(i as int)).current),
            seen_vcl == grouped(codec, all.take(i as int)).seen_vcl,
        decreases nalus.len() - i,
    {
        let unit = nalus[i].as_bytes();
        let class = classify_nalu(codec, unit);
        let ghost before = grouped(codec, all.take(i as int));
        proof {
            assert(all.take(i + 1).drop_last() =~= all.take(i as int));
            assert(all.take(i + 1).last() == unit@);
            lemma_grouped_keeps_units(codec, all.take(i as int));
            if seen_vcl {
                lemma_annexb_front(before.current);
            }
        }
        let opens = match class {
            NaluClassification::Boundary => true,
            NaluClassification::Vcl { first_slice: Some(first) } => first,
            NaluClassification::Vcl { first_slice: None } => true,
            NaluClassification::Other => false,
        };
        if opens && seen_vcl && current.len() > 0 {
            let ghost views = access_unit_views(units@);
            units.push(AnnexBAccessUnit(current));
            current = Vec::new();
            seen_vcl = false;
            proof {
                assert(access_unit_views(units@) =~= views.push(annexb_bytes(before.current)));
                assert(access_unit_views(units@) =~= all_annexb_bytes(
                    before.done.push(before.current),
                ));
                assert(current@ =~= annexb_bytes(Seq::<Seq<u8>>::empty()));
                assert(Seq::<Seq<u8>>::empty().push(unit@) =~= seq![unit@]);
                lemma_annexb_push(Seq::empty(), unit@);
            }
        } else {
            proof {
                lemma_annexb_push(before.current, unit@);
            }
        }
        append_annexb_nalu(&mut current, unit);
        if let NaluClassification::Vcl { .. } = class {
            seen_vcl = true;
        }
        i = i + 1;
    }
    proof {
        assert(all.take(all.len() as int) =~= all);
        lemma_grouped_keeps_units(codec, all);
        if grouped(codec, all).current.len() > 0 {
            lemma_annexb_front(grouped(codec, all).current);
        }
    }
    if current.len() > 0 {
        let ghost views = access_unit_views(units@);
        units.push(AnnexBAccessUnit(current));
        assert(access_unit_views(units@) =~= views.push(annexb_bytes(grouped(codec, all).current)));
        assert(access_unit_views(units@) =~= all_annexb_bytes(access_unit_groups(codec, all)));
    }
    Ok(units)
}

// ---------------------------------------------------------------------------
// Payloads and parameter sets

#[derive(Debug, Clone, PartialEq, Eq)]
pub struct H264ParameterSets {
    pub sps: Vec<Vec<u8>>,
    pub pps: Vec<Vec<u8>>,
}

#[derive(Debug, Clone, PartialEq, Eq)]
pub struct HevcParameterSets {
    pub vps: Vec<Vec<u8>>,
    pub sps: Vec<Vec<u8>>,
    pub pps: Vec<Vec<u8>>,
}

#[derive(Debug, Clone, PartialEq, Eq)]
pub struct Av1ConfigObus {
    pub config_obus: Vec<Vec<u8>>,
}

impl Default for H264ParameterSets {
    fn default() -> (r: Self)
        ensures
            r.sps@.len() == 0,
            r.pps@.len() == 0,
    {
        H264ParameterSets { sps: Vec::new(), pps: Vec::new() }
    }
}

impl Default for HevcParameterSets {
    fn default() -> (r: Self)
        ensures
            r.vps@.len() == 0,
            r.sps@.len() == 0,
            r.pps@.len() == 0,
    {
        HevcParameterSets { vps: Vec::new(), sps: Vec::new(), pps: Vec::new() }
    }
}

impl Default for Av1ConfigObus {
    fn default() -> (r: Self)
        ensures
            r.config_obus@.len() == 0,
    {
        Av1ConfigObus { config_obus: Vec::new() }
    }
}

#[derive(Debug, Clone, PartialEq, Eq)]
pub enum ParameterSets {
    H264(H264ParameterSets),
    Hevc(HevcParameterSets),
    Av1(Av1ConfigObus),
}

pub open spec fn byte_views(list: Seq<Vec<u8>>) -> Seq<Seq<u8>> {
    Seq::new(list.len(), |i: int| list[i]@)
}

pub open spec fn slice_views(list: Seq<&[u8]>) -> Seq<Seq<u8>> {
    Seq::new(list.len(), |i: int| list[i]@)
}

fn push_slices<'a>(out: &mut Vec<&'a [u8]>, list: &'a Vec<Vec<u8>>)
    ensures
        slice_views(final(out)@) == slice_views(old(out)@) + byte_views(list@),
{
    let mut i: usize = 0;
    assert(slice_views(out@) =~= slice_views(old(out)@) + byte_views(list@).take(0));
    while i < list.len()
        invariant
            i <= list.len(),
            slice_views(out@) == slice_views(old(out)@) + byte_views(list@).take(i as int),
        decreases list.len() - i,
    {
        let ghost before = slice_views(out@);
        out.push(list[i].as_slice());
        i = i + 1;
        assert(slice_views(out@) =~= before.push(list@[i - 1]@));
        assert(byte_views(list@).take(i as int) =~= byte_views(list@).take(i - 1).push(
            list@[i - 1]@,
        ));
        assert(slice_views(out@) =~= slice_views(old(out)@) + byte_views(list@).take(i as int));
    }
    assert(byte_views(list@).take(list@.len() as int) =~= byte_views(list@));
}

impl ParameterSets {
    /// All sets in the order of their kinds.
    pub open spec fn listed(self) -> Seq<Seq<u8>> {
        match self {
            ParameterSets::H264(sets) => byte_views(sets.sps@) + byte_views(sets.pps@),
            ParameterSets::Hevc(sets) => byte_views(sets.vps@) + byte_views(sets.sps@)
                + byte_views(sets.pps@),
            ParameterSets::Av1(sets) => byte_views(sets.config_obus@),
        }
    }

    pub fn is_empty(&self) -> (r: bool)
        ensures
            r == (self.listed().len() == 0),
    {
        match self {
            ParameterSets::H264(sets) => sets.sps.len() == 0 && sets.pps.len() == 0,
            ParameterSets::Hevc(sets) => sets.vps.len() == 0 && sets.sps.len() == 0
                && sets.pps.len() == 0,
            ParameterSets::Av1(sets) => sets.config_obus.len() == 0,
        }
    }

    pub fn all(&self) -> (r: Vec<&[u8]>)
        ensures
            slice_views(r@) == self.listed(),
    {
        let mut out: Vec<&[u8]> = Vec::new();
        match self {
            ParameterSets::H264(sets) => {
                push_slices(&mut out, &sets.sps);
                push_slices(&mut out, &sets.pps);
            },
            ParameterSets::Hevc(sets) => {
                push_slices(&mut out, &sets.vps);
                push_slices(&mut out, &sets.sps);
                push_slices(&mut out, &sets.pps);
            },
            ParameterSets::Av1(sets) => {
                push_slices(&mut out, &sets.config_obus);
            },
        }
        assert(slice_views(out@) =~= self.listed());
        out
    }
}

/// The units whose NAL unit type is the given one, in order.
pub open spec fn units_of_type(codec: Codec, units: Seq<Seq<u8>>, kind: u8) -> Seq<Seq<u8>>
    decreases units.len(),
{
    if units.len() == 0 {
        Seq::empty()
    } else {
        let before = units_of_type(codec, units.drop_last(), kind);
        let found = match codec {
            Codec::H264 => h264_type(units.last()),
            Codec::Hevc => hevc_type(units.last()),
            Codec::Av1 => None,
        };
        if found == Some(kind) { before.push(units.last()) } else { before }
    }
}

#[derive(Debug, Clone, Copy, PartialEq, Eq)]
pub struct EncodedPayloadRef<'a> {
    pub codec: Codec,
    pub layout: EncodedLayout,
    pub data: &'a [u8],
    pub is_keyframe: bool,
}

/// The payload as an Annex-B byte string; AV1 payloads and Annex-B payloads stay as
/// they are.
pub open spec fn payload_bytes(
    layout: EncodedLayout,
    data: Seq<u8>,
    size: NalLengthSize,
    result: Result<Seq<u8>, BitstreamError>,
) -> bool {
    match layout {
        EncodedLayout::AnnexB | EncodedLayout::Av1 => result == Ok::<Seq<u8>, BitstreamError>(data),
        EncodedLayout::Avcc | EncodedLayout::Hvcc => match sample_units(data, size) {
            Ok(units) => result == Ok::<Seq<u8>, BitstreamError>(annexb_bytes(units)),
            Err(fault) => result matches Err(e) && is_invalid(e, sample_fault_message(fault)),
        },
        EncodedLayout::Opaque => result == Err::<Seq<u8>, _>(BitstreamError::OpaquePayload),
    }
}

pub open spec fn access_unit_outcome(r: Result<AnnexBAccessUnit, BitstreamError>) -> Result<
    Seq<u8>,
    BitstreamError,
> {
    match r {
        Ok(unit) => Ok(unit@),
        Err(e) => Err(e),
    }
}

pub fn payload_to_annexb(payload: EncodedPayloadRef<'_>, nal_length_size: NalLengthSize) -> (r:
    Result<AnnexBAccessUnit, BitstreamError>)
    ensures
        payload_bytes(
            payload.layout,
            payload.data@,
            nal_length_size,
            access_unit_outcome(r),
        ),
{
    match payload.layout {
        EncodedLayout::AnnexB => Ok(AnnexBAccessUnit(copy_bytes(payload.data))),
        EncodedLayout::Avcc | EncodedLayout::Hvcc => length_prefixed_to_annexb(
            LengthPrefixedSampleRef(payload.data),
            nal_length_size,
        ),
        EncodedLayout::Av1 => Ok(AnnexBAccessUnit(copy_bytes(payload.data))),
        EncodedLayout::Opaque => Err(BitstreamError::OpaquePayload),
    }
}

/// What splitting a payload into NAL units gives.
pub open spec fn payload_units(
    layout: EncodedLayout,
    data: Seq<u8>,
    size: NalLengthSize,
    result: Result<Seq<Seq<u8>>, BitstreamError>,
) -> bool {
    exists|annexb: Result<Seq<u8>, BitstreamError>| #[trigger]
        payload_bytes(layout, data, size, annexb) && match annexb {
            Err(e) => result == Err::<Seq<Seq<u8>>, _>(e),
            Ok(bytes) => match annexb_units(bytes) {
                Some(units) => result == Ok::<Seq<Seq<u8>>, BitstreamError>(units),
                None => result matches Err(e) && is_invalid(
                    e,
                    "Annex-B payload does not contain a start code"@,
                ),
            },
        }
}

/// The NAL units of a payload. An AV1 payload counts as one unit.
pub fn payload_to_nalus(payload: EncodedPayloadRef<'_>, nal_length_size: NalLengthSize) -> (r:
    Result<Vec<NalUnit>, BitstreamError>)
    ensures
        payload.layout == EncodedLayout::Av1 ==> (r matches Ok(units) && unit_views(units@)
            == seq![payload.data@]),
        payload.layout != EncodedLayout::Av1 ==> payload_units(
            payload.layout,
            payload.data@,
            nal_length_size,
            match r {
                Ok(units) => Ok(unit_views(units@)),
                Err(e) => Err(e),
            },
        ),
{
    match payload.layout {
        EncodedLayout::Av1 => {
            let mut units: Vec<NalUnit> = Vec::new();
            units.push(NalUnit(copy_bytes(payload.data)));
            assert(unit_views(units@) =~= seq![payload.data@]);
            Ok(units)
        },
        _ => {
            let converted = payload_to_annexb(payload, nal_length_size);
            let ghost annexb = access_unit_outcome(converted);
            assert(payload_bytes(payload.layout, payload.data@, nal_length_size, annexb));
            let unit = converted?;
            let refs = split_annexb_nalus(unit.as_ref())?;
            let mut units: Vec<NalUnit> = Vec::new();
            let mut i: usize = 0;
            assert(unit_views(units@) =~= ref_views(refs@).take(0));
            while i < refs.len()
                invariant
                    i <= refs.len(),
                    unit_views(units@) == ref_views(refs@).take(i as int),
                decreases refs.len() - i,
            {
                let ghost before = unit_views(units@);
                units.push(refs[i].to_owned_nal());
                i = i + 1;
                assert(unit_views(units@) =~= before.push(refs@[i - 1]@));
                assert(unit_views(units@) =~= ref_views(refs@).take(i as int));
            }
            assert(unit_views(units@) =~= ref_views(refs@));
            Ok(units)
        },
    }
}

/// The payload in the form that a decoder takes.
pub fn payload_to_decode_payload(
    payload: EncodedPayloadRef<'_>,
    nal_length_size: NalLengthSize,
) -> (r: Result<DecodePayload, BitstreamError>)
    ensures
        payload_bytes(
            payload.layout,
            payload.data@,
            nal_length_size,
            match r {
                Ok(out) => Ok(out@),
                Err(e) => Err(e),
            },
        ),
{
    match payload.layout {
        EncodedLayout::Av1 => Ok(DecodePayload(copy_bytes(payload.data))),
        _ => match payload_to_annexb(payload, nal_length_size) {
            Ok(unit) => Ok(DecodePayload(unit.into_inner())),
            Err(e) => Err(e),
        },
    }
}

/// The parameter sets among the given units.
pub open spec fn sets_among(codec: Codec, units: Seq<Seq<u8>>, data: Seq<u8>, sets: ParameterSets)
    -> bool {
    match codec {
        Codec::H264 => sets matches ParameterSets::H264(s) && byte_views(s.sps@) == units_of_type(
            codec,
            units,
            7,
        ) && byte_views(s.pps@) == units_of_type(codec, units, 8),
        Codec::Hevc => sets matches ParameterSets::Hevc(s) && byte_views(s.vps@) == units_of_type(
            codec,
            units,
            32,
        ) && byte_views(s.sps@) == units_of_type(codec, units, 33) && byte_views(s.pps@)
            == units_of_type(codec, units, 34),
        Codec::Av1 => sets matches ParameterSets::Av1(s) && byte_views(s.config_obus@)
            == seq![data],
    }
}

fn push_unit(list: &mut Vec<Vec<u8>>, unit: &[u8])
    ensures
        byte_views(final(list)@) == byte_views(old(list)@).push(unit@),
{
    list.push(copy_bytes(unit));
    assert(byte_views(list@) =~= byte_views(old(list)@).push(unit@));
}

/// Collects the parameter sets of a payload.
pub fn extract_parameter_sets(codec: Codec, payload: EncodedPayloadRef<'_>) -> (r: Result<
    ParameterSets,
    BitstreamError,
>)
    ensures
        exists|units: Result<Seq<Seq<u8>>, BitstreamError>| #[trigger]
            payload_units(payload.layout, payload.data@, NalLengthSize::Four, units) && match units {
                Ok(list) => r matches Ok(sets) && sets_among(codec, list, payload.data@, sets),
                Err(e) => r == Err::<ParameterSets, _>(e),
            },
{
    let converted = payload_to_annexb(payload, NalLengthSize::Four);
    let ghost annexb = access_unit_outcome(converted);
    assert(payload_bytes(payload.layout, payload.data@, NalLengthSize::Four, annexb));
    let unit = match converted {
        Ok(unit) => unit,
        Err(e) => {
            assert(payload_units(
                payload.layout,
                payload.data@,
                NalLengthSize::Four,
                Err::<Seq<Seq<u8>>, _>(e),
            ));
            return Err(e);
        },
    };
    let refs = match split_annexb_nalus(unit.as_ref()) {
        Ok(refs) => refs,
        Err(e) => {
            assert(payload_units(
                payload.layout,
                payload.data@,
                NalLengthSize::Four,
                Err::<Seq<Seq<u8>>, _>(e),
            ));
            return Err(e);
        },
    };
    let ghost list = ref_views(refs@);
    assert(payload_units(
        payload.layout,
        payload.data@,
        NalLengthSize::Four,
        Ok::<Seq<Seq<u8>>, BitstreamError>(list),
    ));
    let mut vps: Vec<Vec<u8>> = Vec::new();
    let mut sps: Vec<Vec<u8>> = Vec::new();
    let mut pps: Vec<Vec<u8>> = Vec::new();
    let sets = match codec {
        Codec::H264 => {
            let mut i: usize = 0;
            assert(byte_views(sps@) =~= units_of_type(codec, list.take(0), 7));
            assert(byte_views(pps@) =~= units_of_type(codec, list.take(0), 8));
            while i < refs.len()
                invariant
                    i <= refs.len(),
                    list == ref_views(refs@),
                    codec == Codec::H264,
                    byte_views(sps@) == units_of_type(codec, list.take(i as int), 7),
                    byte_views(pps@) == units_of_type(codec, list.take(i as int), 8),
                decreases refs.len() - i,
            {
                let bytes = refs[i].as_bytes();
                match h264_nal_type(bytes) {
                    Some(7) => push_unit(&mut sps, bytes),
                    Some(8) => push_unit(&mut pps, bytes),
                    _ => {},
                }
                i = i + 1;
                assert(list.take(i as int).drop_last() =~= list.take(i - 1));
            }
            ParameterSets::H264(H264ParameterSets { sps, pps })
        },
        Codec::Hevc => {
            let mut i: usize = 0;
            assert(byte_views(vps@) =~= units_of_type(codec, list.take(0), 32));
            assert(byte_views(sps@) =~= units_of_type(codec, list.take(0), 33));
            assert(byte_views(pps@) =~= units_of_type(codec, list.take(0), 34));
            while i < refs.len()
                invariant
                    i <= refs.len(),
                    list == ref_views(refs@),
                    codec == Codec::Hevc,
                    byte_views(vps@) == units_of_type(codec, list.take(i as int), 32),
                    byte_views(sps@) == units_of_type(codec, list.take(i as int), 33),
                    byte_views(pps@) == units_of_type(codec, list.take(i as int), 34),
                decreases refs.len() - i,
            {
                let bytes = refs[i].as_bytes();
                match hevc_nal_type(bytes) {
                    Some(32) => push_unit(&mut vps, bytes),
                    Some(33) => push_unit(&mut sps, bytes),
                    Some(34) => push_unit(&mut pps, bytes),
                    _ => {},
                }
                i = i + 1;
                assert(list.take(i as int).drop_last() =~= list.take(i - 1));
            }
            ParameterSets::Hevc(HevcParameterSets { vps, sps, pps })
        },
        Codec::Av1 => {
            let mut config_obus: Vec<Vec<u8>> = Vec::new();
            push_unit(&mut config_obus, payload.data);
            assert(byte_views(config_obus@) =~= seq![payload.data@]);
            ParameterSets::Av1(Av1ConfigObus { config_obus })
        },
    };
    assert(list.take(list.len() as int) =~= list);
    Ok(sets)
}

// ---------------------------------------------------------------------------
// Assembling access units from NAL units

#[derive(Debug, Clone, Copy, PartialEq, Eq, Structural)]
pub struct AccessUnitAssemblerOptions {
    pub preallocate_bytes: Option<usize>,
    pub max_access_unit_bytes: Option<usize>,
    pub copy_policy: CopyPolicy,
}

impl AccessUnitAssemblerOptions {
    /// The buffer that is asked for in advance can be allocated.
    pub open spec fn allocatable(self) -> bool {
        self.preallocate_bytes matches Some(n) ==> n <= isize::MAX
    }
}

impl Default for AccessUnitAssemblerOptions {
    fn default() -> (r: Self)
        ensures
            r.preallocate_bytes == None::<usize>,
            r.max_access_unit_bytes == None::<usize>,
            r.copy_policy == CopyPolicy::BorrowWhenPossible,
    {
        AccessUnitAssemblerOptions {
            preallocate_bytes: None,
            max_access_unit_bytes: None,
            copy_policy: CopyPolicy::BorrowWhenPossible,
        }
    }
}

/// No unit has been taken yet.
#[derive(Debug, Clone, Copy, PartialEq, Eq)]
pub struct Idle;

/// At least one unit has been taken.
#[derive(Debug, Clone, Copy, PartialEq, Eq)]
pub struct Collecting;

#[derive(Debug)]
pub struct AccessUnitAssembler<State> {
    codec: Codec,
    options: AccessUnitAssemblerOptions,
    pts_90k: Option<Timestamp90k>,
    data: Vec<u8>,
    _state: PhantomData<State>,
}

impl<State> AccessUnitAssembler<State> {
    pub closed spec fn codec(self) -> Codec {
        self.codec
    }

    pub closed spec fn options(self) -> AccessUnitAssemblerOptions {
        self.options
    }

    pub closed spec fn time(self) -> Option<Timestamp90k> {
        self.pts_90k
    }

    /// The Annex-B bytes gathered so far.
    pub closed spec fn bytes(self) -> Seq<u8> {
        self.data@
    }

    /// An assembler that starts anew with the given settings.
    pub open spec fn is_fresh(self, codec: Codec, options: AccessUnitAssemblerOptions) -> bool {
        self.codec() == codec && self.options() == options && self.time() == None::<Timestamp90k>
            && self.bytes().len() == 0
    }

    /// The bytes exceed the configured limit.
    pub open spec fn too_large(self) -> bool {
        self.options().max_access_unit_bytes matches Some(limit) && self.bytes().len() > limit
    }

    pub open spec fn too_large_error(self) -> BitstreamError {
        BitstreamError::AccessUnitTooLarge {
            actual: self.bytes().len() as usize,
            limit: self.options().max_access_unit_bytes->0,
        }
    }
}

fn fresh_buffer(options: AccessUnitAssemblerOptions) -> (r: Vec<u8>)
    requires
        options.allocatable(),
    ensures
        r@.len() == 0,
{
    match options.preallocate_bytes {
        Some(n) => Vec::with_capacity(n),
        None => Vec::new(),
    }
}

impl AccessUnitAssembler<Idle> {
    pub fn new(codec: Codec, options: AccessUnitAssemblerOptions) -> (r: Self)
        requires
            options.allocatable(),
        ensures
            r.is_fresh(codec, options),
    {
        AccessUnitAssembler {
            codec,
            options,
            pts_90k: None,
            data: fresh_buffer(options),
            _state: PhantomData,
        }
    }

    /// Takes the first unit of an access unit and its time.
    pub fn push_chunk(self, chunk: NalUnitRef<'_>, pts_90k: Option<Timestamp90k>) -> (r:
        AccessUnitAssembler<Collecting>)
        ensures
            r.codec() == self.codec(),
            r.options() == self.options(),
            r.time() == pts_90k,
            r.bytes() == self.bytes() + long_start_code() + stripped(chunk@),
    {
        let mut data = self.data;
        append_annexb_nalu(&mut data, chunk.as_bytes());
        AccessUnitAssembler {
            codec: self.codec,
            options: self.options,
            pts_90k,
            data,
            _state: PhantomData,
        }
    }
}

impl AccessUnitAssembler<Collecting> {
    /// Takes a further unit. It is kept also where the limit is exceeded.
    pub fn push_chunk(&mut self, chunk: NalUnitRef<'_>) -> (r: Result<(), BitstreamError>)
        ensures
            final(self).codec() == old(self).codec(),
            final(self).options() == old(self).options(),
            final(self).time() == old(self).time(),
            final(self).bytes() == old(self).bytes() + long_start_code() + stripped(chunk@),
            r == (if final(self).too_large() {
                Err::<(), _>(final(self).too_large_error())
            } else {
                Ok(())
            }),
    {
        append_annexb_nalu(&mut self.data, chunk.as_bytes());
        self.validate_size()
    }

    /// The access unit, and an assembler for the next one.
    pub fn finish(self) -> (r: Result<
        (AnnexBAccessUnit, AccessUnitAssembler<Idle>),
        BitstreamError,
    >)
        requires
            self.options().allocatable(),
        ensures
            self.bytes().len() == 0 ==> (r matches Err(e) && e == BitstreamError::EmptyAccessUnit),
            self.bytes().len() > 0 && self.too_large() ==> (r matches Err(e) && e
                == self.too_large_error()),
            self.bytes().len() > 0 && !self.too_large() ==> (r matches Ok((unit, idle)) && unit@
                == self.bytes() && idle.is_fresh(self.codec(), self.options())),
    {
        if self.data.len() == 0 {
            return Err(BitstreamError::EmptyAccessUnit);
        }
        self.validate_size()?;
        let idle = AccessUnitAssembler {
            codec: self.codec,
            options: self.options,
            pts_90k: None,
            data: fresh_buffer(self.options),
            _state: PhantomData,
        };
        Ok((AnnexBAccessUnit(self.data), idle))
    }

    pub fn discard(self) -> (r: AccessUnitAssembler<Idle>)
        requires
            self.options().allocatable(),
        ensures
            r.is_fresh(self.codec(), self.options()),
    {
        AccessUnitAssembler {
            codec: self.codec,
            options: self.options,
            pts_90k: None,
            data: fresh_buffer(self.options),
            _state: PhantomData,
        }
    }

    pub fn pts_90k(&self) -> (r: Option<Timestamp90k>)
        ensures
            r == self.time(),
    {
        self.pts_90k
    }

    fn validate_size(&self) -> (r: Result<(), BitstreamError>)
        ensures
            r == (if self.too_large() {
                Err::<(), _>(self.too_large_error())
            } else {
                Ok(())
            }),
    {
        if let Some(limit) = self.options.max_access_unit_bytes {
            if self.data.len() > limit {
                return Err(
                    BitstreamError::AccessUnitTooLarge { actual: self.data.len(), limit },
                );
            }
        }
        Ok(())
    }
}

} // verus!
