//! Pixel formats and conversions between them.

use crate::error::{error_is, invalid_input, BackendError, BackendErrorKind};
use crate::pixel_laws::{
    law_chroma_pairs_are_means, law_packed_components, law_pixels_have_their_own_samples,
};
use crate::text::{decimal, size_text};
use crate::types::Dimensions;
use vstd::prelude::*;
use vstd::string::*;

verus! {

#[derive(Debug, Clone, Copy, PartialEq, Eq, Structural)]
pub enum PixelOutputLayout {
    Rgb24,
    Rgba8888,
    Argb8888,
    Bgra8888,
}

#[derive(Debug, Clone, Copy, PartialEq, Eq, Structural)]
pub enum ColorMatrix {
    Bt601,
    Bt709,
}

impl Default for ColorMatrix {
    fn default() -> (r: Self)
        ensures
            r == ColorMatrix::Bt709,
    {
        ColorMatrix::Bt709
    }
}

#[derive(Debug, Clone, Copy, PartialEq, Eq, Structural)]
pub enum ColorRange {
    Limited,
    Full,
}

impl Default for ColorRange {
    fn default() -> (r: Self)
        ensures
            r == ColorRange::Limited,
    {
        ColorRange::Limited
    }
}

#[derive(Debug, Clone, Copy, PartialEq, Eq, Structural)]
pub struct ColorConvertOptions {
    pub matrix: ColorMatrix,
    pub range: ColorRange,
}

impl Default for ColorConvertOptions {
    fn default() -> (r: Self)
        ensures
            r.matrix == ColorMatrix::Bt709,
            r.range == ColorRange::Limited,
    {
        ColorConvertOptions { matrix: ColorMatrix::Bt709, range: ColorRange::Limited }
    }
}

#[derive(Debug, Clone, PartialEq, Eq)]
pub struct PixelBufferOwned {
    pub layout: PixelOutputLayout,
    pub dims: Dimensions,
    pub data: Vec<u8>,
}

// ---------------------------------------------------------------------------
// One pixel

/// A number held within the range of a byte.
pub open spec fn clamped(v: int) -> u8 {
    if v < 0 { 0 } else if v > 255 { 255 } else { v as u8 }
}

/// The color of a luma sample with its chroma samples. Division rounds down.
pub open spec fn yuv_color(y: u8, u: u8, v: u8, options: ColorConvertOptions) -> (u8, u8, u8) {
    let c = if y < 16 { 0 } else { y - 16 };
    let d = u - 128;
    let e = v - 128;
    match (options.matrix, options.range) {
        (ColorMatrix::Bt601, ColorRange::Limited) => (
            clamped((298 * c + 409 * e + 128) / 256),
            clamped((298 * c - 100 * d - 208 * e + 128) / 256),
            clamped((298 * c + 516 * d + 128) / 256),
        ),
        (ColorMatrix::Bt709, ColorRange::Limited) => (
            clamped((298 * c + 459 * e + 128) / 256),
            clamped((298 * c - 55 * d - 136 * e + 128) / 256),
            clamped((298 * c + 541 * d + 128) / 256),
        ),
        (ColorMatrix::Bt601, ColorRange::Full) => (
            clamped(y + (1436 * e) / 1024),
            clamped(y - (352 * d + 731 * e) / 1024),
            clamped(y + (1815 * d) / 1024),
        ),
        (ColorMatrix::Bt709, ColorRange::Full) => (
            clamped(y + (1613 * e) / 1024),
            clamped(y - (192 * d + 479 * e) / 1024),
            clamped(y + (1900 * d) / 1024),
        ),
    }
}

/// Neutral chroma gives grey: the three components are equal.
pub proof fn law_neutral_chroma_is_grey(y: u8, options: ColorConvertOptions)
    ensures
        yuv_color(y, 128, 128, options).0 == yuv_color(y, 128, 128, options).1,
        yuv_color(y, 128, 128, options).1 == yuv_color(y, 128, 128, options).2,
        options.range == ColorRange::Full ==> yuv_color(y, 128, 128, options).0 == y,
{
}

/// In the limited range, luma 16 and below is black and luma 235 and above is white.
pub proof fn law_limited_range_ends(y: u8, matrix: ColorMatrix)
    ensures
        y <= 16 ==> yuv_color(
            y,
            128,
            128,
            (ColorConvertOptions { matrix, range: ColorRange::Limited }),
        ) == (0u8, 0u8, 0u8),
        y >= 235 ==> yuv_color(
            y,
            128,
            128,
            (ColorConvertOptions { matrix, range: ColorRange::Limited }),
        ) == (255u8, 255u8, 255u8),
{
}

/// The quotient by 256, rounded down.
fn shift_8(v: i32) -> (r: i32)
    requires
        -0x40_0000 <= v <= 0x40_0000,
    ensures
        r == (v as int) / 256,
{
    ((v + 0x40_0000) as u32 / 256) as i32 - 0x4000
}

/// The quotient by 1024, rounded down.
fn shift_10(v: i32) -> (r: i32)
    requires
        -0x40_0000 <= v <= 0x40_0000,
    ensures
        r == (v as int) / 1024,
{
    ((v + 0x40_0000) as u32 / 1024) as i32 - 0x1000
}

pub fn clamp_u8(value: i32) -> (r: u8)
    ensures
        r == clamped(value as int),
{
    if value < 0 {
        0
    } else if value > 255 {
        255
    } else {
        value as u8
    }
}

pub fn yuv_to_rgb(y: u8, u: u8, v: u8, options: ColorConvertOptions) -> (r: (u8, u8, u8))
    ensures
        r == yuv_color(y, u, v, options),
{
    let y_i: i32 = y as i32;
    let c: i32 = if y_i < 16 { 0 } else { y_i - 16 };
    let d: i32 = u as i32 - 128;
    let e: i32 = v as i32 - 128;
    match (options.matrix, options.range) {
        (ColorMatrix::Bt601, ColorRange::Limited) => (
            clamp_u8(shift_8(298 * c + 409 * e + 128)),
            clamp_u8(shift_8(298 * c - 100 * d - 208 * e + 128)),
            clamp_u8(shift_8(298 * c + 516 * d + 128)),
        ),
        (ColorMatrix::Bt709, ColorRange::Limited) => (
            clamp_u8(shift_8(298 * c + 459 * e + 128)),
            clamp_u8(shift_8(298 * c - 55 * d - 136 * e + 128)),
            clamp_u8(shift_8(298 * c + 541 * d + 128)),
        ),
        (ColorMatrix::Bt601, ColorRange::Full) => (
            clamp_u8(y_i + shift_10(1436 * e)),
            clamp_u8(y_i - shift_10(352 * d + 731 * e)),
            clamp_u8(y_i + shift_10(1815 * d)),
        ),
        (ColorMatrix::Bt709, ColorRange::Full) => (
            clamp_u8(y_i + shift_10(1613 * e)),
            clamp_u8(y_i - shift_10(192 * d + 479 * e)),
            clamp_u8(y_i + shift_10(1900 * d)),
        ),
    }
}

// ---------------------------------------------------------------------------
// Packing

/// One pixel in a layout. Alpha is opaque.
pub open spec fn pixel_bytes(layout: PixelOutputLayout, r: u8, g: u8, b: u8) -> Seq<u8> {
    match layout {
        PixelOutputLayout::Rgb24 => seq![r, g, b],
        PixelOutputLayout::Rgba8888 => seq![r, g, b, 255u8],
        PixelOutputLayout::Argb8888 => seq![255u8, r, g, b],
        PixelOutputLayout::Bgra8888 => seq![b, g, r, 255u8],
    }
}

/// The first `count` pixels of packed RGB data in a layout.
pub open spec fn packed(layout: PixelOutputLayout, rgb: Seq<u8>, count: nat) -> Seq<u8>
    decreases count,
{
    if count == 0 {
        Seq::empty()
    } else {
        packed(layout, rgb, (count - 1) as nat) + pixel_bytes(
            layout,
            rgb[3 * (count - 1)],
            rgb[3 * (count - 1) + 1],
            rgb[3 * (count - 1) + 2],
        )
    }
}

/// The size of a pixel in a layout.
pub open spec fn pixel_size(layout: PixelOutputLayout) -> nat {
    if layout == PixelOutputLayout::Rgb24 { 3 } else { 4 }
}

/// The packed data hold one pixel after the other, each of the size of its layout.
pub proof fn law_packed_size(layout: PixelOutputLayout, rgb: Seq<u8>, count: nat)
    ensures
        packed(layout, rgb, count).len() == pixel_size(layout) * count,
    decreases count,
{
    if count > 0 {
        law_packed_size(layout, rgb, (count - 1) as nat);
        assert(pixel_size(layout) * (count - 1) + pixel_size(layout) == pixel_size(layout) * count)
            by (nonlinear_arith);
    }
}

/// Packing RGB data in the RGB layout leaves them as they are.
pub proof fn law_packed_rgb_is_identity(rgb: Seq<u8>, count: nat)
    requires
        3 * count <= rgb.len(),
    ensures
        packed(PixelOutputLayout::Rgb24, rgb, count) == rgb.take(3 * count as int),
    decreases count,
{
    if count > 0 {
        law_packed_rgb_is_identity(rgb, (count - 1) as nat);
    }
    assert(packed(PixelOutputLayout::Rgb24, rgb, count) =~= rgb.take(3 * count as int));
}

pub open spec fn rgb_size_message(expected: nat, actual: nat) -> Seq<char> {
    "rgb24 payload size mismatch: expected "@ + decimal(expected) + ", got "@ + decimal(actual)
}

/// The number of pixels.
pub open spec fn pixel_count(dims: Dimensions) -> nat {
    dims.width.spec_value() as nat * dims.height.spec_value() as nat
}

/// Packed RGB data in another layout.
pub fn rgb24_to_pixel_buffer(dims: Dimensions, data: &[u8], layout: PixelOutputLayout) -> (r:
    Result<PixelBufferOwned, BackendError>)
    requires
        3 * pixel_count(dims) <= usize::MAX,
    ensures
        match r {
            Ok(buffer) => data@.len() == 3 * pixel_count(dims) && buffer.layout == layout
                && buffer.dims == dims && buffer.data@ == packed(layout, data@, pixel_count(dims)),
            Err(e) => data@.len() != 3 * pixel_count(dims) && error_is(
                e,
                BackendErrorKind::InvalidInput,
                rgb_size_message(3 * pixel_count(dims), data@.len()),
            ),
        },
{
    let count: usize = dims.width.get() as usize * dims.height.get() as usize;
    if data.len() != count * 3 {
        return Err(
            BackendError::InvalidInput(
                String::from_str("rgb24 payload size mismatch: expected ").concat(
                    size_text(count * 3).as_str(),
                ).concat(", got ").concat(size_text(data.len()).as_str()),
            ),
        );
    }
    let mut out: Vec<u8> = Vec::new();
    let mut i: usize = 0;
    while i < count
        invariant
            i <= count,
            data.len() == 3 * count,
            out@ == packed(layout, data@, i as nat),
        decreases count - i,
    {
        let red: u8 = data[3 * i];
        let green: u8 = data[3 * i + 1];
        let blue: u8 = data[3 * i + 2];
        match layout {
            PixelOutputLayout::Rgb24 => {
                out.push(red);
                out.push(green);
                out.push(blue);
            },
            PixelOutputLayout::Rgba8888 => {
                out.push(red);
                out.push(green);
                out.push(blue);
                out.push(255);
            },
            PixelOutputLayout::Argb8888 => {
                out.push(255);
                out.push(red);
                out.push(green);
                out.push(blue);
            },
            PixelOutputLayout::Bgra8888 => {
                out.push(blue);
                out.push(green);
                out.push(red);
                out.push(255);
            },
        }
        i = i + 1;
        assert(out@ =~= packed(layout, data@, i as nat));
    }
    Ok(PixelBufferOwned { layout, dims, data: out })
}

// ---------------------------------------------------------------------------
// NV12

/// The color at a position of an NV12 image whose chroma rows start behind `luma`
/// bytes.
pub open spec fn nv12_color(
    data: Seq<u8>,
    pitch: int,
    luma: int,
    options: ColorConvertOptions,
    x: int,
    y: int,
) -> (u8, u8, u8) {
    let chroma = luma + (y / 2) * pitch + (x / 2) * 2;
    yuv_color(data[y * pitch + x], data[chroma], data[chroma + 1], options)
}

/// The first `count` pixels of a row as packed RGB data.
pub open spec fn nv12_row(
    data: Seq<u8>,
    pitch: int,
    luma: int,
    options: ColorConvertOptions,
    y: int,
    count: nat,
) -> Seq<u8>
    decreases count,
{
    if count == 0 {
        Seq::empty()
    } else {
        let color = nv12_color(data, pitch, luma, options, count - 1, y);
        nv12_row(data, pitch, luma, options, y, (count - 1) as nat) + seq![
            color.0,
            color.1,
            color.2,
        ]
    }
}

/// The first `rows` rows as packed RGB data.
pub open spec fn nv12_rgb(
    data: Seq<u8>,
    pitch: int,
    luma: int,
    options: ColorConvertOptions,
    width: nat,
    rows: nat,
) -> Seq<u8>
    decreases rows,
{
    if rows == 0 {
        Seq::empty()
    } else {
        nv12_rgb(data, pitch, luma, options, width, (rows - 1) as nat) + nv12_row(
            data,
            pitch,
            luma,
            options,
            rows - 1,
            width,
        )
    }
}

pub proof fn lemma_row_len(
    data: Seq<u8>,
    pitch: int,
    luma: int,
    options: ColorConvertOptions,
    y: int,
    count: nat,
)
    ensures
        nv12_row(data, pitch, luma, options, y, count).len() == 3 * count,
    decreases count,
{
    if count > 0 {
        lemma_row_len(data, pitch, luma, options, y, (count - 1) as nat);
    }
}

/// An image of `width` by `rows` pixels takes three bytes for each.
pub proof fn law_nv12_rgb_size(
    data: Seq<u8>,
    pitch: int,
    luma: int,
    options: ColorConvertOptions,
    width: nat,
    rows: nat,
)
    ensures
        nv12_rgb(data, pitch, luma, options, width, rows).len() == 3 * (width * rows),
    decreases rows,
{
    if rows > 0 {
        law_nv12_rgb_size(data, pitch, luma, options, width, (rows - 1) as nat);
        lemma_row_len(data, pitch, luma, options, rows - 1, width);
        assert(width * (rows - 1) + width == width * rows) by (nonlinear_arith);
    } else {
        assert(width * rows == 0) by (nonlinear_arith)
            requires
                rows == 0,
        ;
    }
}

/// Every chroma sample that an image needs lies in its data. The data end too early
/// where a dimension is odd and no padding follows.
pub open spec fn chroma_in_bounds(
    len: nat,
    pitch: int,
    luma: int,
    width: int,
    height: int,
) -> bool {
    luma + ((height - 1) / 2) * pitch + ((width - 1) / 2) * 2 + 1 < len
}

proof fn lemma_sample_bounds(
    len: nat,
    pitch: int,
    width: int,
    height: int,
    x: int,
    y: int,
)
    requires
        0 <= x < width <= pitch,
        0 <= y < height,
        pitch * height <= len,
        chroma_in_bounds(len, pitch, pitch * height, width, height),
    ensures
        0 <= y * pitch,
        y * pitch + x < pitch * height,
        0 <= (y / 2) * pitch,
        pitch * height + (y / 2) * pitch + (x / 2) * 2 + 1 < len,
{
    assert(y * pitch + pitch <= pitch * height) by (nonlinear_arith)
        requires
            y < height,
            0 <= pitch,
    ;
    assert((y / 2) * pitch <= ((height - 1) / 2) * pitch) by (nonlinear_arith)
        requires
            y / 2 <= (height - 1) / 2,
            0 <= pitch,
    ;
    assert(0 <= y * pitch && 0 <= (y / 2) * pitch) by (nonlinear_arith)
        requires
            0 <= y,
            0 <= y / 2,
            0 <= pitch,
    ;
}

/// The image as packed RGB data, row by row.
fn nv12_to_rgb_bytes(
    data: &[u8],
    pitch: usize,
    luma: usize,
    width: usize,
    height: usize,
    options: ColorConvertOptions,
) -> (rgb: Vec<u8>)
    requires
        0 < width <= pitch,
        0 < height,
        luma == pitch * height,
        luma <= data@.len(),
        chroma_in_bounds(data@.len(), pitch as int, luma as int, width as int, height as int),
    ensures
        rgb@ == nv12_rgb(data@, pitch as int, luma as int, options, width as nat, height as nat),
{
    let mut rgb: Vec<u8> = Vec::new();
    let mut y: usize = 0;
    while y < height
        invariant
            y <= height,
            0 < width <= pitch,
            luma == pitch * height,
            luma <= data@.len(),
            chroma_in_bounds(data@.len(), pitch as int, luma as int, width as int, height as int),
            rgb@ == nv12_rgb(data@, pitch as int, luma as int, options, width as nat, y as nat),
        decreases height - y,
    {
        let ghost done = rgb@;
        let mut x: usize = 0;
        assert(rgb@ =~= done + nv12_row(data@, pitch as int, luma as int, options, y as int, 0));
        while x < width
            invariant
                x <= width,
                y < height,
                0 < width <= pitch,
                luma == pitch * height,
                luma <= data@.len(),
                chroma_in_bounds(
                    data@.len(),
                    pitch as int,
                    luma as int,
                    width as int,
                    height as int,
                ),
                rgb@ == done + nv12_row(
                    data@,
                    pitch as int,
                    luma as int,
                    options,
                    y as int,
                    x as nat,
                ),
            decreases width - x,
        {
            proof {
                lemma_sample_bounds(
                    data@.len(),
                    pitch as int,
                    width as int,
                    height as int,
                    x as int,
                    y as int,
                );
            }
            let luma_sample: u8 = data[y * pitch + x];
            let chroma: usize = luma + (y / 2) * pitch + (x / 2) * 2;
            let color = yuv_to_rgb(luma_sample, data[chroma], data[chroma + 1], options);
            rgb.push(color.0);
            rgb.push(color.1);
            rgb.push(color.2);
            x = x + 1;
            assert(rgb@ =~= done + nv12_row(
                data@,
                pitch as int,
                luma as int,
                options,
                y as int,
                x as nat,
            ));
        }
        y = y + 1;
    }
    rgb
}

pub open spec fn nv12_pitch_message(pitch: nat, width: nat) -> Seq<char> {
    "nv12 pitch is smaller than width: pitch="@ + decimal(pitch) + ", width="@ + decimal(width)
}

pub open spec fn nv12_size_message(expected: nat, actual: nat) -> Seq<char> {
    "nv12 payload size mismatch: expected at least "@ + decimal(expected) + ", got "@ + decimal(
        actual,
    )
}

/// The bytes of luma rows and of the half as many chroma rows.
pub open spec fn nv12_total(luma: int) -> int {
    luma + luma / 2
}

/// Red, green and blue of the pixel at a position of packed RGB data.
pub open spec fn rgb_at(rgb: Seq<u8>, width: int, x: int, y: int) -> (u8, u8, u8) {
    let at = 3 * (y * width + x);
    (rgb[at], rgb[at + 1], rgb[at + 2])
}

/// Red, green and blue of the pixel at a position of an image in some layout.
pub open spec fn color_at(
    layout: PixelOutputLayout,
    data: Seq<u8>,
    width: int,
    x: int,
    y: int,
) -> (u8, u8, u8) {
    let i = y * width + x;
    match layout {
        PixelOutputLayout::Rgb24 => (data[3 * i], data[3 * i + 1], data[3 * i + 2]),
        PixelOutputLayout::Rgba8888 => (data[4 * i], data[4 * i + 1], data[4 * i + 2]),
        PixelOutputLayout::Argb8888 => (data[4 * i + 1], data[4 * i + 2], data[4 * i + 3]),
        PixelOutputLayout::Bgra8888 => (data[4 * i + 2], data[4 * i + 1], data[4 * i]),
    }
}

proof fn lemma_color_at(
    layout: PixelOutputLayout,
    data: Seq<u8>,
    pitch: int,
    luma: int,
    options: ColorConvertOptions,
    width: nat,
    height: nat,
    x: int,
    y: int,
)
    requires
        0 <= x < width,
        0 <= y < height,
    ensures
        color_at(
            layout,
            packed(
                layout,
                nv12_rgb(data, pitch, luma, options, width, height),
                width * height,
            ),
            width as int,
            x,
            y,
        ) == yuv_color(
            data[y * pitch + x],
            data[luma + (y / 2) * pitch + (x - x % 2)],
            data[luma + (y / 2) * pitch + (x - x % 2) + 1],
            options,
        ),
{
    let rgb = nv12_rgb(data, pitch, luma, options, width, height);
    let count = width * height;
    let i = y * width + x;
    law_pixels_have_their_own_samples(data, pitch, luma, options, width, height, x, y);
    law_nv12_rgb_size(data, pitch, luma, options, width, height);
    assert(0 <= y * width && y * width + width <= width * height) by (nonlinear_arith)
        requires
            0 <= y < height,
            0 <= width,
    ;
    law_packed_components(rgb, count, i);
    let out = packed(layout, rgb, count);
    law_packed_size(layout, rgb, count);
    let size: int = if layout == PixelOutputLayout::Rgb24 {
        3
    } else {
        4
    };
    let part = out.subrange(size * i, size * i + size);
    if layout == PixelOutputLayout::Rgb24 {
        assert(part[0] == out[3 * i] && part[1] == out[3 * i + 1] && part[2] == out[3 * i + 2]);
    } else {
        assert(part[0] == out[4 * i] && part[1] == out[4 * i + 1] && part[2] == out[4 * i + 2]
            && part[3] == out[4 * i + 3]);
    }
}

/// An NV12 image in another layout. Each pixel has the color of its own luma sample and of
/// the chroma pair of its two by two block.
pub fn nv12_to_pixel_buffer(
    dims: Dimensions,
    pitch: usize,
    data: &[u8],
    layout: PixelOutputLayout,
    options: ColorConvertOptions,
) -> (r: Result<PixelBufferOwned, BackendError>)
    requires
        ({
            let width = dims.width.spec_value() as int;
            let height = dims.height.spec_value() as int;
            let luma = pitch * height;
            &&& pitch >= width && luma <= usize::MAX ==> nv12_total(luma) <= usize::MAX
            &&& pitch >= width && luma <= usize::MAX && data@.len() >= nv12_total(luma) ==> 3
                * pixel_count(dims) <= usize::MAX && chroma_in_bounds(
                data@.len(),
                pitch as int,
                luma,
                width,
                height,
            )
        }),
    ensures
        ({
            let width = dims.width.spec_value() as nat;
            let height = dims.height.spec_value() as nat;
            let luma = (pitch * height) as int;
            if pitch < width {
                r matches Err(e) && error_is(
                    e,
                    BackendErrorKind::InvalidInput,
                    nv12_pitch_message(pitch as nat, width),
                )
            } else if luma > usize::MAX {
                r matches Err(e) && error_is(
                    e,
                    BackendErrorKind::InvalidInput,
                    "nv12 luma size overflow"@,
                )
            } else if data@.len() < nv12_total(luma) {
                r matches Err(e) && error_is(
                    e,
                    BackendErrorKind::InvalidInput,
                    nv12_size_message(nv12_total(luma) as nat, data@.len()),
                )
            } else {
                r matches Ok(buffer) && buffer.layout == layout && buffer.dims == dims
                    && buffer.data@ == packed(
                    layout,
                    nv12_rgb(data@, pitch as int, luma, options, width, height),
                    pixel_count(dims),
                ) && forall|x: int, y: int|
                    0 <= x < width && 0 <= y < height ==> #[trigger] color_at(
                        layout,
                        buffer.data@,
                        width as int,
                        x,
                        y,
                    ) == yuv_color(
                        data@[y * pitch + x],
                        data@[pitch * height + (y / 2) * pitch + 2 * (x / 2)],
                        data@[pitch * height + (y / 2) * pitch + 2 * (x / 2) + 1],
                        options,
                    )
            }
        }),
{
    let width: usize = dims.width.get() as usize;
    let height: usize = dims.height.get() as usize;
    if pitch < width {
        return Err(
            BackendError::InvalidInput(
                String::from_str("nv12 pitch is smaller than width: pitch=").concat(
                    size_text(pitch).as_str(),
                ).concat(", width=").concat(size_text(width).as_str()),
            ),
        );
    }
    let luma: usize = match pitch.checked_mul(height) {
        Some(luma) => luma,
        None => {
            return Err(invalid_input("nv12 luma size overflow"));
        },
    };
    if data.len() < luma + luma / 2 {
        return Err(
            BackendError::InvalidInput(
                String::from_str("nv12 payload size mismatch: expected at least ").concat(
                    size_text(luma + luma / 2).as_str(),
                ).concat(", got ").concat(size_text(data.len()).as_str()),
            ),
        );
    }
    let rgb = nv12_to_rgb_bytes(data, pitch, luma, width, height, options);
    proof {
        law_nv12_rgb_size(
            data@,
            pitch as int,
            luma as int,
            options,
            width as nat,
            height as nat,
        );
        let out = packed(
            layout,
            nv12_rgb(
                data@,
                pitch as int,
                luma as int,
                options,
                width as nat,
                height as nat,
            ),
            pixel_count(dims),
        );
        assert forall|x: int, y: int| 0 <= x < width && 0 <= y < height implies #[trigger] color_at(
            layout,
            out,
            width as int,
            x,
            y,
        ) == yuv_color(
            data@[y * pitch + x],
            data@[pitch * height + (y / 2) * pitch + 2 * (x / 2)],
            data@[pitch * height + (y / 2) * pitch + 2 * (x / 2) + 1],
            options,
        ) by {
            lemma_color_at(
                layout,
                data@,
                pitch as int,
                luma as int,
                options,
                width as nat,
                height as nat,
                x,
                y,
            );
            assert(x - x % 2 == 2 * (x / 2));
        }
    }
    rgb24_to_pixel_buffer(dims, rgb.as_slice(), layout)
}

#[derive(Debug, Clone)]
pub struct Nv12Frame {
    pub width: usize,
    pub height: usize,
    pub pitch: usize,
    pub pts_90k: Option<i64>,
    pub data: Vec<u8>,
}

#[derive(Debug, Clone)]
pub struct RgbFrame {
    pub width: usize,
    pub height: usize,
    pub pts_90k: Option<i64>,
    pub data: Vec<u8>,
}

impl Nv12Frame {
    /// The distance between rows: never less than the width.
    pub open spec fn row_pitch(self) -> int {
        if self.pitch < self.width { self.width as int } else { self.pitch as int }
    }

    pub open spec fn luma_size(self) -> int {
        self.row_pitch() * self.height
    }

    /// Why the frame cannot be converted, if it cannot.
    pub open spec fn fault(self) -> Option<Seq<char>> {
        if self.width == 0 || self.height == 0 {
            Some("nv12 frame dimensions must be positive"@)
        } else if self.luma_size() > usize::MAX {
            Some("nv12 luma size overflow"@)
        } else if nv12_total(self.luma_size()) > usize::MAX {
            Some("nv12 total size overflow"@)
        } else if self.data@.len() < nv12_total(self.luma_size()) {
            Some("nv12 data is smaller than expected"@)
        } else {
            None
        }
    }
}

pub open spec fn bt601_limited() -> ColorConvertOptions {
    ColorConvertOptions { matrix: ColorMatrix::Bt601, range: ColorRange::Limited }
}

/// An NV12 frame as packed RGB data, by BT.601 in the limited range. Each pixel has the
/// color of its own luma sample and of the chroma pair of its two by two block.
pub fn nv12_to_rgb24(frame: &Nv12Frame) -> (r: Result<RgbFrame, BackendError>)
    requires
        frame.fault() is None ==> 3 * (frame.width * frame.height) <= isize::MAX
            && chroma_in_bounds(
            frame.data@.len(),
            frame.row_pitch(),
            frame.luma_size(),
            frame.width as int,
            frame.height as int,
        ),
    ensures
        match frame.fault() {
            Some(message) => r matches Err(e) && error_is(
                e,
                BackendErrorKind::InvalidInput,
                message,
            ),
            None => r matches Ok(out) && out.width == frame.width && out.height == frame.height
                && out.pts_90k == frame.pts_90k && out.data@ == nv12_rgb(
                frame.data@,
                frame.row_pitch(),
                frame.luma_size(),
                bt601_limited(),
                frame.width as nat,
                frame.height as nat,
            ),
        },
        r matches Ok(out) ==> ({
            let pitch = if frame.pitch < frame.width {
                frame.width as int
            } else {
                frame.pitch as int
            };
            forall|x: int, y: int|
                0 <= x < frame.width && 0 <= y < frame.height ==> #[trigger] rgb_at(
                    out.data@,
                    frame.width as int,
                    x,
                    y,
                ) == yuv_color(
                    frame.data@[y * pitch + x],
                    frame.data@[pitch * frame.height + (y / 2) * pitch + 2 * (x / 2)],
                    frame.data@[pitch * frame.height + (y / 2) * pitch + 2 * (x / 2) + 1],
                    ColorConvertOptions { matrix: ColorMatrix::Bt601, range: ColorRange::Limited },
                )
        }),
{
    let width: usize = frame.width;
    let height: usize = frame.height;
    let pitch: usize = if frame.pitch < width { width } else { frame.pitch };
    if width == 0 || height == 0 {
        return Err(invalid_input("nv12 frame dimensions must be positive"));
    }
    let luma: usize = match pitch.checked_mul(height) {
        Some(luma) => luma,
        None => {
            return Err(invalid_input("nv12 luma size overflow"));
        },
    };
    let total: usize = match luma.checked_add(luma / 2) {
        Some(total) => total,
        None => {
            return Err(invalid_input("nv12 total size overflow"));
        },
    };
    if frame.data.len() < total {
        return Err(invalid_input("nv12 data is smaller than expected"));
    }
    let options = ColorConvertOptions { matrix: ColorMatrix::Bt601, range: ColorRange::Limited };
    let data = nv12_to_rgb_bytes(frame.data.as_slice(), pitch, luma, width, height, options);
    proof {
        assert forall|x: int, y: int| 0 <= x < width && 0 <= y < height implies #[trigger] rgb_at(
            data@,
            width as int,
            x,
            y,
        ) == yuv_color(
            frame.data@[y * pitch + x],
            frame.data@[pitch * height + (y / 2) * pitch + 2 * (x / 2)],
            frame.data@[pitch * height + (y / 2) * pitch + 2 * (x / 2) + 1],
            options,
        ) by {
            law_pixels_have_their_own_samples(
                frame.data@,
                pitch as int,
                luma as int,
                options,
                width as nat,
                height as nat,
                x,
                y,
            );
            assert(x - x % 2 == 2 * (x / 2));
        }
    }
    Ok(RgbFrame { width, height, pts_90k: frame.pts_90k, data })
}

// ---------------------------------------------------------------------------
// Planes to NV12

/// The sample, rounded down, in the middle of the two by two block at a position.
/// At the right and lower edge the block repeats what it has.
pub open spec fn block_average(plane: Seq<u8>, width: int, height: int, x: int, y: int) -> u8 {
    let right = if x + 1 < width { 1int } else { 0int };
    let below = if y + 1 < height { width } else { 0int };
    let at = y * width + x;
    ((plane[at] + plane[at + right] + plane[at + below] + plane[at + below + right]) / 4) as u8
}

/// The image with one chroma pair written at an offset. A second byte that would lie
/// outside is left out.
pub open spec fn with_pair(out: Seq<u8>, at: int, u: u8, v: u8) -> Seq<u8> {
    let first = out.update(at, u);
    if at + 1 < out.len() { first.update(at + 1, v) } else { first }
}

/// The image with the first `pairs` chroma pairs of chroma row `row` written.
pub open spec fn with_chroma_row(
    out: Seq<u8>,
    u: Seq<u8>,
    v: Seq<u8>,
    width: int,
    height: int,
    row: int,
    pairs: nat,
) -> Seq<u8>
    decreases pairs,
{
    if pairs == 0 {
        out
    } else {
        let x = 2 * (pairs - 1);
        with_pair(
            with_chroma_row(out, u, v, width, height, row, (pairs - 1) as nat),
            width * height + row * width + x,
            block_average(u, width, height, x, 2 * row),
            block_average(v, width, height, x, 2 * row),
        )
    }
}

/// The image with the first `rows` chroma rows written.
pub open spec fn with_chroma_rows(
    out: Seq<u8>,
    u: Seq<u8>,
    v: Seq<u8>,
    width: int,
    height: int,
    rows: nat,
) -> Seq<u8>
    decreases rows,
{
    if rows == 0 {
        out
    } else {
        with_chroma_row(
            with_chroma_rows(out, u, v, width, height, (rows - 1) as nat),
            u,
            v,
            width,
            height,
            rows - 1,
            ((width + 1) / 2) as nat,
        )
    }
}

/// The luma plane with room for chroma behind it, all zero.
pub open spec fn with_chroma_room(y: Seq<u8>) -> Seq<u8> {
    y + Seq::new(y.len() / 2, |i: int| 0u8)
}

proof fn lemma_chroma_row(
    out: Seq<u8>,
    u: Seq<u8>,
    v: Seq<u8>,
    width: int,
    height: int,
    row: int,
    pairs: nat,
)
    requires
        0 <= width * height + row * width,
        width * height + row * width + 2 * pairs <= out.len(),
    ensures
        ({
            let start = width * height + row * width;
            let after = with_chroma_row(out, u, v, width, height, row, pairs);
            &&& after.len() == out.len()
            &&& forall|i: int|
                0 <= i < out.len() && !(start <= i < start + 2 * pairs) ==> #[trigger] after[i]
                    == out[i]
            &&& forall|p: int|
                0 <= p < pairs ==> after[start + 2 * p] == #[trigger] block_average(
                    u,
                    width,
                    height,
                    2 * p,
                    2 * row,
                )
            &&& forall|p: int|
                0 <= p < pairs ==> after[start + 2 * p + 1] == #[trigger] block_average(
                    v,
                    width,
                    height,
                    2 * p,
                    2 * row,
                )
        }),
    decreases pairs,
{
    if pairs > 0 {
        lemma_chroma_row(out, u, v, width, height, row, (pairs - 1) as nat);
    }
}

proof fn lemma_chroma_rows(
    out: Seq<u8>,
    u: Seq<u8>,
    v: Seq<u8>,
    width: int,
    height: int,
    rows: nat,
    x: int,
    row: int,
)
    requires
        0 < width,
        0 < height,
        width % 2 == 0,
        width * height + rows * width <= out.len(),
        0 <= x < width / 2,
    ensures
        ({
            let at = width * height + row * width + 2 * x;
            let after = with_chroma_rows(out, u, v, width, height, rows);
            &&& after.len() == out.len()
            &&& 0 <= row < rows ==> after[at] == block_average(u, width, height, 2 * x, 2 * row)
                && after[at + 1] == block_average(v, width, height, 2 * x, 2 * row)
        }),
    decreases rows,
{
    if rows > 0 {
        let last = rows - 1;
        assert(0 <= width * height) by (nonlinear_arith)
            requires
                0 < width,
                0 < height,
        ;
        assert(rows * width == last * width + width) by (nonlinear_arith)
            requires
                last == rows - 1,
        ;
        assert(0 <= last * width) by (nonlinear_arith)
            requires
                0 <= last,
                0 < width,
        ;
        lemma_chroma_rows(out, u, v, width, height, last as nat, x, row);
        let before = with_chroma_rows(out, u, v, width, height, last as nat);
        lemma_chroma_row(before, u, v, width, height, last, (width / 2) as nat);
        if 0 <= row < last {
            assert(0 <= row * width && row * width + width <= last * width) by (nonlinear_arith)
                requires
                    0 <= row,
                    row + 1 <= last,
                    0 < width,
            ;
        } else if row == last {
            assert(block_average(u, width, height, 2 * x, 2 * row) == block_average(
                u,
                width,
                height,
                2 * x,
                2 * last,
            ));
        }
    }
}

/// In an image with even sides, each chroma pair behind the luma plane holds the averages
/// of its two by two block.
pub proof fn law_chroma_pairs_are_block_averages(
    y: Seq<u8>,
    u: Seq<u8>,
    v: Seq<u8>,
    width: int,
    height: int,
    x: int,
    row: int,
)
    requires
        planes_fit(y, u, v, width, height),
        width % 2 == 0,
        height % 2 == 0,
        0 <= x < width / 2,
        0 <= row < height / 2,
    ensures
        ({
            let at = width * height + row * width + 2 * x;
            let out = with_chroma_rows(
                with_chroma_room(y),
                u,
                v,
                width,
                height,
                ((height + 1) / 2) as nat,
            );
            &&& out.len() == nv12_total(width * height)
            &&& out[at] == block_average(u, width, height, 2 * x, 2 * row)
            &&& out[at + 1] == block_average(v, width, height, 2 * x, 2 * row)
        }),
{
    let half = height / 2;
    assert(width * height == 2 * (half * width)) by (nonlinear_arith)
        requires
            height == 2 * half,
    ;
    assert((height + 1) / 2 == half);
    assert(with_chroma_room(y).len() == nv12_total(width * height));
    lemma_chroma_rows(with_chroma_room(y), u, v, width, height, half as nat, x, row);
}

/// The number of bytes of an ARGB image, if it can be counted.
pub open spec fn argb_size(width: nat, height: nat) -> nat {
    width * height * 4
}

/// Checks the size of an ARGB image.
pub fn check_argb_payload(len: usize, width: usize, height: usize) -> (r: Result<
    (),
    BackendError,
>)
    ensures
        ({
            let expected = argb_size(width as nat, height as nat);
            if expected > usize::MAX {
                r matches Err(e) && error_is(
                    e,
                    BackendErrorKind::InvalidInput,
                    "argb size overflow"@,
                )
            } else if len != expected {
                r matches Err(e) && error_is(
                    e,
                    BackendErrorKind::InvalidInput,
                    "argb payload size mismatch: expected "@ + decimal(expected) + ", got "@
                        + decimal(len as nat),
                )
            } else if width == 0 || height == 0 {
                r matches Err(e) && error_is(
                    e,
                    BackendErrorKind::InvalidInput,
                    "argb frame dimensions must be positive"@,
                )
            } else {
                r is Ok
            }
        }),
{
    let pixels: usize = match width.checked_mul(height) {
        Some(pixels) => pixels,
        None => {
            return Err(invalid_input("argb size overflow"));
        },
    };
    let expected: usize = match pixels.checked_mul(4) {
        Some(expected) => expected,
        None => {
            return Err(invalid_input("argb size overflow"));
        },
    };
    if len != expected {
        return Err(
            BackendError::InvalidInput(
                String::from_str("argb payload size mismatch: expected ").concat(
                    size_text(expected).as_str(),
                ).concat(", got ").concat(size_text(len).as_str()),
            ),
        );
    }
    if width == 0 || height == 0 {
        return Err(invalid_input("argb frame dimensions must be positive"));
    }
    Ok(())
}

/// The planes have one sample for each pixel, and every chroma pair starts inside
/// the image.
pub open spec fn planes_fit(
    y: Seq<u8>,
    u: Seq<u8>,
    v: Seq<u8>,
    width: int,
    height: int,
) -> bool {
    &&& width > 0 && height > 0
    &&& y.len() == width * height && u.len() == width * height && v.len() == width * height
    &&& nv12_total(width * height) <= usize::MAX
    &&& ((height - 1) / 2) * width + ((width - 1) / 2) * 2 < (width * height) / 2
}

fn average(plane: &[u8], width: usize, height: usize, x: usize, y: usize) -> (r: u8)
    requires
        x < width,
        y < height,
        plane@.len() == width * height,
    ensures
        r == block_average(plane@, width as int, height as int, x as int, y as int),
{
    proof {
        assert(y * width + width <= width * height) by (nonlinear_arith)
            requires
                y < height,
        ;
        if y + 1 < height {
            assert(y * width + width + width <= width * height) by (nonlinear_arith)
                requires
                    y + 2 <= height,
            ;
        }
        assert(0 <= y * width) by (nonlinear_arith);
    }
    let limit: usize = plane.len();
    let at: usize = y * width + x;
    let right: usize = if x + 1 < width { 1 } else { 0 };
    let below: usize = if y + 1 < height { width } else { 0 };
    let sum: u32 = plane[at] as u32 + plane[at + right] as u32 + plane[at + below] as u32
        + plane[at + below + right] as u32;
    (sum / 4) as u8
}

/// The chroma pair in column `x` of chroma row `row` of an image without padding.
pub open spec fn chroma_at(data: Seq<u8>, width: int, height: int, x: int, row: int) -> (u8, u8) {
    let at = width * height + row * width + 2 * x;
    (data[at], data[at + 1])
}

/// An NV12 image from a luma plane and two chroma planes of the same size. Each
/// chroma sample is the average of a two by two block.
pub fn nv12_from_planes(
    y_plane: &[u8],
    u_plane: &[u8],
    v_plane: &[u8],
    width: usize,
    height: usize,
) -> (out: Vec<u8>)
    requires
        planes_fit(y_plane@, u_plane@, v_plane@, width as int, height as int),
    ensures
        out@ == with_chroma_rows(
            with_chroma_room(y_plane@),
            u_plane@,
            v_plane@,
            width as int,
            height as int,
            ((height + 1) / 2) as nat,
        ),
        out@.len() == nv12_total(width * height),
        out@.take(width * height) == y_plane@,
        width % 2 == 0 && height % 2 == 0 ==> forall|x: int, row: int|
            0 <= x < width / 2 && 0 <= row < height / 2 ==> ({
                let first = (2 * row) * width + 2 * x;
                let below = (2 * row + 1) * width + 2 * x;
                let pair = #[trigger] chroma_at(out@, width as int, height as int, x, row);
                &&& pair.0 == (u_plane@[first] + u_plane@[first + 1] + u_plane@[below]
                    + u_plane@[below + 1]) / 4
                &&& pair.1 == (v_plane@[first] + v_plane@[first + 1] + v_plane@[below]
                    + v_plane@[below + 1]) / 4
            }),
{
    let luma: usize = y_plane.len();
    let mut out: Vec<u8> = Vec::new();
    out.extend_from_slice(y_plane);
    let mut k: usize = 0;
    assert(out@ =~= y_plane@ + Seq::new(0, |i: int| 0u8));
    while k < luma / 2
        invariant
            k <= luma / 2,
            luma == y_plane@.len(),
            out@ == y_plane@ + Seq::new(k as nat, |i: int| 0u8),
        decreases luma / 2 - k,
    {
        out.push(0);
        k = k + 1;
        assert(out@ =~= y_plane@ + Seq::new(k as nat, |i: int| 0u8));
    }
    let ghost start = with_chroma_room(y_plane@);
    assert(out@ =~= start);
    let w2: usize = width / 2 + width % 2;
    let h2: usize = height / 2 + height % 2;
    let mut row: usize = 0;
    while row < h2
        invariant
            planes_fit(y_plane@, u_plane@, v_plane@, width as int, height as int),
            luma == width * height,
            w2 == (width + 1) / 2,
            h2 == (height + 1) / 2,
            row <= h2,
            start == with_chroma_room(y_plane@),
            out@ == with_chroma_rows(
                start,
                u_plane@,
                v_plane@,
                width as int,
                height as int,
                row as nat,
            ),
            out@.len() == nv12_total(luma as int),
            out@.take(luma as int) == y_plane@,
        decreases h2 - row,
    {
        let ghost before = out@;
        let mut pair: usize = 0;
        while pair < w2
            invariant
                planes_fit(y_plane@, u_plane@, v_plane@, width as int, height as int),
                luma == width * height,
                w2 == (width + 1) / 2,
                h2 == (height + 1) / 2,
                row < h2,
                pair <= w2,
                out@ == with_chroma_row(
                    before,
                    u_plane@,
                    v_plane@,
                    width as int,
                    height as int,
                    row as int,
                    pair as nat,
                ),
                out@.len() == nv12_total(luma as int),
                out@.take(luma as int) == y_plane@,
            decreases w2 - pair,
        {
            let x: usize = 2 * pair;
            let y: usize = 2 * row;
            proof {
                assert(row * width <= ((height - 1) / 2) * width) by (nonlinear_arith)
                    requires
                        row <= (height - 1) / 2,
                        0 <= width,
                ;
                assert(0 <= row * width) by (nonlinear_arith);
                assert(x <= ((width - 1) / 2) * 2);
            }
            let u: u8 = average(u_plane, width, height, x, y);
            let v: u8 = average(v_plane, width, height, x, y);
            let at: usize = luma + row * width + x;
            let ghost held = out@;
            out.set(at, u);
            if at + 1 < out.len() {
                out.set(at + 1, v);
            }
            pair = pair + 1;
            assert(out@ =~= with_pair(held, at as int, u, v));
            assert(out@.take(luma as int) =~= y_plane@) by {
                assert forall|i: int| 0 <= i < luma implies out@[i] == y_plane@[i] by {
                    assert(held.take(luma as int)[i] == held[i]);
                }
            }
        }
        row = row + 1;
    }
    proof {
        let (w, h) = (width as int, height as int);
        if w % 2 == 0 && h % 2 == 0 {
            assert forall|x: int, row: int| 0 <= x < w / 2 && 0 <= row < h / 2 implies ({
                let first = (2 * row) * w + 2 * x;
                let below = (2 * row + 1) * w + 2 * x;
                let pair = #[trigger] chroma_at(out@, w, h, x, row);
                &&& pair.0 == (u_plane@[first] + u_plane@[first + 1] + u_plane@[below]
                    + u_plane@[below + 1]) / 4
                &&& pair.1 == (v_plane@[first] + v_plane@[first + 1] + v_plane@[below]
                    + v_plane@[below + 1]) / 4
            }) by {
                law_chroma_pairs_are_means(y_plane@, u_plane@, v_plane@, w, h, x, row);
            }
        }
    }
    out
}

} // verus!
