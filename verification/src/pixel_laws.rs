//! What conversions of pixels mean, sample by sample.

use crate::pixel::{
    block_average, nv12_rgb, nv12_row, packed, planes_fit, with_chroma_room, with_chroma_row,
    with_chroma_rows, yuv_color, ColorConvertOptions, ColorMatrix, ColorRange, PixelOutputLayout,
};
use vstd::prelude::*;

verus! {

// ---------------------------------------------------------------------------
// Colors

/// A component differs by no more than six fifths from a number of millionths that is
/// held between black and white.
pub open spec fn near(component: u8, millionths: int) -> bool {
    let held = if millionths < 0 {
        0
    } else if millionths > 255_000_000 {
        255_000_000
    } else {
        millionths
    };
    -1_200_000 <= 1_000_000 * component - held <= 1_200_000
}

/// In the full range, BT.601 colors are those of the recommendation, whose coefficients
/// stand here in millionths.
pub proof fn law_full_range_bt601_colors(y: u8, u: u8, v: u8)
    ensures
        ({
            let (r, g, b) = yuv_color(
                y,
                u,
                v,
                ColorConvertOptions { matrix: ColorMatrix::Bt601, range: ColorRange::Full },
            );
            &&& near(r, 1_000_000 * y + 1_402_000 * (v - 128))
            &&& near(g, 1_000_000 * y - 344_136 * (u - 128) - 714_136 * (v - 128))
            &&& near(b, 1_000_000 * y + 1_772_000 * (u - 128))
        }),
{
}

/// In the limited range, BT.601 colors are those of the recommendation for luma from 16 to
/// 235 and chroma from 16 to 240, whose coefficients stand here in millionths. Luma below
/// 16 counts as 16.
pub proof fn law_limited_range_bt601_colors(y: u8, u: u8, v: u8)
    ensures
        ({
            let (r, g, b) = yuv_color(
                y,
                u,
                v,
                ColorConvertOptions { matrix: ColorMatrix::Bt601, range: ColorRange::Limited },
            );
            let above = if y < 16 { 0 } else { y - 16 };
            &&& near(r, 1_164_384 * above + 1_596_027 * (v - 128))
            &&& near(g, 1_164_384 * above - 391_762 * (u - 128) - 812_968 * (v - 128))
            &&& near(b, 1_164_384 * above + 2_017_232 * (u - 128))
        }),
{
}

/// In the full range, BT.709 colors are those of the recommendation, whose coefficients
/// stand here in millionths.
pub proof fn law_full_range_bt709_colors(y: u8, u: u8, v: u8)
    ensures
        ({
            let (r, g, b) = yuv_color(
                y,
                u,
                v,
                ColorConvertOptions { matrix: ColorMatrix::Bt709, range: ColorRange::Full },
            );
            &&& near(r, 1_000_000 * y + 1_574_800 * (v - 128))
            &&& near(g, 1_000_000 * y - 187_324 * (u - 128) - 468_124 * (v - 128))
            &&& near(b, 1_000_000 * y + 1_855_600 * (u - 128))
        }),
{
}

/// In the limited range, BT.709 colors are those of the recommendation for luma from 16 to
/// 235 and chroma from 16 to 240, whose coefficients stand here in millionths. Luma below
/// 16 counts as 16.
pub proof fn law_limited_range_bt709_colors(y: u8, u: u8, v: u8)
    ensures
        ({
            let (r, g, b) = yuv_color(
                y,
                u,
                v,
                ColorConvertOptions { matrix: ColorMatrix::Bt709, range: ColorRange::Limited },
            );
            let above = if y < 16 { 0 } else { y - 16 };
            &&& near(r, 1_164_384 * above + 1_792_741 * (v - 128))
            &&& near(g, 1_164_384 * above - 213_249 * (u - 128) - 532_909 * (v - 128))
            &&& near(b, 1_164_384 * above + 2_112_402 * (u - 128))
        }),
{
}

// ---------------------------------------------------------------------------
// NV12 to RGB

proof fn lemma_row_at(
    data: Seq<u8>,
    pitch: int,
    luma: int,
    options: ColorConvertOptions,
    y: int,
    count: nat,
    x: int,
)
    requires
        0 <= x < count,
    ensures
        ({
            let row = nv12_row(data, pitch, luma, options, y, count);
            let u = data[luma + (y / 2) * pitch + (x - x % 2)];
            let v = data[luma + (y / 2) * pitch + (x - x % 2) + 1];
            &&& row.len() == 3 * count
            &&& (row[3 * x], row[3 * x + 1], row[3 * x + 2]) == yuv_color(
                data[y * pitch + x],
                u,
                v,
                options,
            )
        }),
    decreases count,
{
    crate::pixel::lemma_row_len(data, pitch, luma, options, y, count);
    crate::pixel::lemma_row_len(data, pitch, luma, options, y, (count - 1) as nat);
    if x < count - 1 {
        lemma_row_at(data, pitch, luma, options, y, (count - 1) as nat, x);
    }
    assert(2 * (x / 2) == x - x % 2);
}

/// The pixel in column `x` of row `y` has the luma sample at its own place, and the
/// chroma pair that it shares with the pixels of its block of two columns and two rows.
pub proof fn law_pixels_have_their_own_samples(
    data: Seq<u8>,
    pitch: int,
    luma: int,
    options: ColorConvertOptions,
    width: nat,
    rows: nat,
    x: int,
    y: int,
)
    requires
        0 <= x < width,
        0 <= y < rows,
    ensures
        ({
            let rgb = nv12_rgb(data, pitch, luma, options, width, rows);
            let u = data[luma + (y / 2) * pitch + (x - x % 2)];
            let v = data[luma + (y / 2) * pitch + (x - x % 2) + 1];
            let at = 3 * (y * width + x);
            &&& 0 <= at
            &&& at + 3 <= rgb.len()
            &&& (rgb[at], rgb[at + 1], rgb[at + 2]) == yuv_color(
                data[y * pitch + x],
                u,
                v,
                options,
            )
        }),
    decreases rows,
{
    let above = nv12_rgb(data, pitch, luma, options, width, (rows - 1) as nat);
    crate::pixel::law_nv12_rgb_size(data, pitch, luma, options, width, (rows - 1) as nat);
    crate::pixel::law_nv12_rgb_size(data, pitch, luma, options, width, rows);
    assert(width * (rows - 1) + width == width * rows) by (nonlinear_arith);
    assert(y * width >= 0) by (nonlinear_arith)
        requires
            0 <= y,
    ;
    if y < rows - 1 {
        law_pixels_have_their_own_samples(
            data,
            pitch,
            luma,
            options,
            width,
            (rows - 1) as nat,
            x,
            y,
        );
        assert(y * width + width <= width * (rows - 1)) by (nonlinear_arith)
            requires
                y + 1 <= rows - 1,
        ;
    } else {
        assert(y * width == width * (rows - 1)) by (nonlinear_arith)
            requires
                y == rows - 1,
        ;
        lemma_row_at(data, pitch, luma, options, y, width, x);
    }
}

// ---------------------------------------------------------------------------
// Packing

/// Every layout holds the components of pixel `i` behind those of the pixels before it,
/// in the order that its name gives, with opaque alpha.
pub proof fn law_packed_components(rgb: Seq<u8>, count: nat, i: int)
    requires
        0 <= i < count,
        3 * count <= rgb.len(),
    ensures
        ({
            let (r, g, b) = (rgb[3 * i], rgb[3 * i + 1], rgb[3 * i + 2]);
            let plain = packed(PixelOutputLayout::Rgb24, rgb, count);
            let rgba = packed(PixelOutputLayout::Rgba8888, rgb, count);
            let argb = packed(PixelOutputLayout::Argb8888, rgb, count);
            let bgra = packed(PixelOutputLayout::Bgra8888, rgb, count);
            &&& plain.len() == 3 * count && rgba.len() == 4 * count && argb.len() == 4 * count
                && bgra.len() == 4 * count
            &&& plain.subrange(3 * i, 3 * i + 3) == seq![r, g, b]
            &&& rgba.subrange(4 * i, 4 * i + 4) == seq![r, g, b, 255u8]
            &&& argb.subrange(4 * i, 4 * i + 4) == seq![255u8, r, g, b]
            &&& bgra.subrange(4 * i, 4 * i + 4) == seq![b, g, r, 255u8]
        }),
    decreases count,
{
    let before = (count - 1) as nat;
    crate::pixel::law_packed_size(PixelOutputLayout::Rgb24, rgb, before);
    crate::pixel::law_packed_size(PixelOutputLayout::Rgba8888, rgb, before);
    crate::pixel::law_packed_size(PixelOutputLayout::Argb8888, rgb, before);
    crate::pixel::law_packed_size(PixelOutputLayout::Bgra8888, rgb, before);
    let (r, g, b) = (rgb[3 * i], rgb[3 * i + 1], rgb[3 * i + 2]);
    let plain = packed(PixelOutputLayout::Rgb24, rgb, count);
    let rgba = packed(PixelOutputLayout::Rgba8888, rgb, count);
    let argb = packed(PixelOutputLayout::Argb8888, rgb, count);
    let bgra = packed(PixelOutputLayout::Bgra8888, rgb, count);
    if i < count - 1 {
        law_packed_components(rgb, before, i);
        assert(plain.subrange(3 * i, 3 * i + 3) =~= packed(
            PixelOutputLayout::Rgb24,
            rgb,
            before,
        ).subrange(3 * i, 3 * i + 3));
        assert(rgba.subrange(4 * i, 4 * i + 4) =~= packed(
            PixelOutputLayout::Rgba8888,
            rgb,
            before,
        ).subrange(4 * i, 4 * i + 4));
        assert(argb.subrange(4 * i, 4 * i + 4) =~= packed(
            PixelOutputLayout::Argb8888,
            rgb,
            before,
        ).subrange(4 * i, 4 * i + 4));
        assert(bgra.subrange(4 * i, 4 * i + 4) =~= packed(
            PixelOutputLayout::Bgra8888,
            rgb,
            before,
        ).subrange(4 * i, 4 * i + 4));
    } else {
        assert(plain.subrange(3 * i, 3 * i + 3) =~= seq![r, g, b]);
        assert(rgba.subrange(4 * i, 4 * i + 4) =~= seq![r, g, b, 255u8]);
        assert(argb.subrange(4 * i, 4 * i + 4) =~= seq![255u8, r, g, b]);
        assert(bgra.subrange(4 * i, 4 * i + 4) =~= seq![b, g, r, 255u8]);
    }
}

// ---------------------------------------------------------------------------
// Planes to NV12

/// In an image with even sides, the chroma pair in column `x` of chroma row `row` is the
/// mean, rounded down, of the four samples of each plane that it stands for: those in
/// columns `2 * x` and `2 * x + 1` of rows `2 * row` and `2 * row + 1`.
pub proof fn law_chroma_pairs_are_means(
    y: Seq<u8>,
    u: Seq<u8>,
    v: Seq<u8>,
    width: int,
    height: int,
    x: int,
    row: int,
)
    requires
        planes_fit(y, u, v, width, height),
        width % 2 == 0,
        height % 2 == 0,
        0 <= x < width / 2,
        0 <= row < height / 2,
    ensures
        ({
            let out = with_chroma_rows(
                with_chroma_room(y),
                u,
                v,
                width,
                height,
                ((height + 1) / 2) as nat,
            );
            let first = (2 * row) * width + 2 * x;
            let below = (2 * row + 1) * width + 2 * x;
            let at = width * height + row * width + 2 * x;
            &&& 0 <= first && below + 1 < u.len()
            &&& out.len() == width * height + (width / 2) * height
            &&& 4 * out[at] <= u[first] + u[first + 1] + u[below] + u[below + 1] <= 4 * out[at] + 3
            &&& 4 * out[at + 1] <= v[first] + v[first + 1] + v[below] + v[below + 1] <= 4 * out[at
                + 1] + 3
        }),
{
    crate::pixel::law_chroma_pairs_are_block_averages(y, u, v, width, height, x, row);
    let first = (2 * row) * width + 2 * x;
    assert((2 * row + 1) * width == (2 * row) * width + width) by (nonlinear_arith);
    assert(0 <= (2 * row) * width && (2 * row) * width + 2 * width <= width * height)
        by (nonlinear_arith)
        requires
            0 <= row,
            2 * row + 2 <= height,
            0 < width,
    ;
    assert((width / 2) * height == (width * height) / 2) by (nonlinear_arith)
        requires
            width % 2 == 0,
    ;
    lemma_block(u, width, height, 2 * x, 2 * row);
    lemma_block(v, width, height, 2 * x, 2 * row);
}

proof fn lemma_block(plane: Seq<u8>, width: int, height: int, x: int, y: int)
    requires
        0 <= x,
        x + 1 < width,
        0 <= y,
        y + 1 < height,
        plane.len() == width * height,
    ensures
        ({
            let a = block_average(plane, width, height, x, y);
            let sum = plane[y * width + x] + plane[y * width + x + 1] + plane[(y + 1) * width + x]
                + plane[(y + 1) * width + x + 1];
            4 * a <= sum <= 4 * a + 3
        }),
{
    assert((y + 1) * width == y * width + width) by (nonlinear_arith);
}

/// A plane that has one value throughout a block gives that value for the block.
pub proof fn law_even_blocks_keep_their_value(
    y: Seq<u8>,
    u: Seq<u8>,
    v: Seq<u8>,
    width: int,
    height: int,
    x: int,
    row: int,
    value: u8,
)
    requires
        planes_fit(y, u, v, width, height),
        width % 2 == 0,
        height % 2 == 0,
        0 <= x < width / 2,
        0 <= row < height / 2,
        u[(2 * row) * width + 2 * x] == value,
        u[(2 * row) * width + 2 * x + 1] == value,
        u[(2 * row + 1) * width + 2 * x] == value,
        u[(2 * row + 1) * width + 2 * x + 1] == value,
    ensures
        with_chroma_rows(with_chroma_room(y), u, v, width, height, ((height + 1) / 2) as nat)[width
            * height + row * width + 2 * x] == value,
{
    law_chroma_pairs_are_means(y, u, v, width, height, x, row);
}

proof fn lemma_any_row(
    out: Seq<u8>,
    u: Seq<u8>,
    v: Seq<u8>,
    width: int,
    height: int,
    row: int,
    pairs: nat,
)
    requires
        0 <= width * height + row * width,
        pairs > 0 ==> width * height + row * width + 2 * (pairs - 1) < out.len(),
    ensures
        ({
            let start = width * height + row * width;
            let after = with_chroma_row(out, u, v, width, height, row, pairs);
            &&& after.len() == out.len()
            &&& forall|i: int| 0 <= i < start && i < out.len() ==> #[trigger] after[i] == out[i]
            &&& forall|p: int|
                0 <= p < pairs ==> after[start + 2 * p] == #[trigger] block_average(
                    u,
                    width,
                    height,
                    2 * p,
                    2 * row,
                )
            &&& forall|p: int|
                0 <= p < pairs && start + 2 * p + 1 < out.len() ==> after[start + 2 * p + 1]
                    == #[trigger] block_average(v, width, height, 2 * p, 2 * row)
        }),
    decreases pairs,
{
    if pairs > 0 {
        lemma_any_row(out, u, v, width, height, row, (pairs - 1) as nat);
    }
}

proof fn lemma_any_rows(
    out: Seq<u8>,
    u: Seq<u8>,
    v: Seq<u8>,
    width: int,
    height: int,
    rows: nat,
    x: int,
    row: int,
)
    requires
        0 < width,
        0 < height,
        rows > 0 ==> width * height + (rows - 1) * width + 2 * ((width - 1) / 2) < out.len(),
        0 <= 2 * x < width,
    ensures
        ({
            let at = width * height + row * width + 2 * x;
            let after = with_chroma_rows(out, u, v, width, height, rows);
            &&& after.len() == out.len()
            &&& 0 <= row < rows ==> after[at] == block_average(u, width, height, 2 * x, 2 * row) && (
            2 * x + 1 < width && at + 1 < out.len() ==> after[at + 1] == block_average(
                v,
                width,
                height,
                2 * x,
                2 * row,
            ))
        }),
    decreases rows,
{
    if rows > 0 {
        let last = rows - 1;
        assert(0 <= width * height) by (nonlinear_arith)
            requires
                0 < width,
                0 < height,
        ;
        assert(0 <= last * width) by (nonlinear_arith)
            requires
                0 <= last,
                0 < width,
        ;
        assert((last - 1) * width + width == last * width) by (nonlinear_arith);
        lemma_any_rows(out, u, v, width, height, last as nat, x, row);
        let before = with_chroma_rows(out, u, v, width, height, last as nat);
        lemma_any_row(before, u, v, width, height, last, ((width + 1) / 2) as nat);
        if 0 <= row < last {
            assert(0 <= row * width && row * width + width <= last * width) by (nonlinear_arith)
                requires
                    0 <= row,
                    row + 1 <= last,
                    0 < width,
            ;
        } else if row == last {
            assert(block_average(u, width, height, 2 * x, 2 * row) == block_average(
                u,
                width,
                height,
                2 * x,
                2 * last,
            ));
            assert(block_average(v, width, height, 2 * x, 2 * row) == block_average(
                v,
                width,
                height,
                2 * x,
                2 * last,
            ));
        }
    }
}

/// With sides of any parity, the first sample of each chroma pair is the mean, rounded down,
/// of the block that it stands for, and so is the second one where the block is two columns
/// wide. At the right and at the lower edge the last column and the last row count twice.
pub proof fn law_chroma_pairs_at_edges_are_means(
    y: Seq<u8>,
    u: Seq<u8>,
    v: Seq<u8>,
    width: int,
    height: int,
    x: int,
    row: int,
)
    requires
        planes_fit(y, u, v, width, height),
        0 <= 2 * x < width,
        0 <= 2 * row < height,
    ensures
        ({
            let out = with_chroma_rows(
                with_chroma_room(y),
                u,
                v,
                width,
                height,
                ((height + 1) / 2) as nat,
            );
            let right = if 2 * x + 1 < width {
                2 * x + 1
            } else {
                2 * x
            };
            let lower = if 2 * row + 1 < height {
                2 * row + 1
            } else {
                2 * row
            };
            let a = (2 * row) * width + 2 * x;
            let b = (2 * row) * width + right;
            let c = lower * width + 2 * x;
            let d = lower * width + right;
            let at = width * height + row * width + 2 * x;
            &&& 4 * out[at] <= u[a] + u[b] + u[c] + u[d] <= 4 * out[at] + 3
            &&& 2 * x + 1 < width && at + 1 < out.len() ==> 4 * out[at + 1] <= v[a] + v[b] + v[c]
                + v[d] <= 4 * out[at + 1] + 3
        }),
{
    let room = with_chroma_room(y);
    let rows = ((height + 1) / 2) as nat;
    assert(rows - 1 == (height - 1) / 2);
    lemma_any_rows(room, u, v, width, height, rows, x, row);
    assert((2 * row + 1) * width == (2 * row) * width + width) by (nonlinear_arith);
}

} // verus!
