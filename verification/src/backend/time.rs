//! Times in units of a 90 kHz clock.

use vstd::prelude::*;

verus! {

/// A number held within the range of a signed 64-bit number.
pub open spec fn saturated(n: int) -> i64 {
    if n > i64::MAX {
        i64::MAX
    } else if n < i64::MIN {
        i64::MIN
    } else {
        n as i64
    }
}

/// The time between frames.
pub open spec fn pts_step(fps: i32) -> i64 {
    if fps <= 0 { 3_000 } else { (90_000int / fps as int) as i64 }
}

pub fn decode_pts_step(fps: i32) -> (r: i64)
    ensures
        r == pts_step(fps),
        0 <= r <= 90_000,
{
    if fps <= 0 {
        3_000
    } else {
        let step: u32 = 90_000 / fps as u32;
        proof {
            vstd::arithmetic::div_mod::lemma_div_is_ordered_by_denominator(
                90_000,
                1,
                fps as int,
            );
        }
        step as i64
    }
}

pub fn usize_to_i64(value: usize) -> (r: i64)
    ensures
        r == saturated(value as int),
{
    if value as u64 > 0x7fff_ffff_ffff_ffff { i64::MAX } else { value as i64 }
}

pub fn saturating_mul(a: i64, b: i64) -> (r: i64)
    ensures
        r == saturated(a * b),
{
    match a.checked_mul(b) {
        Some(product) => product,
        None => if (a < 0) == (b < 0) {
            assert(a * b >= 0) by (nonlinear_arith)
                requires
                    (a < 0) == (b < 0),
            ;
            i64::MAX
        } else {
            assert(a * b <= 0) by (nonlinear_arith)
                requires
                    (a < 0) != (b < 0),
            ;
            i64::MIN
        },
    }
}

pub fn saturating_add(a: i64, b: i64) -> (r: i64)
    ensures
        r == saturated(a + b),
{
    match a.checked_add(b) {
        Some(sum) => sum,
        None => if b > 0 { i64::MAX } else { i64::MIN },
    }
}

/// The time of frame `index`.
pub open spec fn frame_time(start: i64, index: int, step: i64) -> i64 {
    saturated(start + saturated(saturated(index) * step))
}

pub fn frame_pts(start: i64, index: usize, step: i64) -> (r: i64)
    ensures
        r == frame_time(start, index as int, step),
{
    saturating_add(start, saturating_mul(usize_to_i64(index), step))
}

/// Later frames do not have earlier times.
pub proof fn law_frame_times_do_not_fall(start: i64, i: int, j: int, step: i64)
    requires
        0 <= i <= j,
        0 <= step,
    ensures
        frame_time(start, i, step) <= frame_time(start, j, step),
{
    assert(saturated(i) * step <= saturated(j) * step) by (nonlinear_arith)
        requires
            saturated(i) <= saturated(j),
            0 <= step,
    ;
}

pub fn i64_to_u64(value: i64) -> (r: Option<u64>)
    ensures
        r == (if value >= 0 { Some(value as u64) } else { None }),
{
    if value >= 0 { Some(value as u64) } else { None }
}

pub fn u64_to_i64(value: u64) -> (r: Option<i64>)
    ensures
        r == (if value <= i64::MAX { Some(value as i64) } else { None }),
{
    if value <= 0x7fff_ffff_ffff_ffff { Some(value as i64) } else { None }
}

/// A time that can be converted comes back as it was.
pub proof fn law_time_conversion_round_trip(value: i64)
    requires
        value >= 0,
    ensures
        (value as u64) <= i64::MAX,
        (value as u64) as i64 == value,
{
}

} // verus!
