//! Placement of a watermark inside the target raster, and the scaling of
//! object extents.
//!
//! A computed coordinate is clamped below at zero; there is no clamp at the
//! upper edge, since an object larger than the canvas is simply clipped when
//! it is drawn.

use vstd::prelude::*;
use vstd::arithmetic::div_mod::lemma_div_is_ordered;
use vstd::arithmetic::mul::lemma_mul_inequality;

use crate::settings::{
    HorizontalAlignment, VerticalAlignment, WatermarkPosition, WatermarkSettings,
};

verus! {

/// The clamped x coordinate: margin from the left, centered, or margin from
/// the right, never negative.
pub open spec fn spec_x_position(
    align: HorizontalAlignment,
    img_w: int,
    obj_w: int,
    margin: int,
) -> int {
    match align {
        HorizontalAlignment::Left => if margin > 0 {
            margin
        } else {
            0
        },
        HorizontalAlignment::Center => if obj_w <= img_w {
            (img_w - obj_w) / 2
        } else {
            0
        },
        HorizontalAlignment::Right => {
            let v = img_w - obj_w - margin;
            if v <= 0 {
                0
            } else if v > i32::MAX {
                i32::MAX as int
            } else {
                v
            }
        },
    }
}

/// The clamped y coordinate: margin from the top, centered, or margin from
/// the bottom, never negative.
pub open spec fn spec_y_position(
    align: VerticalAlignment,
    img_h: int,
    obj_h: int,
    margin: int,
) -> int {
    match align {
        VerticalAlignment::Top => if margin > 0 {
            margin
        } else {
            0
        },
        VerticalAlignment::Center => if obj_h <= img_h {
            (img_h - obj_h) / 2
        } else {
            0
        },
        VerticalAlignment::Bottom => {
            let v = img_h - obj_h - margin;
            if v <= 0 {
                0
            } else if v > i32::MAX {
                i32::MAX as int
            } else {
                v
            }
        },
    }
}

/// Computes where an object of extent `(obj_width, obj_height)` is placed on
/// an image of extent `(img_width, img_height)`. Both coordinates are
/// clamped below at zero; with a centered axis the coordinate is exactly
/// half the slack, by truncating integer division.
pub fn compute_position(
    img_width: i32,
    img_height: i32,
    obj_width: i32,
    obj_height: i32,
    position: &WatermarkPosition,
) -> (r: (i32, i32))
    requires
        0 <= img_width,
        0 <= img_height,
        0 <= obj_width,
        0 <= obj_height,
    ensures
        r.0 == spec_x_position(
            position.horizontal,
            img_width as int,
            obj_width as int,
            position.margin_x as int,
        ),
        r.1 == spec_y_position(
            position.vertical,
            img_height as int,
            obj_height as int,
            position.margin_y as int,
        ),
        r.0 >= 0,
        r.1 >= 0,
        position.horizontal is Center && obj_width <= img_width ==> r.0 == (img_width - obj_width)
            / 2,
        position.vertical is Center && obj_height <= img_height ==> r.1 == (img_height
            - obj_height) / 2,
{
    let x: i32 = match position.horizontal {
        HorizontalAlignment::Left => if position.margin_x > 0 {
            position.margin_x
        } else {
            0
        },
        HorizontalAlignment::Center => if obj_width <= img_width {
            (img_width - obj_width) / 2
        } else {
            0
        },
        HorizontalAlignment::Right => {
            let v: i64 = img_width as i64 - obj_width as i64 - position.margin_x as i64;
            if v <= 0 {
                0
            } else if v > i32::MAX as i64 {
                i32::MAX
            } else {
                v as i32
            }
        },
    };
    let y: i32 = match position.vertical {
        VerticalAlignment::Top => if position.margin_y > 0 {
            position.margin_y
        } else {
            0
        },
        VerticalAlignment::Center => if obj_height <= img_height {
            (img_height - obj_height) / 2
        } else {
            0
        },
        VerticalAlignment::Bottom => {
            let v: i64 = img_height as i64 - obj_height as i64 - position.margin_y as i64;
            if v <= 0 {
                0
            } else if v > i32::MAX as i64 {
                i32::MAX
            } else {
                v as i32
            }
        },
    };
    (x, y)
}

/// An extent of `v` pixels scaled by `milli` thousandths, truncating, and
/// saturating at the largest `u32`.
pub open spec fn spec_scale_dim(v: nat, milli: nat) -> nat {
    let scaled = (v * milli) / 1000;
    if scaled > u32::MAX {
        u32::MAX as nat
    } else {
        scaled
    }
}

/// An extent of `v` pixels scaled by `milli` thousandths.
pub fn scale_dim(v: u32, milli: u32) -> (r: u32)
    ensures
        r as nat == spec_scale_dim(v as nat, milli as nat),
{
    proof {
        assert((v as int) * (milli as int) <= (u32::MAX as int) * (u32::MAX as int))
            by (nonlinear_arith)
            requires
                v <= u32::MAX,
                milli <= u32::MAX,
        ;
    }
    let p: u64 = (v as u64) * (milli as u64);
    let q: u64 = p / 1000;
    if q > u32::MAX as u64 {
        u32::MAX
    } else {
        q as u32
    }
}

/// A larger scale never yields a smaller scaled extent: the watermark
/// bounding box grows, or stays the same, as the scale grows.
pub proof fn lemma_scale_dim_monotonic(v: nat, milli1: nat, milli2: nat)
    requires
        milli1 <= milli2,
    ensures
        spec_scale_dim(v, milli1) <= spec_scale_dim(v, milli2),
{
    lemma_mul_inequality(milli1 as int, milli2 as int, v as int);
    lemma_div_is_ordered((v * milli1) as int, (v * milli2) as int, 1000);
}

/// A larger configured scale, all else fixed, never shrinks the watermark
/// bounding box: the scaled extent grows, or stays the same, with the
/// configured scale, clamping included.
pub proof fn lemma_extent_monotonic_in_scale(v: nat, s1: WatermarkSettings, s2: WatermarkSettings)
    requires
        s1.scale_milli <= s2.scale_milli,
    ensures
        spec_scale_dim(v, s1.spec_scale_clamped() as nat) <= spec_scale_dim(
            v,
            s2.spec_scale_clamped() as nat,
        ),
{
    lemma_scale_dim_monotonic(v, s1.spec_scale_clamped() as nat, s2.spec_scale_clamped() as nat);
}

} // verus!
