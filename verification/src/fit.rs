//! Scale to fit, and centre.
//!
//! A source of width `w` and height `h` is scaled by the one factor
//! `EDGE / max(w, h)`, the smaller of `EDGE / w` and `EDGE / h`, so that its
//! longer side fills the canvas edge and the shorter side keeps the aspect
//! ratio. The scaled sides are rounded up to whole pixels, and what is left of
//! the canvas is split evenly, the odd pixel going to the right and the bottom.

use crate::ceiling::{
    ceil_div, ceil_div_u64, lemma_ceil_div_cancel, lemma_ceil_div_decreases, lemma_ceil_div_is_least,
    lemma_ceil_div_unique,
};
use crate::error::PipelineError;
use crate::length::{is_positive_finite, steps_of_bits, Length, HIDDEN_BIT};
use vstd::arithmetic::power2::*;
use vstd::prelude::*;

verus! {

/// The edge of the square canvas, in pixels.
pub const CANVAS_EDGE: u32 = 256;

/// A side of the source.
#[derive(Clone, Copy, Debug, PartialEq, Eq, Structural)]
pub enum Axis {
    Width,
    Height,
}

/// The longer of the two sides.
pub open spec fn longest(width: nat, height: nat) -> nat {
    if width >= height {
        width
    } else {
        height
    }
}

/// The side that fills the canvas edge: the width, unless the height is
/// longer.
pub open spec fn limiting_axis(width: nat, height: nat) -> Axis {
    if width >= height {
        Axis::Width
    } else {
        Axis::Height
    }
}

/// The smaller of two numbers.
pub open spec fn smaller(a: nat, b: nat) -> nat {
    if a <= b {
        a
    } else {
        b
    }
}

/// The pixels that a side of length `extent` takes once the source of the
/// given width and height is scaled to fit: `extent` times the smaller of
/// `EDGE / width` and `EDGE / height`, rounded up. Rounding up keeps the
/// order, so this is the smaller of the two products rounded up.
pub open spec fn scaled(extent: nat, width: nat, height: nat) -> nat {
    smaller(
        ceil_div(CANVAS_EDGE as nat * extent, width),
        ceil_div(CANVAS_EDGE as nat * extent, height),
    )
}

/// The padding in front of a side of `target` pixels that is centred on the
/// canvas edge.
pub open spec fn centred(target: nat) -> nat {
    ((CANVAS_EDGE - target) / 2) as nat
}

/// Where the scaled source lies on the canvas.
#[derive(Clone, Copy, Debug)]
pub struct Placement {
    target_width: u32,
    target_height: u32,
    x_offset: u32,
    y_offset: u32,
    limiting: Axis,
}

impl Placement {
    /// The width of the scaled source in pixels.
    pub closed spec fn spec_target_width(&self) -> nat {
        self.target_width as nat
    }

    /// The height of the scaled source in pixels.
    pub closed spec fn spec_target_height(&self) -> nat {
        self.target_height as nat
    }

    /// The transparent columns to the left of the scaled source.
    pub closed spec fn spec_x_offset(&self) -> nat {
        self.x_offset as nat
    }

    /// The transparent rows above the scaled source.
    pub closed spec fn spec_y_offset(&self) -> nat {
        self.y_offset as nat
    }

    /// The side of the source that fills the canvas edge.
    pub closed spec fn spec_limiting(&self) -> Axis {
        self.limiting
    }

    /// The scaled source has at least one pixel each way, lies within the
    /// canvas, fills the edge along its limiting side and is centred.
    #[verifier::type_invariant]
    pub open spec fn wf(&self) -> bool {
        &&& 1 <= self.spec_target_width() <= CANVAS_EDGE
        &&& 1 <= self.spec_target_height() <= CANVAS_EDGE
        &&& self.spec_limiting() == Axis::Width ==> self.spec_target_width() == CANVAS_EDGE
        &&& self.spec_limiting() == Axis::Height ==> self.spec_target_height() == CANVAS_EDGE
        &&& self.spec_x_offset() == centred(self.spec_target_width())
        &&& self.spec_y_offset() == centred(self.spec_target_height())
    }

    /// Whether this is the placement of a source of the given width and
    /// height, both in steps.
    pub open spec fn fits(&self, width: nat, height: nat) -> bool {
        &&& self.spec_target_width() == scaled(width, width, height)
        &&& self.spec_target_height() == scaled(height, width, height)
        &&& self.spec_x_offset() == centred(self.spec_target_width())
        &&& self.spec_y_offset() == centred(self.spec_target_height())
        &&& self.spec_limiting() == limiting_axis(width, height)
    }

    /// The width of the scaled source in pixels.
    pub fn target_width(&self) -> (w: u32)
        ensures
            w == self.spec_target_width(),
            self.wf(),
    {
        proof {
            use_type_invariant(self);
        }
        self.target_width
    }

    /// The height of the scaled source in pixels.
    pub fn target_height(&self) -> (h: u32)
        ensures
            h == self.spec_target_height(),
            self.wf(),
    {
        proof {
            use_type_invariant(self);
        }
        self.target_height
    }

    /// The transparent columns to the left of the scaled source.
    pub fn x_offset(&self) -> (x: u32)
        ensures
            x == self.spec_x_offset(),
            self.wf(),
    {
        proof {
            use_type_invariant(self);
        }
        self.x_offset
    }

    /// The transparent rows above the scaled source.
    pub fn y_offset(&self) -> (y: u32)
        ensures
            y == self.spec_y_offset(),
            self.wf(),
    {
        proof {
            use_type_invariant(self);
        }
        self.y_offset
    }

    /// The side of the source that fills the canvas edge.
    pub fn limiting(&self) -> (axis: Axis)
        ensures
            axis == self.spec_limiting(),
            self.wf(),
    {
        proof {
            use_type_invariant(self);
        }
        self.limiting
    }
}

/// The smaller of the two ratios is the one of the longer side: scaling to
/// fit divides by the longer side.
pub proof fn lemma_scaled_by_longest(extent: nat, width: nat, height: nat)
    requires
        width > 0,
        height > 0,
    ensures
        scaled(extent, width, height) == ceil_div(
            CANVAS_EDGE as nat * extent,
            longest(width, height),
        ),
{
    let x = CANVAS_EDGE as nat * extent;
    if width >= height {
        lemma_ceil_div_decreases(x, height, width);
    } else {
        lemma_ceil_div_decreases(x, width, height);
    }
}

/// Scaled to fit, each side takes between one pixel and the whole edge, and
/// the longer side takes the whole edge.
pub proof fn lemma_scaled_fills(width: nat, height: nat)
    requires
        width > 0,
        height > 0,
    ensures
        1 <= scaled(width, width, height) <= CANVAS_EDGE,
        1 <= scaled(height, width, height) <= CANVAS_EDGE,
        scaled(longest(width, height), width, height) == CANVAS_EDGE,
        scaled(width, width, height) == CANVAS_EDGE || scaled(height, width, height)
            == CANVAS_EDGE,
{
    let long = longest(width, height);
    lemma_scaled_by_longest(width, width, height);
    lemma_scaled_by_longest(height, width, height);
    lemma_scaled_by_longest(long, width, height);
    lemma_scaled_bounds(width, long);
    lemma_scaled_bounds(height, long);
    lemma_ceil_div_unique(CANVAS_EDGE as nat * long, long, CANVAS_EDGE as int);
}

/// A side no longer than the longest one takes between one pixel and the whole
/// edge.
proof fn lemma_scaled_bounds(extent: nat, long: nat)
    requires
        0 < extent <= long,
    ensures
        1 <= ceil_div(CANVAS_EDGE as nat * extent, long) <= CANVAS_EDGE,
{
    let x = CANVAS_EDGE as nat * extent;
    lemma_ceil_div_is_least(x, long);
    let c = ceil_div(x, long) as int;
    let (e, l) = (extent as int, long as int);
    assert(1 <= c <= 256) by (nonlinear_arith)
        requires
            0 < e <= l,
            (c - 1) * l < 256 * e <= c * l,
    ;
}

/// Scaling keeps the aspect ratio as nearly as whole pixels allow: the shorter
/// side takes the least number of pixels that is no less than its share of
/// the edge.
pub proof fn lemma_aspect_kept(short: nat, long: nat)
    requires
        0 < short <= long,
    ensures
        scaled(short, short, long) == scaled(short, long, short),
        (scaled(short, short, long) - 1) * long < CANVAS_EDGE * short <= scaled(short, short, long)
            * long,
{
    lemma_scaled_by_longest(short, short, long);
    lemma_scaled_by_longest(short, long, short);
    lemma_ceil_div_is_least(CANVAS_EDGE as nat * short, long);
}

/// Whatever placement fits a source with sides greater than zero is a valid
/// placement.
pub proof fn lemma_fitting_is_valid(place: Placement, width: nat, height: nat)
    requires
        width > 0,
        height > 0,
        place.fits(width, height),
    ensures
        place.wf(),
{
    lemma_scaled_fills(width, height);
}

/// A side that is centred keeps within the canvas, and the padding behind it
/// is the padding in front of it or one pixel more.
pub proof fn lemma_centred_within(target: nat)
    requires
        target <= CANVAS_EDGE,
    ensures
        centred(target) == (CANVAS_EDGE - target) / 2,
        centred(target) + target <= CANVAS_EDGE,
        CANVAS_EDGE - target - centred(target) == centred(target) || CANVAS_EDGE - target
            - centred(target) == centred(target) + 1,
{
}

/// A square source fills the whole canvas and is not padded.
pub proof fn lemma_square_fills(side: nat)
    requires
        side > 0,
    ensures
        scaled(side, side, side) == CANVAS_EDGE,
        centred(scaled(side, side, side)) == 0,
{
    lemma_scaled_fills(side, side);
}

/// The pixels that `short` takes when `long`, which is no shorter, takes the
/// whole edge.
fn scale_side(short: &Length, long: &Length) -> (n: u32)
    requires
        short.steps() <= long.steps(),
    ensures
        n == ceil_div(CANVAS_EDGE as nat * short.steps(), long.steps()),
        1 <= n <= CANVAS_EDGE,
{
    let ms: u64 = short.significand_value();
    let ml: u64 = long.significand_value();
    let ss: u16 = short.shift_value();
    let sl: u16 = long.shift_value();
    let ghost ps = pow2(ss as nat);
    proof {
        crate::length::lemma_steps_order(*long, *short);
        lemma_pow2_pos(ss as nat);
        assert(short.steps() > 0) by (nonlinear_arith)
            requires
                short.steps() == ms * ps,
                ms > 0,
                ps > 0,
        ;
        lemma_scaled_bounds(short.steps(), long.steps());
    }
    let gap: u16 = sl - ss;
    let ghost pg = pow2(gap as nat);
    proof {
        lemma_pow2_adds(ss as nat, gap as nat);
        lemma_pow2_pos(gap as nat);
        assert(CANVAS_EDGE as nat * short.steps() == (256 * ms) * ps) by (nonlinear_arith)
            requires
                short.steps() == ms * ps,
        ;
        assert(long.steps() == (ml * pg) * ps) by (nonlinear_arith)
            requires
                long.steps() == ml * (ps * pg),
        ;
        assert(ml * pg > 0) by (nonlinear_arith)
            requires
                ml > 0,
                pg > 0,
        ;
        lemma_ceil_div_cancel((256 * ms) as nat, (ml * pg) as nat, ps);
    }
    if gap >= 10 {
        proof {
            lemma2_to64();
            if gap > 10 {
                lemma_pow2_strictly_increases(10, gap as nat);
            }
            assert(256 * ms <= ml * pg) by (nonlinear_arith)
                requires
                    ms < 2 * HIDDEN_BIT,
                    ml >= HIDDEN_BIT,
                    pg >= 1024,
            ;
            lemma_ceil_div_unique((256 * ms) as nat, (ml * pg) as nat, 1);
        }
        return 1;
    }
    let mut span: u64 = ml;
    let mut done: u16 = 0;
    proof {
        lemma2_to64();
    }
    while done < gap
        invariant
            done <= gap < 10,
            ml < 2 * HIDDEN_BIT,
            span == ml * pow2(done as nat),
            span <= ml * 512,
        decreases gap - done,
    {
        proof {
            lemma_pow2_unfold((done + 1) as nat);
            lemma2_to64();
            let q = pow2((done + 1) as nat);
            if done + 1 < 9 {
                lemma_pow2_strictly_increases((done + 1) as nat, 9);
            }
            assert(ml * q <= ml * 512 && 2 * (ml * pow2(done as nat)) == ml * q)
                by (nonlinear_arith)
                requires
                    q <= 512,
                    q == 2 * pow2(done as nat),
            ;
        }
        span = span * 2;
        done = done + 1;
    }
    let n: u64 = ceil_div_u64(256 * ms, span);
    n as u32
}

/// Places a source of the given intrinsic width and height on the canvas.
pub fn fit(width: &Length, height: &Length) -> (place: Placement)
    ensures
        place.wf(),
        place.fits(width.steps(), height.steps()),
{
    proof {
        use_type_invariant(width);
        use_type_invariant(height);
        lemma_positive_steps(*width);
        lemma_positive_steps(*height);
        lemma_scaled_fills(width.steps(), height.steps());
        lemma_scaled_by_longest(width.steps(), width.steps(), height.steps());
        lemma_scaled_by_longest(height.steps(), width.steps(), height.steps());
    }
    if height.le(width) {
        let target_height = scale_side(height, width);
        Placement {
            target_width: CANVAS_EDGE,
            target_height,
            x_offset: 0,
            y_offset: (CANVAS_EDGE - target_height) / 2,
            limiting: Axis::Width,
        }
    } else {
        let target_width = scale_side(width, height);
        Placement {
            target_width,
            target_height: CANVAS_EDGE,
            x_offset: (CANVAS_EDGE - target_width) / 2,
            y_offset: 0,
            limiting: Axis::Height,
        }
    }
}

/// A length is more than no steps.
proof fn lemma_positive_steps(length: Length)
    requires
        length.wf(),
    ensures
        length.steps() > 0,
{
    lemma_pow2_pos(length.shift());
    let (m, p) = (length.significand(), pow2(length.shift()));
    assert(m * p > 0) by (nonlinear_arith)
        requires
            m > 0,
            p > 0,
    ;
}

/// Places a source whose intrinsic width and height are given as binary64 bit
/// patterns. A side that is zero, negative, infinite or no number at all is
/// refused as invalid geometry.
pub fn fit_bits(width_bits: u64, height_bits: u64) -> (r: Result<Placement, PipelineError>)
    ensures
        r is Ok <==> is_positive_finite(width_bits) && is_positive_finite(height_bits),
        r matches Ok(place) ==> place.wf() && place.fits(
            steps_of_bits(width_bits),
            steps_of_bits(height_bits),
        ),
        r matches Err(e) ==> e == PipelineError::InvalidGeometry,
{
    match (Length::from_bits(width_bits), Length::from_bits(height_bits)) {
        (Some(width), Some(height)) => Ok(fit(&width, &height)),
        _ => Err(PipelineError::InvalidGeometry),
    }
}

} // verus!
