//! View fitting and pixel mapping: accumulate bounding extents over a frame
//! set, select the two world axes of a projection plane, pad the region of
//! interest, equalize the world-to-pixel scale of both axes, and map world
//! points to canvas pixel coordinates.  Drawing itself is returned as a list
//! of commands for the host canvas to execute.

use crate::frame::{frame_extents, seed_extents, Extents, ExtentsV, Frame, Vec3v};
use crate::rat::{
    fits_i64, lemma_div_nonzero, lemma_fits_from_raw, lemma_mul_bound, lemma_rat_norm,
    lemma_sub_nonzero, rat_add, rat_div, rat_div_raw, rat_eq, rat_fits, rat_lt, rat_le, rat_max,
    rat_min, rat_mul, rat_mul_raw, rat_sub, rat_sub_raw, Rat, RatV,
};
use vstd::prelude::*;

verus! {

/// The three canonical viewing directions: the world axis the view looks along.
#[derive(Clone, Copy, Debug, PartialEq, Eq, Structural)]
pub enum ProjectionNormalDirection {
    X,
    Y,
    Z,
}

/// 2D region of interest in world units.
#[derive(Clone, Copy, Debug)]
pub struct Rectangle {
    pub x0: Rat,
    pub y0: Rat,
    pub x1: Rat,
    pub y1: Rat,
}

/// Spec-level rectangle.
pub struct RectV {
    pub x0: RatV,
    pub y0: RatV,
    pub x1: RatV,
    pub y1: RatV,
}

impl View for Rectangle {
    type V = RectV;

    open spec fn view(&self) -> RectV {
        RectV { x0: self.x0@, y0: self.y0@, x1: self.x1@, y1: self.y1@ }
    }
}

impl Rectangle {
    /// All four corners are well-formed rationals.
    pub open spec fn wf(self) -> bool {
        &&& self.x0.wf()
        &&& self.y0.wf()
        &&& self.x1.wf()
        &&& self.y1.wf()
    }

    /// Normalizing constructor: swaps each coordinate pair so the first is
    /// the lower one.  Only the constructor guarantees this order; the fitter
    /// mutates the fields freely afterwards.
    pub fn new(x0: Rat, y0: Rat, x1: Rat, y1: Rat) -> (r: Rectangle)
        requires
            x0.wf(),
            y0.wf(),
            x1.wf(),
            y1.wf(),
        ensures
            r.wf(),
            r@.x0 == if rat_lt(x0@, x1@) {
                x0@
            } else {
                x1@
            },
            r@.x1 == if rat_lt(x0@, x1@) {
                x1@
            } else {
                x0@
            },
            r@.y0 == if rat_lt(y0@, y1@) {
                y0@
            } else {
                y1@
            },
            r@.y1 == if rat_lt(y0@, y1@) {
                y1@
            } else {
                y0@
            },
            rat_le(r@.x0, r@.x1),
            rat_le(r@.y0, r@.y1),
    {
        let (xl, xh) = if x0.lt(x1) {
            (x0, x1)
        } else {
            (x1, x0)
        };
        let (yl, yh) = if y0.lt(y1) {
            (y0, y1)
        } else {
            (y1, y0)
        };
        Rectangle { x0: xl, y0: yl, x1: xh, y1: yh }
    }
}

/// The margin fraction applied by fitting and mapping: 0.1.
pub open spec fn canvas_scale_v() -> RatV {
    RatV { n: 1, d: 10 }
}

/// Executable value of the margin fraction.
pub fn canvas_scale() -> (r: Rat)
    ensures
        r.wf(),
        r@ == canvas_scale_v(),
{
    Rat { n: 1, d: 10 }
}

/// The integer `k` as a spec rational.
pub open spec fn int_rat(k: int) -> RatV {
    RatV { n: k, d: 1 }
}

/// Union of two extents: componentwise minimum of the minima and maximum of
/// the maxima.
pub open spec fn ext_union1(a: ExtentsV, b: ExtentsV) -> ExtentsV {
    ExtentsV {
        x_min: rat_min(a.x_min, b.x_min),
        y_min: rat_min(a.y_min, b.y_min),
        z_min: rat_min(a.z_min, b.z_min),
        x_max: rat_max(a.x_max, b.x_max),
        y_max: rat_max(a.y_max, b.y_max),
        z_max: rat_max(a.z_max, b.z_max),
    }
}

/// Extents union of the first `n` frames, folded over the seed box.
pub open spec fn union_upto(frames: Seq<Frame>, n: int) -> ExtentsV
    decreases n,
{
    if n <= 0 {
        seed_extents()
    } else {
        ext_union1(union_upto(frames, n - 1), frame_extents(frames[n - 1]))
    }
}

/// Every frame is well-formed and inside the sentinel range of `get_min_max`.
pub open spec fn frames_ok(frames: Seq<Frame>) -> bool {
    forall|i: int|
        0 <= i < frames.len() ==> (#[trigger] frames[i]).wf() && frames[i].in_sentinel_range()
}

/// Extents accumulation: fold every frame's bounding box over the seed box.
/// An empty frame set returns exactly the seed box.
pub fn union_extents(frames: &Vec<Frame>) -> (e: Extents)
    requires
        frames_ok(frames@),
    ensures
        e.wf(),
        e@ == union_upto(frames@, frames@.len() as int),
        frames@.len() == 0 ==> e@ == seed_extents(),
{
    let mut total = Extents::new();
    let n = frames.len();
    let mut i: usize = 0;
    while i < n
        invariant
            n == frames@.len(),
            0 <= i <= n,
            frames_ok(frames@),
            total.wf(),
            total@ == union_upto(frames@, i as int),
        decreases n - i,
    {
        let local = frames[i].get_min_max();
        if local.x_min.lt(total.x_min) {
            total.x_min = local.x_min;
        }
        if local.y_min.lt(total.y_min) {
            total.y_min = local.y_min;
        }
        if local.z_min.lt(total.z_min) {
            total.z_min = local.z_min;
        }
        if total.x_max.lt(local.x_max) {
            total.x_max = local.x_max;
        }
        if total.y_max.lt(local.y_max) {
            total.y_max = local.y_max;
        }
        if total.z_max.lt(local.z_max) {
            total.z_max = local.z_max;
        }
        i += 1;
    }
    total
}

/// Which two world axes a plane projects onto canvas (x, y): the view along X
/// uses (y, z), along Y uses (z, x), along Z uses (x, y).
pub open spec fn select_plane(e: ExtentsV, p: ProjectionNormalDirection) -> RectV {
    match p {
        ProjectionNormalDirection::X => RectV {
            x0: e.y_min,
            x1: e.y_max,
            y0: e.z_min,
            y1: e.z_max,
        },
        ProjectionNormalDirection::Y => RectV {
            x0: e.z_min,
            x1: e.z_max,
            y0: e.x_min,
            y1: e.x_max,
        },
        ProjectionNormalDirection::Z => RectV {
            x0: e.x_min,
            x1: e.x_max,
            y0: e.y_min,
            y1: e.y_max,
        },
    }
}

/// Margin step on a lower bound: `lo - 0.1·lo` (proportional to the
/// coordinate itself, not to the box width — the documented asymmetric choice).
pub open spec fn margin_lo(r: RatV) -> RatV {
    rat_sub(r, rat_mul(canvas_scale_v(), r))
}

/// Margin step on an upper bound: `hi + 0.1·hi`.
pub open spec fn margin_hi(r: RatV) -> RatV {
    rat_add(r, rat_mul(canvas_scale_v(), r))
}

/// The selected 2D box with the margin applied to all four bounds.
pub open spec fn margined(e: ExtentsV, p: ProjectionNormalDirection) -> RectV {
    let s = select_plane(e, p);
    RectV {
        x0: margin_lo(s.x0),
        x1: margin_hi(s.x1),
        y0: margin_lo(s.y0),
        y1: margin_hi(s.y1),
    }
}

/// The fitted region of interest: after the margin, whichever axis has the
/// smaller world-to-pixel scale is widened about its midpoint so both axes
/// share one scale; on a tie the vertical axis is the one rewritten.
pub open spec fn fitted_rect(e: ExtentsV, p: ProjectionNormalDirection, w: int, h: int) -> RectV {
    let m = margined(e, p);
    let two = int_rat(2);
    let xd = rat_sub(m.x1, m.x0);
    let xs = rat_div(xd, int_rat(w));
    let yd = rat_sub(m.y1, m.y0);
    let ys = rat_div(yd, int_rat(h));
    if rat_lt(xs, ys) {
        let xm = rat_add(m.x0, rat_div(xd, two));
        let half = rat_div(rat_mul(xd, rat_div(ys, xs)), two);
        RectV { x0: rat_sub(xm, half), x1: rat_add(xm, half), y0: m.y0, y1: m.y1 }
    } else {
        let ym = rat_add(m.y0, rat_div(yd, two));
        let half = rat_div(rat_mul(yd, rat_div(xs, ys)), two);
        RectV { x0: m.x0, x1: m.x1, y0: rat_sub(ym, half), y1: rat_add(ym, half) }
    }
}

/// Machine-limit conditions for one fit: the canvas has positive pixel
/// dimensions, the margined box is non-degenerate on both axes, and every
/// intermediate rational of the fit fits `i64` in reduced form.
pub open spec fn fit_fits(e: ExtentsV, p: ProjectionNormalDirection, w: int, h: int) -> bool {
    let s = select_plane(e, p);
    let m = margined(e, p);
    let two = int_rat(2);
    let xd = rat_sub(m.x1, m.x0);
    let xs = rat_div(xd, int_rat(w));
    let yd = rat_sub(m.y1, m.y0);
    let ys = rat_div(yd, int_rat(h));
    &&& 0 < w <= 0xffff_ffff
    &&& 0 < h <= 0xffff_ffff
    &&& rat_fits(rat_mul(canvas_scale_v(), s.x0))
    &&& rat_fits(rat_mul(canvas_scale_v(), s.x1))
    &&& rat_fits(rat_mul(canvas_scale_v(), s.y0))
    &&& rat_fits(rat_mul(canvas_scale_v(), s.y1))
    &&& rat_fits(m.x0)
    &&& rat_fits(m.x1)
    &&& rat_fits(m.y0)
    &&& rat_fits(m.y1)
    &&& rat_fits(xd)
    &&& rat_fits(yd)
    &&& rat_fits(xs)
    &&& rat_fits(ys)
    &&& xd.n != 0
    &&& yd.n != 0
    &&& if rat_lt(xs, ys) {
        let xm = rat_add(m.x0, rat_div(xd, two));
        let prod = rat_mul(xd, rat_div(ys, xs));
        let half = rat_div(prod, two);
        &&& rat_fits(rat_div(xd, two))
        &&& rat_fits(xm)
        &&& rat_fits(rat_div(ys, xs))
        &&& rat_fits(prod)
        &&& rat_fits(half)
        &&& rat_fits(rat_sub(xm, half))
        &&& rat_fits(rat_add(xm, half))
    } else {
        let ym = rat_add(m.y0, rat_div(yd, two));
        let prod = rat_mul(yd, rat_div(xs, ys));
        let half = rat_div(prod, two);
        &&& rat_fits(rat_div(yd, two))
        &&& rat_fits(ym)
        &&& rat_fits(rat_div(xs, ys))
        &&& rat_fits(prod)
        &&& rat_fits(half)
        &&& rat_fits(rat_sub(ym, half))
        &&& rat_fits(rat_add(ym, half))
    }
}

/// Per-canvas drawing state: the canvas pixel dimensions, the fixed
/// projection plane, and the current region of interest (recomputed by every
/// fit).  The host that owns the actual drawing surface supplies the
/// dimensions and executes the returned draw commands.
pub struct ProjectedFrameDraw {
    pub width: u32,
    pub height: u32,
    pub plane_normal: ProjectionNormalDirection,
    pub roi: Rectangle,
}

impl ProjectedFrameDraw {
    /// Fresh state for one canvas of the given pixel size, viewing along the
    /// given plane normal, with a placeholder region of interest.
    pub fn new(width: u32, height: u32, plane_normal: ProjectionNormalDirection) -> (s:
        ProjectedFrameDraw)
        ensures
            s.width == width,
            s.height == height,
            s.plane_normal == plane_normal,
            s.roi.wf(),
            s.roi@ == (RectV {
                x0: RatV { n: -1, d: 1 },
                y0: RatV { n: -1, d: 1 },
                x1: RatV { n: 1, d: 1 },
                y1: RatV { n: 1, d: 1 },
            }),
    {
        ProjectedFrameDraw {
            width,
            height,
            plane_normal,
            roi: Rectangle::new(
                Rat::from_int(-1),
                Rat::from_int(-1),
                Rat::from_int(1),
                Rat::from_int(1),
            ),
        }
    }

    /// Recompute the region of interest from the frame set: union of extents,
    /// axis selection for this plane, margin, and scale equalization.
    pub fn fit_scale(&mut self, frames: &Vec<Frame>)
        requires
            frames_ok(frames@),
            fit_fits(
                union_upto(frames@, frames@.len() as int),
                old(self).plane_normal,
                old(self).width as int,
                old(self).height as int,
            ),
        ensures
            final(self).roi@ == fitted_rect(
                union_upto(frames@, frames@.len() as int),
                old(self).plane_normal,
                old(self).width as int,
                old(self).height as int,
            ),
            final(self).roi.wf(),
            final(self).width == old(self).width,
            final(self).height == old(self).height,
            final(self).plane_normal == old(self).plane_normal,
    {
        let ghost e = union_upto(frames@, frames@.len() as int);
        let total = union_extents(frames);
        match self.plane_normal {
            ProjectionNormalDirection::X => {
                self.roi.x0 = total.y_min;
                self.roi.x1 = total.y_max;
                self.roi.y0 = total.z_min;
                self.roi.y1 = total.z_max;
            },
            ProjectionNormalDirection::Y => {
                self.roi.x0 = total.z_min;
                self.roi.x1 = total.z_max;
                self.roi.y0 = total.x_min;
                self.roi.y1 = total.x_max;
            },
            ProjectionNormalDirection::Z => {
                self.roi.x0 = total.x_min;
                self.roi.x1 = total.x_max;
                self.roi.y0 = total.y_min;
                self.roi.y1 = total.y_max;
            },
        }
        let sc = canvas_scale();
        self.roi.x0 = self.roi.x0.minus(sc.times(self.roi.x0));
        self.roi.x1 = self.roi.x1.plus(sc.times(self.roi.x1));
        self.roi.y0 = self.roi.y0.minus(sc.times(self.roi.y0));
        self.roi.y1 = self.roi.y1.plus(sc.times(self.roi.y1));
        let x_diff = self.roi.x1.minus(self.roi.x0);
        let y_diff = self.roi.y1.minus(self.roi.y0);
        proof {
            let m = margined(e, self.plane_normal);
            assert(m.x1.d * m.x0.d > 0) by (nonlinear_arith)
                requires
                    m.x1.d > 0,
                    m.x0.d > 0,
            ;
            assert(m.y1.d * m.y0.d > 0) by (nonlinear_arith)
                requires
                    m.y1.d > 0,
                    m.y0.d > 0,
            ;
            lemma_rat_norm(rat_sub_raw(m.x1, m.x0));
            lemma_rat_norm(rat_sub_raw(m.y1, m.y0));
            lemma_div_nonzero(rat_sub(m.x1, m.x0), int_rat(self.width as int));
            lemma_div_nonzero(rat_sub(m.y1, m.y0), int_rat(self.height as int));
        }
        let w_rat = Rat::from_int(self.width as i64);
        let h_rat = Rat::from_int(self.height as i64);
        let x_scale = x_diff.div_by(w_rat);
        let y_scale = y_diff.div_by(h_rat);
        let two = Rat::from_int(2);
        if x_scale.lt(y_scale) {
            let xm = self.roi.x0.plus(x_diff.div_by(two));
            let ratio = y_scale.div_by(x_scale);
            let half = x_diff.times(ratio).div_by(two);
            self.roi.x0 = xm.minus(half);
            self.roi.x1 = xm.plus(half);
        } else {
            let ym = self.roi.y0.plus(y_diff.div_by(two));
            let ratio = x_scale.div_by(y_scale);
            let half = y_diff.times(ratio).div_by(two);
            self.roi.y0 = ym.minus(half);
            self.roi.y1 = ym.plus(half);
        }
    }

    /// Map a world point of the fitted region of interest to canvas pixel
    /// coordinates: linear interpolation into the bordered pixel range on x,
    /// the same on y but inverted, because canvas rows grow downward while
    /// world coordinates grow upward.  This function is pure.
    pub fn scale(&self, x: Rat, y: Rat) -> (p: (Rat, Rat))
        requires
            x.wf(),
            y.wf(),
            self.roi.wf(),
            scale_fits(self.roi@, self.width as int, self.height as int, x@, y@),
        ensures
            p.0.wf(),
            p.1.wf(),
            p.0@ == map_x(self.roi@, self.width as int, x@),
            p.1@ == map_y(self.roi@, self.height as int, y@),
    {
        let w_rat = Rat::from_int(self.width as i64);
        let h_rat = Rat::from_int(self.height as i64);
        let sc = canvas_scale();
        let one = Rat::from_int(1);
        proof {
            lemma_fits_from_raw(rat_sub_raw(int_rat(1), canvas_scale_v()));
            lemma_rat_norm(rat_sub_raw(int_rat(1), canvas_scale_v()));
        }
        let one_less = one.minus(sc);
        proof {
            let w = self.width as int;
            let h = self.height as int;
            lemma_fits_from_raw(rat_mul_raw(int_rat(w), canvas_scale_v()));
            lemma_rat_norm(rat_mul_raw(int_rat(w), canvas_scale_v()));
            lemma_fits_from_raw(rat_mul_raw(int_rat(h), canvas_scale_v()));
            lemma_rat_norm(rat_mul_raw(int_rat(h), canvas_scale_v()));
            lemma_mul_bound(w, one_less@.n, 0x1_0000_0000, 10);
            lemma_fits_from_raw(rat_mul_raw(int_rat(w), one_less@));
            lemma_rat_norm(rat_mul_raw(int_rat(w), one_less@));
            lemma_mul_bound(h, one_less@.n, 0x1_0000_0000, 10);
            lemma_fits_from_raw(rat_mul_raw(int_rat(h), one_less@));
            lemma_rat_norm(rat_mul_raw(int_rat(h), one_less@));
        }
        let c_x0 = w_rat.times(sc);
        let c_y0 = h_rat.times(sc);
        let c_x1 = w_rat.times(one_less);
        let c_y1 = h_rat.times(one_less);
        proof {
            lemma_mul_bound(c_x1@.n, c_x0@.d, 0xA_0000_0000, 10);
            lemma_mul_bound(c_x0@.n, c_x1@.d, 0xA_0000_0000, 10);
            lemma_mul_bound(c_x1@.d, c_x0@.d, 10, 10);
            assert(c_x1@.d * c_x0@.d > 0) by (nonlinear_arith)
                requires
                    c_x1@.d > 0,
                    c_x0@.d > 0,
            ;
            lemma_fits_from_raw(rat_sub_raw(c_x1@, c_x0@));
            lemma_mul_bound(c_y1@.n, c_y0@.d, 0xA_0000_0000, 10);
            lemma_mul_bound(c_y0@.n, c_y1@.d, 0xA_0000_0000, 10);
            lemma_mul_bound(c_y1@.d, c_y0@.d, 10, 10);
            assert(c_y1@.d * c_y0@.d > 0) by (nonlinear_arith)
                requires
                    c_y1@.d > 0,
                    c_y0@.d > 0,
            ;
            lemma_fits_from_raw(rat_sub_raw(c_y1@, c_y0@));
            lemma_sub_nonzero(self.roi.x1@, self.roi.x0@);
            lemma_sub_nonzero(self.roi.y1@, self.roi.y0@);
        }
        let cdx = c_x1.minus(c_x0);
        let cdy = c_y1.minus(c_y0);
        let dx = self.roi.x1.minus(self.roi.x0);
        let dy = self.roi.y1.minus(self.roi.y0);
        let mapped_x = x.minus(self.roi.x0).times(cdx).div_by(dx).plus(c_x0);
        let mapped_y = h_rat.minus(y.minus(self.roi.y0).times(cdy).div_by(dy).plus(c_y0));
        (mapped_x, mapped_y)
    }

    /// Produce the draw-command list for one rendering pass: an optional
    /// clear, the refit of the region of interest, a border rectangle, and,
    /// per frame, three colored axis segments from the projected origin to
    /// the projected axis tips (x red, y green, z blue) plus a name label at
    /// the projected origin.  Later frames draw on top; there is no depth
    /// sorting.  The host canvas executes the commands in order.
    pub fn draw(&mut self, frames: &Vec<Frame>, clear: bool) -> (cmds: Vec<DrawCmd>)
        requires
            draw_fits(
                frames@,
                old(self).plane_normal,
                old(self).width as int,
                old(self).height as int,
            ),
        ensures
            final(self).roi@ == fitted_rect(
                union_upto(frames@, frames@.len() as int),
                old(self).plane_normal,
                old(self).width as int,
                old(self).height as int,
            ),
            final(self).width == old(self).width,
            final(self).height == old(self).height,
            final(self).plane_normal == old(self).plane_normal,
            cmds@.len() == draw_base(clear) + 1 + 4 * frames@.len(),
            clear ==> cmds@[0] == (DrawCmd::Clear { w: old(self).width, h: old(self).height }),
            cmds@[draw_base(clear)] == (DrawCmd::Border {
                w: old(self).width,
                h: old(self).height,
            }),
            forall|i: int|
                0 <= i < frames@.len() ==> frame_cmds_ok(
                    cmds@,
                    draw_base(clear) + 1 + 4 * i,
                    frames@[i],
                    fitted_rect(
                        union_upto(frames@, frames@.len() as int),
                        old(self).plane_normal,
                        old(self).width as int,
                        old(self).height as int,
                    ),
                    old(self).plane_normal,
                    old(self).width as int,
                    old(self).height as int,
                ),
    {
        let mut cmds: Vec<DrawCmd> = Vec::new();
        if clear {
            cmds.push(DrawCmd::Clear { w: self.width, h: self.height });
        }
        self.fit_scale(frames);
        cmds.push(DrawCmd::Border { w: self.width, h: self.height });
        let ghost base = draw_base(clear) + 1;
        let ghost fitted = self.roi@;
        let n = frames.len();
        let mut i: usize = 0;
        while i < n
            invariant
                n == frames@.len(),
                0 <= i <= n,
                frames_ok(frames@),
                self.roi.wf(),
                self.roi@ == fitted,
                cmds@.len() == base + 4 * i,
                clear ==> base == 2 && cmds@[0] == (DrawCmd::Clear { w: self.width, h: self.height }),
                !clear ==> base == 1,
                cmds@[base - 1] == (DrawCmd::Border { w: self.width, h: self.height }),
                forall|j: int|
                    0 <= j < i ==> frame_cmds_ok(
                        cmds@,
                        base + 4 * j,
                        frames@[j],
                        fitted,
                        self.plane_normal,
                        self.width as int,
                        self.height as int,
                    ),
                forall|j: int|
                    0 <= j < frames@.len() ==> frame_scale_fits(
                        fitted,
                        self.width as int,
                        self.height as int,
                        #[trigger] frames@[j],
                        self.plane_normal,
                    ),
            decreases n - i,
        {
            let f = &frames[i];
            let d = f.den;
            let (xo, yo) = match self.plane_normal {
                ProjectionNormalDirection::X => self.scale(
                    Rat { n: f.origin.y, d },
                    Rat { n: f.origin.z, d },
                ),
                ProjectionNormalDirection::Y => self.scale(
                    Rat { n: f.origin.z, d },
                    Rat { n: f.origin.x, d },
                ),
                ProjectionNormalDirection::Z => self.scale(
                    Rat { n: f.origin.x, d },
                    Rat { n: f.origin.y, d },
                ),
            };
            let (x1, y1) = match self.plane_normal {
                ProjectionNormalDirection::X => self.scale(
                    Rat { n: f.x.y, d },
                    Rat { n: f.x.z, d },
                ),
                ProjectionNormalDirection::Y => self.scale(
                    Rat { n: f.x.z, d },
                    Rat { n: f.x.x, d },
                ),
                ProjectionNormalDirection::Z => self.scale(
                    Rat { n: f.x.x, d },
                    Rat { n: f.x.y, d },
                ),
            };
            let (x2, y2) = match self.plane_normal {
                ProjectionNormalDirection::X => self.scale(
                    Rat { n: f.y.y, d },
                    Rat { n: f.y.z, d },
                ),
                ProjectionNormalDirection::Y => self.scale(
                    Rat { n: f.y.z, d },
                    Rat { n: f.y.x, d },
                ),
                ProjectionNormalDirection::Z => self.scale(
                    Rat { n: f.y.x, d },
                    Rat { n: f.y.y, d },
                ),
            };
            let (x3, y3) = match self.plane_normal {
                ProjectionNormalDirection::X => self.scale(
                    Rat { n: f.z.y, d },
                    Rat { n: f.z.z, d },
                ),
                ProjectionNormalDirection::Y => self.scale(
                    Rat { n: f.z.z, d },
                    Rat { n: f.z.x, d },
                ),
                ProjectionNormalDirection::Z => self.scale(
                    Rat { n: f.z.x, d },
                    Rat { n: f.z.y, d },
                ),
            };
            cmds.push(
                DrawCmd::Segment { color: Color::Red, x0: xo, y0: yo, x1, y1 },
            );
            cmds.push(
                DrawCmd::Segment { color: Color::Green, x0: xo, y0: yo, x1: x2, y1: y2 },
            );
            cmds.push(
                DrawCmd::Segment { color: Color::Blue, x0: xo, y0: yo, x1: x3, y1: y3 },
            );
            let text = f.name.clone();
            cmds.push(DrawCmd::Label { text, x: xo, y: yo });
            i += 1;
        }
        cmds
    }
}

/// A stroke color of the renderer's fixed convention.
#[derive(Clone, Copy, Debug, PartialEq, Eq, Structural)]
pub enum Color {
    Black,
    Red,
    Green,
    Blue,
}

/// One drawing command for the host canvas.  `Border` stands for the
/// full-canvas outline stroked in black; `Label` is stroked in black at the
/// projected origin of its frame.
#[derive(Clone, Debug, PartialEq)]
pub enum DrawCmd {
    Clear { w: u32, h: u32 },
    Border { w: u32, h: u32 },
    Segment { color: Color, x0: Rat, y0: Rat, x1: Rat, y1: Rat },
    Label { text: String, x: Rat, y: Rat },
}

/// Index of the border command: 1 when a clear command precedes it.
pub open spec fn draw_base(clear: bool) -> int {
    if clear {
        1
    } else {
        0
    }
}

/// Lower border pixel coordinate: `dim · 0.1`.
pub open spec fn c_lo(dim: int) -> RatV {
    rat_mul(int_rat(dim), canvas_scale_v())
}

/// Upper border pixel coordinate: `dim · (1 - 0.1)`.
pub open spec fn c_hi(dim: int) -> RatV {
    rat_mul(int_rat(dim), rat_sub(int_rat(1), canvas_scale_v()))
}

/// Horizontal pixel coordinate of world `x` inside the region of interest.
pub open spec fn map_x(roi: RectV, w: int, x: RatV) -> RatV {
    rat_add(
        rat_div(rat_mul(rat_sub(x, roi.x0), rat_sub(c_hi(w), c_lo(w))), rat_sub(roi.x1, roi.x0)),
        c_lo(w),
    )
}

/// Vertical pixel coordinate of world `y`: as `map_x`, then inverted.
pub open spec fn map_y(roi: RectV, h: int, y: RatV) -> RatV {
    rat_sub(
        int_rat(h),
        rat_add(
            rat_div(
                rat_mul(rat_sub(y, roi.y0), rat_sub(c_hi(h), c_lo(h))),
                rat_sub(roi.y1, roi.y0),
            ),
            c_lo(h),
        ),
    )
}

/// Machine-limit conditions for one mapped point: positive canvas
/// dimensions, a region of interest that is non-degenerate on both axes, and
/// reduced intermediates that fit `i64`.
pub open spec fn scale_fits(roi: RectV, w: int, h: int, x: RatV, y: RatV) -> bool {
    let cdx = rat_sub(c_hi(w), c_lo(w));
    let cdy = rat_sub(c_hi(h), c_lo(h));
    let numx = rat_mul(rat_sub(x, roi.x0), cdx);
    let numy = rat_mul(rat_sub(y, roi.y0), cdy);
    let qx = rat_div(numx, rat_sub(roi.x1, roi.x0));
    let qy = rat_div(numy, rat_sub(roi.y1, roi.y0));
    &&& 0 < w <= 0xffff_ffff
    &&& 0 < h <= 0xffff_ffff
    &&& rat_fits(roi.x0) && rat_fits(roi.x1) && rat_fits(roi.y0) && rat_fits(roi.y1)
    &&& rat_fits(x) && rat_fits(y)
    &&& !rat_eq(roi.x0, roi.x1)
    &&& !rat_eq(roi.y0, roi.y1)
    &&& rat_fits(rat_sub(x, roi.x0))
    &&& rat_fits(rat_sub(y, roi.y0))
    &&& rat_fits(rat_sub(roi.x1, roi.x0))
    &&& rat_fits(rat_sub(roi.y1, roi.y0))
    &&& rat_fits(numx)
    &&& rat_fits(numy)
    &&& rat_fits(qx)
    &&& rat_fits(qy)
    &&& rat_fits(rat_add(qx, c_lo(w)))
    &&& rat_fits(rat_add(qy, c_lo(h)))
    &&& rat_fits(rat_sub(int_rat(h), rat_add(qy, c_lo(h))))
}

/// The two projected world coordinates of one point for a plane, as
/// rationals over the frame's denominator.
pub open spec fn proj_pair(p: ProjectionNormalDirection, v: Vec3v, den: int) -> (RatV, RatV) {
    match p {
        ProjectionNormalDirection::X => (RatV { n: v.y, d: den }, RatV { n: v.z, d: den }),
        ProjectionNormalDirection::Y => (RatV { n: v.z, d: den }, RatV { n: v.x, d: den }),
        ProjectionNormalDirection::Z => (RatV { n: v.x, d: den }, RatV { n: v.y, d: den }),
    }
}

/// `scale_fits` for all four projected points of one frame.
pub open spec fn frame_scale_fits(
    r: RectV,
    w: int,
    h: int,
    f: Frame,
    p: ProjectionNormalDirection,
) -> bool {
    let d = f.den as int;
    let o = proj_pair(p, f.origin@, d);
    let px = proj_pair(p, f.x@, d);
    let py = proj_pair(p, f.y@, d);
    let pz = proj_pair(p, f.z@, d);
    &&& scale_fits(r, w, h, o.0, o.1)
    &&& scale_fits(r, w, h, px.0, px.1)
    &&& scale_fits(r, w, h, py.0, py.1)
    &&& scale_fits(r, w, h, pz.0, pz.1)
}

/// Machine-limit conditions for one full rendering pass.
pub open spec fn draw_fits(
    frames: Seq<Frame>,
    p: ProjectionNormalDirection,
    w: int,
    h: int,
) -> bool {
    let e = union_upto(frames, frames.len() as int);
    let r = fitted_rect(e, p, w, h);
    &&& frames_ok(frames)
    &&& fit_fits(e, p, w, h)
    &&& forall|i: int| 0 <= i < frames.len() ==> frame_scale_fits(r, w, h, #[trigger] frames[i], p)
}

/// The command is a segment of the given color and endpoints.
pub open spec fn seg_cmd(c: DrawCmd, color: Color, x0: RatV, y0: RatV, x1: RatV, y1: RatV) -> bool {
    &&& c matches DrawCmd::Segment { color: cc, x0: a, y0: b, x1: e, y1: f }
    &&& cc == color
    &&& a@ == x0
    &&& b@ == y0
    &&& e@ == x1
    &&& f@ == y1
}

/// The command is a label with the given text and anchor.
pub open spec fn label_cmd(c: DrawCmd, name: Seq<char>, x: RatV, y: RatV) -> bool {
    &&& c matches DrawCmd::Label { text, x: a, y: b }
    &&& text@ == name
    &&& a@ == x
    &&& b@ == y
}

/// The four commands that render one frame: red, green and blue axis
/// segments from the projected origin, then the name label at the origin.
pub open spec fn frame_cmds_ok(
    cmds: Seq<DrawCmd>,
    base: int,
    f: Frame,
    r: RectV,
    p: ProjectionNormalDirection,
    w: int,
    h: int,
) -> bool {
    let d = f.den as int;
    let o = proj_pair(p, f.origin@, d);
    let px = proj_pair(p, f.x@, d);
    let py = proj_pair(p, f.y@, d);
    let pz = proj_pair(p, f.z@, d);
    let ox = map_x(r, w, o.0);
    let oy = map_y(r, h, o.1);
    &&& seg_cmd(cmds[base], Color::Red, ox, oy, map_x(r, w, px.0), map_y(r, h, px.1))
    &&& seg_cmd(cmds[base + 1], Color::Green, ox, oy, map_x(r, w, py.0), map_y(r, h, py.1))
    &&& seg_cmd(cmds[base + 2], Color::Blue, ox, oy, map_x(r, w, pz.0), map_y(r, h, pz.1))
    &&& label_cmd(cmds[base + 3], f.name@, ox, oy)
}

} // verus!
