//! Reference frames: an origin plus three axis endpoints, carried as integer
//! numerators over one shared positive denominator, together with rigid
//! transformation (unit-quaternion rotation followed by translation) and
//! per-frame bounding extents.

use crate::rat::{fits_i64, Rat, RatV};
use vstd::prelude::*;

verus! {

/// Spec-level integer 3-vector.
pub struct Vec3v {
    pub x: int,
    pub y: int,
    pub z: int,
}

/// Executable integer 3-vector (the numerators of one point of a frame).
#[derive(Clone, Copy, Debug)]
pub struct Vec3i {
    pub x: i64,
    pub y: i64,
    pub z: i64,
}

impl View for Vec3i {
    type V = Vec3v;

    open spec fn view(&self) -> Vec3v {
        Vec3v { x: self.x as int, y: self.y as int, z: self.z as int }
    }
}

/// Componentwise sum.
pub open spec fn v_add(a: Vec3v, b: Vec3v) -> Vec3v {
    Vec3v { x: a.x + b.x, y: a.y + b.y, z: a.z + b.z }
}

/// Componentwise difference.
pub open spec fn v_sub(a: Vec3v, b: Vec3v) -> Vec3v {
    Vec3v { x: a.x - b.x, y: a.y - b.y, z: a.z - b.z }
}

/// Scalar multiple.
pub open spec fn v_scale(k: int, a: Vec3v) -> Vec3v {
    Vec3v { x: k * a.x, y: k * a.y, z: k * a.z }
}

/// Cross product.
pub open spec fn v_cross(a: Vec3v, b: Vec3v) -> Vec3v {
    Vec3v { x: a.y * b.z - a.z * b.y, y: a.z * b.x - a.x * b.z, z: a.x * b.y - a.y * b.x }
}

/// Dot product.
pub open spec fn v_dot(a: Vec3v, b: Vec3v) -> int {
    a.x * b.x + a.y * b.y + a.z * b.z
}

/// All three components fit `i64`.
pub open spec fn fits_v(v: Vec3v) -> bool {
    fits_i64(v.x) && fits_i64(v.y) && fits_i64(v.z)
}

/// A rotation quaternion `(w + x i + y j + z k) / den` with integer
/// components over a positive denominator.  It describes a rotation exactly
/// when it has unit norm, i.e. `w² + x² + y² + z² == den²`.
#[derive(Clone, Copy, Debug)]
pub struct Quat {
    pub w: i64,
    pub x: i64,
    pub y: i64,
    pub z: i64,
    pub den: i64,
}

/// Spec-level quaternion.
pub struct QuatV {
    pub w: int,
    pub x: int,
    pub y: int,
    pub z: int,
    pub den: int,
}

impl View for Quat {
    type V = QuatV;

    open spec fn view(&self) -> QuatV {
        QuatV {
            w: self.w as int,
            x: self.x as int,
            y: self.y as int,
            z: self.z as int,
            den: self.den as int,
        }
    }
}

/// The vector part of a quaternion.
pub open spec fn q_axis(q: QuatV) -> Vec3v {
    Vec3v { x: q.x, y: q.y, z: q.z }
}

/// Squared norm of the quaternion's components.
pub open spec fn q_norm2(q: QuatV) -> int {
    q.w * q.w + q.x * q.x + q.y * q.y + q.z * q.z
}

/// The quaternion denotes a rotation exactly: unit norm over its denominator.
pub open spec fn q_unit(q: QuatV) -> bool {
    q_norm2(q) == q.den * q.den
}

/// A rational translation vector `(x, y, z) / den`.
#[derive(Clone, Copy, Debug)]
pub struct Vec3r {
    pub x: i64,
    pub y: i64,
    pub z: i64,
    pub den: i64,
}

/// Spec-level rational translation vector.
pub struct Vec3rV {
    pub x: int,
    pub y: int,
    pub z: int,
    pub den: int,
}

impl View for Vec3r {
    type V = Vec3rV;

    open spec fn view(&self) -> Vec3rV {
        Vec3rV { x: self.x as int, y: self.y as int, z: self.z as int, den: self.den as int }
    }
}

/// Integer core of rotating `v` by `q`: with `u` the axis part and
/// `t = 2 (u × v)`, this is `den²·v + w·t + u × t`.  Dividing by `den²` gives
/// the standard quaternion sandwich rotation of `v` when `q` has unit norm.
pub open spec fn rot_num(q: QuatV, v: Vec3v) -> Vec3v {
    let u = q_axis(q);
    let t = v_scale(2, v_cross(u, v));
    v_add(v_add(v_scale(q.den * q.den, v), v_scale(q.w, t)), v_cross(u, t))
}

/// Numerators of a point after one rigid transform: rotate, then translate,
/// over the combined denominator `tx_den`.
pub open spec fn tx_num(q: QuatV, t: Vec3rV, fden: int, v: Vec3v) -> Vec3v {
    v_add(
        v_scale(t.den, rot_num(q, v)),
        v_scale(fden * (q.den * q.den), Vec3v { x: t.x, y: t.y, z: t.z }),
    )
}

/// Shared denominator of a frame after one rigid transform.
pub open spec fn tx_den(q: QuatV, t: Vec3rV, fden: int) -> int {
    fden * (q.den * q.den) * t.den
}

/// Magnitude cap on quaternion components so that the exact rotation
/// arithmetic stays inside `i128`.
pub open spec fn quat_small(q: QuatV) -> bool {
    &&& -0x100_0000 <= q.w <= 0x100_0000
    &&& -0x100_0000 <= q.x <= 0x100_0000
    &&& -0x100_0000 <= q.y <= 0x100_0000
    &&& -0x100_0000 <= q.z <= 0x100_0000
    &&& 0 < q.den <= 0x100_0000
}

/// Magnitude cap on point numerators for the same reason.
pub open spec fn coord_small(v: Vec3v) -> bool {
    &&& -0x4_0000_0000_0000 <= v.x <= 0x4_0000_0000_0000
    &&& -0x4_0000_0000_0000 <= v.y <= 0x4_0000_0000_0000
    &&& -0x4_0000_0000_0000 <= v.z <= 0x4_0000_0000_0000
}

/// Magnitude cap on a translation.
pub open spec fn trans_small(t: Vec3rV) -> bool {
    &&& -0x4_0000_0000_0000 <= t.x <= 0x4_0000_0000_0000
    &&& -0x4_0000_0000_0000 <= t.y <= 0x4_0000_0000_0000
    &&& -0x4_0000_0000_0000 <= t.z <= 0x4_0000_0000_0000
    &&& 0 < t.den <= 0x100_0000
}

/// A coordinate frame: origin and the endpoints of its three axes, all as
/// numerators over one shared positive denominator, plus a display name.
#[derive(Clone, Debug)]
pub struct Frame {
    pub origin: Vec3i,
    pub x: Vec3i,
    pub y: Vec3i,
    pub z: Vec3i,
    pub den: i64,
    pub name: String,
}

/// Axis-aligned bounding box in world units.
#[derive(Clone, Copy, Debug)]
pub struct Extents {
    pub x_min: Rat,
    pub y_min: Rat,
    pub z_min: Rat,
    pub x_max: Rat,
    pub y_max: Rat,
    pub z_max: Rat,
}

/// Spec-level extents.
pub struct ExtentsV {
    pub x_min: RatV,
    pub y_min: RatV,
    pub z_min: RatV,
    pub x_max: RatV,
    pub y_max: RatV,
    pub z_max: RatV,
}

impl View for Extents {
    type V = ExtentsV;

    open spec fn view(&self) -> ExtentsV {
        ExtentsV {
            x_min: self.x_min@,
            y_min: self.y_min@,
            z_min: self.z_min@,
            x_max: self.x_max@,
            y_max: self.y_max@,
            z_max: self.z_max@,
        }
    }
}

/// The small symmetric box that seeds every extents union: ±0.01 per axis.
/// It guards against a zero-size region when the frame set is empty.
pub open spec fn seed_extents() -> ExtentsV {
    ExtentsV {
        x_min: RatV { n: -1, d: 100 },
        y_min: RatV { n: -1, d: 100 },
        z_min: RatV { n: -1, d: 100 },
        x_max: RatV { n: 1, d: 100 },
        y_max: RatV { n: 1, d: 100 },
        z_max: RatV { n: 1, d: 100 },
    }
}

impl Extents {
    /// All six entries are well-formed rationals.
    pub open spec fn wf(self) -> bool {
        &&& self.x_min.wf()
        &&& self.y_min.wf()
        &&& self.z_min.wf()
        &&& self.x_max.wf()
        &&& self.y_max.wf()
        &&& self.z_max.wf()
    }

    /// The seed box.
    pub fn new() -> (e: Extents)
        ensures
            e.wf(),
            e@ == seed_extents(),
    {
        Extents {
            x_min: Rat { n: -1, d: 100 },
            y_min: Rat { n: -1, d: 100 },
            z_min: Rat { n: -1, d: 100 },
            x_max: Rat { n: 1, d: 100 },
            y_max: Rat { n: 1, d: 100 },
            z_max: Rat { n: 1, d: 100 },
        }
    }
}

/// Minimum of four integers.
pub open spec fn min4(a: int, b: int, c: int, d: int) -> int {
    let m1 = if b < a { b } else { a };
    let m2 = if c < m1 { c } else { m1 };
    if d < m2 { d } else { m2 }
}

/// Maximum of four integers.
pub open spec fn max4(a: int, b: int, c: int, d: int) -> int {
    let m1 = if b > a { b } else { a };
    let m2 = if c > m1 { c } else { m1 };
    if d > m2 { d } else { m2 }
}

impl Frame {
    /// Positive shared denominator, numerators safely negatable.
    pub open spec fn wf(self) -> bool {
        &&& 0 < self.den
        &&& fits_v(self.origin@)
        &&& fits_v(self.x@)
        &&& fits_v(self.y@)
        &&& fits_v(self.z@)
    }

    /// Every coordinate is below 10 000 in magnitude.  `get_min_max` inherits
    /// this documented limitation from the ±10 000 sentinel initialization of
    /// its scan; callers must not pass frames with coordinates at or beyond
    /// that magnitude.
    pub open spec fn in_sentinel_range(self) -> bool {
        &&& coord_in_range(self.origin@, self.den as int)
        &&& coord_in_range(self.x@, self.den as int)
        &&& coord_in_range(self.y@, self.den as int)
        &&& coord_in_range(self.z@, self.den as int)
    }

    /// Conditions under which one rigid transform is exactly representable:
    /// magnitude caps on the inputs and the requirement that the resulting
    /// numerators and denominator fit `i64` (a machine limit, not a modelling
    /// choice).
    pub open spec fn tx_fits(self, q: QuatV, t: Vec3rV) -> bool {
        &&& quat_small(q)
        &&& trans_small(t)
        &&& self.wf()
        &&& coord_small(self.origin@)
        &&& coord_small(self.x@)
        &&& coord_small(self.y@)
        &&& coord_small(self.z@)
        &&& fits_i64(tx_den(q, t, self.den as int))
        &&& fits_v(tx_num(q, t, self.den as int, self.origin@))
        &&& fits_v(tx_num(q, t, self.den as int, self.x@))
        &&& fits_v(tx_num(q, t, self.den as int, self.y@))
        &&& fits_v(tx_num(q, t, self.den as int, self.z@))
    }

    /// A fresh frame at the world origin: axes of the given rational length
    /// along world X, Y and Z (length 1 when none is given).
    pub fn new(name: String, length: Option<Rat>) -> (f: Frame)
        requires
            length is Some ==> length->0.wf() && length->0@.n > 0,
        ensures
            f.wf(),
            f.den as int == (if length is Some { length->0@.d } else { 1int }),
            f.origin@ == (Vec3v { x: 0, y: 0, z: 0 }),
            f.x@ == (Vec3v { x: axis_len(length), y: 0, z: 0 }),
            f.y@ == (Vec3v { x: 0, y: axis_len(length), z: 0 }),
            f.z@ == (Vec3v { x: 0, y: 0, z: axis_len(length) }),
            f.name@ == name@,
    {
        let (ln, ld): (i64, i64) = match length {
            Some(l) => (l.n, l.d),
            None => (1, 1),
        };
        Frame {
            origin: Vec3i { x: 0, y: 0, z: 0 },
            x: Vec3i { x: ln, y: 0, z: 0 },
            y: Vec3i { x: 0, y: ln, z: 0 },
            z: Vec3i { x: 0, y: 0, z: ln },
            den: ld,
            name,
        }
    }

    /// Rigid transformation: rotate every one of the four points by the
    /// quaternion (sandwich product), then add the translation.  All four
    /// points move by the same rotation and translation, so the frame's shape
    /// is preserved whenever the quaternion has unit norm.
    pub fn transform(&mut self, rotation: &Quat, translation: &Vec3r)
        requires
            old(self).tx_fits(rotation@, translation@),
        ensures
            final(self).origin@ == tx_num(
                rotation@,
                translation@,
                old(self).den as int,
                old(self).origin@,
            ),
            final(self).x@ == tx_num(rotation@, translation@, old(self).den as int, old(self).x@),
            final(self).y@ == tx_num(rotation@, translation@, old(self).den as int, old(self).y@),
            final(self).z@ == tx_num(rotation@, translation@, old(self).den as int, old(self).z@),
            final(self).den as int == tx_den(rotation@, translation@, old(self).den as int),
            final(self).name@ == old(self).name@,
            final(self).wf(),
    {
        let den = self.den;
        self.origin = tx_point(self.origin, den, rotation, translation);
        self.x = tx_point(self.x, den, rotation, translation);
        self.y = tx_point(self.y, den, rotation, translation);
        self.z = tx_point(self.z, den, rotation, translation);
        proof {
            crate::rat::lemma_mul_bound(rotation.den as int, rotation.den as int, 0x100_0000, 0x100_0000);
            assert(0 < (rotation.den as int) * (rotation.den as int)) by (nonlinear_arith)
                requires
                    0 < rotation.den,
            ;
        }
        let dd: i128 = rotation.den as i128 * rotation.den as i128;
        proof {
            crate::rat::lemma_mul_bound(den as int, dd as int, 0x7fff_ffff_ffff_ffff, 0x1_0000_0000_0000);
            assert(0 < (den as int) * dd) by (nonlinear_arith)
                requires
                    0 < den,
                    0 < dd,
            ;
            assert((den as int) * dd * (translation.den as int) == tx_den(
                rotation@,
                translation@,
                den as int,
            ));
            assert((den as int) * dd <= (den as int) * dd * (translation.den as int))
                by (nonlinear_arith)
                requires
                    0 < (den as int) * dd,
                    1 <= translation.den,
            ;
            assert(0 < (den as int) * dd * (translation.den as int)) by (nonlinear_arith)
                requires
                    0 < (den as int) * dd,
                    1 <= translation.den,
            ;
        }
        let nden: i128 = den as i128 * dd * translation.den as i128;
        self.den = nden as i64;
    }

    /// The exact bounding box of the frame's four points: per world axis, the
    /// least and greatest of the four coordinates, over the frame's shared
    /// denominator.  (The reference scan seeds min/max with a ±10 000
    /// sentinel; under `in_sentinel_range` the sentinel is always displaced,
    /// so the true minimum and maximum are returned.)
    pub fn get_min_max(&self) -> (e: Extents)
        requires
            self.wf(),
            self.in_sentinel_range(),
        ensures
            e.wf(),
            e@ == frame_extents(*self),
    {
        let d = self.den;
        let mut minx = self.origin.x;
        let mut maxx = self.origin.x;
        let mut miny = self.origin.y;
        let mut maxy = self.origin.y;
        let mut minz = self.origin.z;
        let mut maxz = self.origin.z;
        if self.x.x < minx {
            minx = self.x.x;
        }
        if self.x.x > maxx {
            maxx = self.x.x;
        }
        if self.y.x < minx {
            minx = self.y.x;
        }
        if self.y.x > maxx {
            maxx = self.y.x;
        }
        if self.z.x < minx {
            minx = self.z.x;
        }
        if self.z.x > maxx {
            maxx = self.z.x;
        }
        if self.x.y < miny {
            miny = self.x.y;
        }
        if self.x.y > maxy {
            maxy = self.x.y;
        }
        if self.y.y < miny {
            miny = self.y.y;
        }
        if self.y.y > maxy {
            maxy = self.y.y;
        }
        if self.z.y < miny {
            miny = self.z.y;
        }
        if self.z.y > maxy {
            maxy = self.z.y;
        }
        if self.x.z < minz {
            minz = self.x.z;
        }
        if self.x.z > maxz {
            maxz = self.x.z;
        }
        if self.y.z < minz {
            minz = self.y.z;
        }
        if self.y.z > maxz {
            maxz = self.y.z;
        }
        if self.z.z < minz {
            minz = self.z.z;
        }
        if self.z.z > maxz {
            maxz = self.z.z;
        }
        Extents {
            x_min: Rat { n: minx, d },
            y_min: Rat { n: miny, d },
            z_min: Rat { n: minz, d },
            x_max: Rat { n: maxx, d },
            y_max: Rat { n: maxy, d },
            z_max: Rat { n: maxz, d },
        }
    }
}

/// The axis length chosen by `Frame::new`: the given numerator, or 1.
pub open spec fn axis_len(length: Option<Rat>) -> int {
    match length {
        Some(l) => l@.n,
        None => 1,
    }
}

/// All coordinates strictly below the ±10 000 sentinel, and negatable.
pub open spec fn coord_in_range(v: Vec3v, den: int) -> bool {
    &&& -10000 * den < v.x < 10000 * den
    &&& -10000 * den < v.y < 10000 * den
    &&& -10000 * den < v.z < 10000 * den
}

/// The exact per-frame bounding box, as `get_min_max` returns it.
pub open spec fn frame_extents(f: Frame) -> ExtentsV {
    let d = f.den as int;
    ExtentsV {
        x_min: RatV { n: min4(f.origin@.x, f.x@.x, f.y@.x, f.z@.x), d },
        y_min: RatV { n: min4(f.origin@.y, f.x@.y, f.y@.y, f.z@.y), d },
        z_min: RatV { n: min4(f.origin@.z, f.x@.z, f.y@.z, f.z@.z), d },
        x_max: RatV { n: max4(f.origin@.x, f.x@.x, f.y@.x, f.z@.x), d },
        y_max: RatV { n: max4(f.origin@.y, f.x@.y, f.y@.y, f.z@.y), d },
        z_max: RatV { n: max4(f.origin@.z, f.x@.z, f.y@.z, f.z@.z), d },
    }
}

/// Rotate one point by the quaternion and add the translation, exactly, as
/// numerators over `tx_den(q, t, fden)`.
fn tx_point(p: Vec3i, fden: i64, q: &Quat, t: &Vec3r) -> (r: Vec3i)
    requires
        quat_small(q@),
        trans_small(t@),
        0 < fden,
        coord_small(p@),
        fits_i64(tx_den(q@, t@, fden as int)),
        fits_v(tx_num(q@, t@, fden as int, p@)),
    ensures
        r@ == tx_num(q@, t@, fden as int, p@),
{
    let qw = q.w as i128;
    let qx = q.x as i128;
    let qy = q.y as i128;
    let qz = q.z as i128;
    let px = p.x as i128;
    let py = p.y as i128;
    let pz = p.z as i128;
    proof {
        crate::rat::lemma_mul_bound(q.den as int, q.den as int, 0x100_0000, 0x100_0000);
        assert(0 < (q.den as int) * (q.den as int)) by (nonlinear_arith)
            requires
                0 < q.den,
        ;
        crate::rat::lemma_mul_bound(qy as int, pz as int, 0x100_0000, 0x4_0000_0000_0000);
        crate::rat::lemma_mul_bound(qz as int, py as int, 0x100_0000, 0x4_0000_0000_0000);
        crate::rat::lemma_mul_bound(qz as int, px as int, 0x100_0000, 0x4_0000_0000_0000);
        crate::rat::lemma_mul_bound(qx as int, pz as int, 0x100_0000, 0x4_0000_0000_0000);
        crate::rat::lemma_mul_bound(qx as int, py as int, 0x100_0000, 0x4_0000_0000_0000);
        crate::rat::lemma_mul_bound(qy as int, px as int, 0x100_0000, 0x4_0000_0000_0000);
    }
    let dd: i128 = q.den as i128 * q.den as i128;
    let cx: i128 = qy * pz - qz * py;
    let cy: i128 = qz * px - qx * pz;
    let cz: i128 = qx * py - qy * px;
    let tx: i128 = 2 * cx;
    let ty: i128 = 2 * cy;
    let tz: i128 = 2 * cz;
    proof {
        let b76 = 0x1000_0000_0000_0000_0000;  // 2^76
        crate::rat::lemma_mul_bound(dd as int, px as int, 0x1_0000_0000_0000, 0x4_0000_0000_0000);
        crate::rat::lemma_mul_bound(dd as int, py as int, 0x1_0000_0000_0000, 0x4_0000_0000_0000);
        crate::rat::lemma_mul_bound(dd as int, pz as int, 0x1_0000_0000_0000, 0x4_0000_0000_0000);
        crate::rat::lemma_mul_bound(qw as int, tx as int, 0x100_0000, b76);
        crate::rat::lemma_mul_bound(qw as int, ty as int, 0x100_0000, b76);
        crate::rat::lemma_mul_bound(qw as int, tz as int, 0x100_0000, b76);
        crate::rat::lemma_mul_bound(qy as int, tz as int, 0x100_0000, b76);
        crate::rat::lemma_mul_bound(qz as int, ty as int, 0x100_0000, b76);
        crate::rat::lemma_mul_bound(qz as int, tx as int, 0x100_0000, b76);
        crate::rat::lemma_mul_bound(qx as int, tz as int, 0x100_0000, b76);
        crate::rat::lemma_mul_bound(qx as int, ty as int, 0x100_0000, b76);
        crate::rat::lemma_mul_bound(qy as int, tx as int, 0x100_0000, b76);
    }
    let rx: i128 = dd * px + qw * tx + (qy * tz - qz * ty);
    let ry: i128 = dd * py + qw * ty + (qz * tx - qx * tz);
    let rz: i128 = dd * pz + qw * tz + (qx * ty - qy * tx);
    proof {
        crate::rat::lemma_mul_bound(fden as int, dd as int, 0x7fff_ffff_ffff_ffff, 0x1_0000_0000_0000);
        assert(0 < (fden as int) * dd) by (nonlinear_arith)
            requires
                0 < fden,
                0 < dd,
        ;
        assert((fden as int) * dd <= (fden as int) * dd * (t.den as int)) by (nonlinear_arith)
            requires
                0 < (fden as int) * dd,
                1 <= t.den,
        ;
    }
    let fdd: i128 = fden as i128 * dd;
    let td: i128 = t.den as i128;
    proof {
        let b102 = 0x40_0000_0000_0000_0000_0000_0000;  // 2^102
        crate::rat::lemma_mul_bound(td as int, rx as int, 0x100_0000, b102);
        crate::rat::lemma_mul_bound(td as int, ry as int, 0x100_0000, b102);
        crate::rat::lemma_mul_bound(td as int, rz as int, 0x100_0000, b102);
        crate::rat::lemma_mul_bound(fdd as int, t.x as int, 0x7fff_ffff_ffff_ffff, 0x4_0000_0000_0000);
        crate::rat::lemma_mul_bound(fdd as int, t.y as int, 0x7fff_ffff_ffff_ffff, 0x4_0000_0000_0000);
        crate::rat::lemma_mul_bound(fdd as int, t.z as int, 0x7fff_ffff_ffff_ffff, 0x4_0000_0000_0000);
    }
    let nx: i128 = td * rx + fdd * t.x as i128;
    let ny: i128 = td * ry + fdd * t.y as i128;
    let nz: i128 = td * rz + fdd * t.z as i128;
    Vec3i { x: nx as i64, y: ny as i64, z: nz as i64 }
}

} // verus!
