use frameview::frame::{Extents, Frame, Quat, Vec3i, Vec3r};
use frameview::rat::Rat;

fn dist_sq(a: Vec3i, b: Vec3i, den: i64) -> (i128, i128) {
    // squared distance as an exact fraction (numerator, denominator)
    let dx = a.x as i128 - b.x as i128;
    let dy = a.y as i128 - b.y as i128;
    let dz = a.z as i128 - b.z as i128;
    (dx * dx + dy * dy + dz * dz, den as i128 * den as i128)
}

fn frac_eq(a: (i128, i128), b: (i128, i128)) -> bool {
    a.0 * b.1 == b.0 * a.1
}

#[test]
fn new_frame_axes_and_box() {
    let f = Frame::new(String::from("origin"), None);
    assert_eq!(f.den, 1);
    assert_eq!((f.origin.x, f.origin.y, f.origin.z), (0, 0, 0));
    assert_eq!((f.x.x, f.x.y, f.x.z), (1, 0, 0));
    assert_eq!((f.y.x, f.y.y, f.y.z), (0, 1, 0));
    assert_eq!((f.z.x, f.z.y, f.z.z), (0, 0, 1));
    // The bounding box of the identity frame is exactly [0,1] per axis.
    let e = f.get_min_max();
    assert_eq!((e.x_min.n, e.x_min.d), (0, 1));
    assert_eq!((e.y_min.n, e.y_min.d), (0, 1));
    assert_eq!((e.z_min.n, e.z_min.d), (0, 1));
    assert_eq!((e.x_max.n, e.x_max.d), (1, 1));
    assert_eq!((e.y_max.n, e.y_max.d), (1, 1));
    assert_eq!((e.z_max.n, e.z_max.d), (1, 1));
}

#[test]
fn new_frame_with_length() {
    let f = Frame::new(String::from("f"), Some(Rat::new(1, 4)));
    assert_eq!(f.den, 4);
    assert_eq!((f.x.x, f.x.y, f.x.z), (1, 0, 0));
    let e = f.get_min_max();
    assert_eq!((e.x_max.n, e.x_max.d), (1, 4));
}

#[test]
fn min_max_after_translation() {
    let mut f = Frame::new(String::from("f"), None);
    let ident = Quat { w: 1, x: 0, y: 0, z: 0, den: 1 };
    f.transform(&ident, &Vec3r { x: -3, y: 2, z: 5, den: 1 });
    let e = f.get_min_max();
    assert_eq!((e.x_min.n, e.x_min.d), (-3, 1));
    assert_eq!((e.x_max.n, e.x_max.d), (-2, 1));
    assert_eq!((e.y_min.n, e.y_min.d), (2, 1));
    assert_eq!((e.y_max.n, e.y_max.d), (3, 1));
    assert_eq!((e.z_min.n, e.z_min.d), (5, 1));
    assert_eq!((e.z_max.n, e.z_max.d), (6, 1));
}

#[test]
fn half_turn_about_z_is_exact() {
    // The quaternion k (half turn about the z axis) sends (1,0,0) to (-1,0,0)
    // and (0,1,0) to (0,-1,0).
    let mut f = Frame::new(String::from("f"), None);
    let q = Quat { w: 0, x: 0, y: 0, z: 1, den: 1 };
    let t = Vec3r { x: 0, y: 0, z: 0, den: 1 };
    f.transform(&q, &t);
    assert_eq!(f.den, 1);
    assert_eq!((f.origin.x, f.origin.y, f.origin.z), (0, 0, 0));
    assert_eq!((f.x.x, f.x.y, f.x.z), (-1, 0, 0));
    assert_eq!((f.y.x, f.y.y, f.y.z), (0, -1, 0));
    assert_eq!((f.z.x, f.z.y, f.z.z), (0, 0, 1));
}

#[test]
fn transform_is_isometry_on_fixture() {
    // (3 + 4i)/5 is a unit quaternion; pairwise distances among the four
    // frame points are preserved exactly (as rationals).
    let mut f = Frame::new(String::from("f"), None);
    let before = [
        dist_sq(f.origin, f.x, f.den),
        dist_sq(f.origin, f.y, f.den),
        dist_sq(f.origin, f.z, f.den),
        dist_sq(f.x, f.y, f.den),
        dist_sq(f.x, f.z, f.den),
        dist_sq(f.y, f.z, f.den),
    ];
    let q = Quat { w: 3, x: 4, y: 0, z: 0, den: 5 };
    let t = Vec3r { x: 7, y: -2, z: 9, den: 4 };
    f.transform(&q, &t);
    let after = [
        dist_sq(f.origin, f.x, f.den),
        dist_sq(f.origin, f.y, f.den),
        dist_sq(f.origin, f.z, f.den),
        dist_sq(f.x, f.y, f.den),
        dist_sq(f.x, f.z, f.den),
        dist_sq(f.y, f.z, f.den),
    ];
    for i in 0..6 {
        assert!(frac_eq(before[i], after[i]));
    }
}

#[test]
fn two_transforms_compose_sequentially() {
    // Applying (q1,t1) then (q2,t2) equals rotating-then-translating twice in
    // sequence, computed here independently with exact fractions.
    let q1 = Quat { w: 3, x: 4, y: 0, z: 0, den: 5 };
    let t1 = Vec3r { x: 1, y: 2, z: 3, den: 2 };
    let q2 = Quat { w: 0, x: 0, y: 0, z: 1, den: 1 };
    let t2 = Vec3r { x: -1, y: 0, z: 1, den: 3 };

    let mut f = Frame::new(String::from("f"), None);
    f.transform(&q1, &t1);
    f.transform(&q2, &t2);

    // independent sequential computation for the x-axis tip (1,0,0)
    fn rot(q: &Quat, v: (i128, i128, i128)) -> (i128, i128, i128) {
        let (w, x, y, z) = (q.w as i128, q.x as i128, q.y as i128, q.z as i128);
        let dd = (q.den as i128) * (q.den as i128);
        let (cx, cy, cz) = (y * v.2 - z * v.1, z * v.0 - x * v.2, x * v.1 - y * v.0);
        let (tx, ty, tz) = (2 * cx, 2 * cy, 2 * cz);
        (
            dd * v.0 + w * tx + (y * tz - z * ty),
            dd * v.1 + w * ty + (z * tx - x * tz),
            dd * v.2 + w * tz + (x * ty - y * tx),
        )
    }
    // step 1: numerators over den1
    let p = (1i128, 0i128, 0i128);
    let r1 = rot(&q1, p);
    let dd1 = (q1.den as i128) * (q1.den as i128);
    let den1 = dd1 * t1.den as i128;
    let n1 = (
        r1.0 * t1.den as i128 + t1.x as i128 * dd1,
        r1.1 * t1.den as i128 + t1.y as i128 * dd1,
        r1.2 * t1.den as i128 + t1.z as i128 * dd1,
    );
    // step 2
    let r2 = rot(&q2, n1);
    let dd2 = (q2.den as i128) * (q2.den as i128);
    let den2 = den1 * dd2 * t2.den as i128;
    let n2 = (
        r2.0 * t2.den as i128 + t2.x as i128 * den1 * dd2,
        r2.1 * t2.den as i128 + t2.y as i128 * den1 * dd2,
        r2.2 * t2.den as i128 + t2.z as i128 * den1 * dd2,
    );
    // compare as rationals with the frame's x point
    assert!(f.x.x as i128 * den2 == n2.0 * f.den as i128);
    assert!(f.x.y as i128 * den2 == n2.1 * f.den as i128);
    assert!(f.x.z as i128 * den2 == n2.2 * f.den as i128);
}

#[test]
fn seed_box_is_a_centisquare() {
    let e = Extents::new();
    assert_eq!((e.x_min.n, e.x_min.d), (-1, 100));
    assert_eq!((e.y_min.n, e.y_min.d), (-1, 100));
    assert_eq!((e.z_min.n, e.z_min.d), (-1, 100));
    assert_eq!((e.x_max.n, e.x_max.d), (1, 100));
    assert_eq!((e.y_max.n, e.y_max.d), (1, 100));
    assert_eq!((e.z_max.n, e.z_max.d), (1, 100));
}
