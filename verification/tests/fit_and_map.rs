use frameview::draw::{
    Color, DrawCmd, ProjectedFrameDraw, ProjectionNormalDirection, Rectangle, union_extents,
};
use frameview::frame::{Frame, Quat, Vec3r};
use frameview::rat::Rat;

fn frac_eq(an: i64, ad: i64, bn: i64, bd: i64) -> bool {
    an as i128 * bd as i128 == bn as i128 * ad as i128
}

#[test]
fn rectangle_new_normalizes() {
    let r = Rectangle::new(Rat::new(3, 1), Rat::new(-1, 2), Rat::new(-2, 1), Rat::new(5, 1));
    assert_eq!((r.x0.n, r.x0.d), (-2, 1));
    assert_eq!((r.x1.n, r.x1.d), (3, 1));
    assert_eq!((r.y0.n, r.y0.d), (-1, 2));
    assert_eq!((r.y1.n, r.y1.d), (5, 1));
}

#[test]
fn union_of_empty_frame_set_is_seed_box() {
    let frames: Vec<Frame> = Vec::new();
    let e = union_extents(&frames);
    assert_eq!((e.x_min.n, e.x_min.d), (-1, 100));
    assert_eq!((e.x_max.n, e.x_max.d), (1, 100));
    assert_eq!((e.y_min.n, e.y_min.d), (-1, 100));
    assert_eq!((e.y_max.n, e.y_max.d), (1, 100));
    assert_eq!((e.z_min.n, e.z_min.d), (-1, 100));
    assert_eq!((e.z_max.n, e.z_max.d), (1, 100));
}

#[test]
fn union_folds_frame_boxes() {
    let mut f = Frame::new(String::from("f"), None);
    let ident = Quat { w: 1, x: 0, y: 0, z: 0, den: 1 };
    f.transform(&ident, &Vec3r { x: -3, y: 0, z: 0, den: 1 });
    let frames = vec![Frame::new(String::from("g"), None), f];
    let e = union_extents(&frames);
    assert_eq!((e.x_min.n, e.x_min.d), (-3, 1));
    assert_eq!((e.x_max.n, e.x_max.d), (1, 1));
    assert_eq!((e.y_min.n, e.y_min.d), (-1, 100));
    assert_eq!((e.y_max.n, e.y_max.d), (1, 1));
}

#[test]
fn mapping_roi_corners_and_midline() {
    // scale maps roi.x0 to the left border pixel, roi.x1 to the right border
    // pixel, and the vertical midpoint to H minus the border midline.
    let pfd = ProjectedFrameDraw {
        width: 200,
        height: 100,
        plane_normal: ProjectionNormalDirection::Z,
        roi: Rectangle::new(Rat::new(-1, 1), Rat::new(-1, 1), Rat::new(3, 1), Rat::new(3, 1)),
    };
    let (px, _) = pfd.scale(Rat::new(-1, 1), Rat::new(0, 1));
    assert_eq!((px.n, px.d), (20, 1));  // 200 * 0.1
    let (px, _) = pfd.scale(Rat::new(3, 1), Rat::new(0, 1));
    assert_eq!((px.n, px.d), (180, 1));  // 200 * 0.9
    // vertical midpoint of the roi: (y0+y1)/2 = 1 maps to H - (c_y0+c_y1)/2 = 50
    let (_, py) = pfd.scale(Rat::new(0, 1), Rat::new(1, 1));
    assert_eq!((py.n, py.d), (50, 1));
}

#[test]
fn fit_equalizes_world_to_pixel_scale() {
    // After fitting, (x1-x0)/W == (y1-y0)/H exactly.
    let mut f = Frame::new(String::from("f"), None);
    let ident = Quat { w: 1, x: 0, y: 0, z: 0, den: 1 };
    f.transform(&ident, &Vec3r { x: 5, y: -1, z: 2, den: 3 });
    let frames = vec![f];
    let mut pfd = ProjectedFrameDraw::new(640, 480, ProjectionNormalDirection::Z);
    pfd.fit_scale(&frames);
    let r = pfd.roi;
    // (x1-x0)*H == (y1-y0)*W as rationals
    let xd_n = r.x1.n as i128 * r.x0.d as i128 - r.x0.n as i128 * r.x1.d as i128;
    let xd_d = r.x1.d as i128 * r.x0.d as i128;
    let yd_n = r.y1.n as i128 * r.y0.d as i128 - r.y0.n as i128 * r.y1.d as i128;
    let yd_d = r.y1.d as i128 * r.y0.d as i128;
    assert_eq!(xd_n * 480 * yd_d, yd_n * 640 * xd_d);
}

#[test]
fn centered_unit_frame_on_square_canvas() {
    // One frame at the origin with unit axes on a 200 x 200 canvas: the seed
    // box makes the world box [-0.01, 1]; after the proportional margin the
    // fitted box is [-0.009, 1.1] on both axes, the projected origin lands at
    // (23620/1109, 198180/1109) and the box center at exactly (100, 100).
    let frames = vec![Frame::new(String::from("origin"), None)];
    let mut pfd = ProjectedFrameDraw::new(200, 200, ProjectionNormalDirection::Z);
    pfd.fit_scale(&frames);
    assert_eq!((pfd.roi.x0.n, pfd.roi.x0.d), (-9, 1000));
    assert_eq!((pfd.roi.x1.n, pfd.roi.x1.d), (11, 10));
    assert_eq!((pfd.roi.y0.n, pfd.roi.y0.d), (-9, 1000));
    assert_eq!((pfd.roi.y1.n, pfd.roi.y1.d), (11, 10));
    let (px, py) = pfd.scale(Rat::new(0, 1), Rat::new(0, 1));
    assert_eq!((px.n, px.d), (23620, 1109));
    assert_eq!((py.n, py.d), (198180, 1109));
    // center of the fitted box: (x0+x1)/2 = 1091/2000
    let c = Rat::new(1091, 2000);
    let (cx, cy) = pfd.scale(c, c);
    assert_eq!((cx.n, cx.d), (100, 1));
    assert_eq!((cy.n, cy.d), (100, 1));
}

#[test]
fn plane_selects_its_two_world_axes() {
    // A frame translated to (1,2,3): the label anchor of the draw pass equals
    // the mapped pair of the two world coordinates the plane selects.
    let mut f = Frame::new(String::from("f"), None);
    let ident = Quat { w: 1, x: 0, y: 0, z: 0, den: 1 };
    f.transform(&ident, &Vec3r { x: 1, y: 2, z: 3, den: 1 });
    let frames = vec![f];
    let cases = [
        (ProjectionNormalDirection::X, (2i64, 3i64)),
        (ProjectionNormalDirection::Y, (3, 1)),
        (ProjectionNormalDirection::Z, (1, 2)),
    ];
    for (plane, (wx, wy)) in cases {
        let mut pfd = ProjectedFrameDraw::new(300, 300, plane);
        let cmds = pfd.draw(&frames, false);
        let (ex, ey) = pfd.scale(Rat::from_int(wx), Rat::from_int(wy));
        match &cmds[4] {
            DrawCmd::Label { text, x, y } => {
                assert_eq!(text, "f");
                assert!(frac_eq(x.n, x.d, ex.n, ex.d));
                assert!(frac_eq(y.n, y.d, ey.n, ey.d));
            },
            other => panic!("expected a label command, got {:?}", other),
        }
    }
}

#[test]
fn draw_emits_clear_border_and_frame_commands() {
    let frames = vec![
        Frame::new(String::from("a"), None),
        Frame::new(String::from("b"), Some(Rat::new(1, 2))),
    ];
    let mut pfd = ProjectedFrameDraw::new(200, 200, ProjectionNormalDirection::Z);
    let cmds = pfd.draw(&frames, true);
    assert_eq!(cmds.len(), 1 + 1 + 4 * 2);
    assert!(matches!(cmds[0], DrawCmd::Clear { w: 200, h: 200 }));
    assert!(matches!(cmds[1], DrawCmd::Border { w: 200, h: 200 }));
    assert!(matches!(cmds[2], DrawCmd::Segment { color: Color::Red, .. }));
    assert!(matches!(cmds[3], DrawCmd::Segment { color: Color::Green, .. }));
    assert!(matches!(cmds[4], DrawCmd::Segment { color: Color::Blue, .. }));
    assert!(matches!(&cmds[5], DrawCmd::Label { text, .. } if text == "a"));
    assert!(matches!(cmds[6], DrawCmd::Segment { color: Color::Red, .. }));
    assert!(matches!(&cmds[9], DrawCmd::Label { text, .. } if text == "b"));
    // all segments of one frame start at the projected origin
    if let (DrawCmd::Segment { x0: a, y0: b, .. }, DrawCmd::Segment { x0: c, y0: d, .. }) =
        (&cmds[2], &cmds[3])
    {
        assert_eq!((a.n, a.d, b.n, b.d), (c.n, c.d, d.n, d.d));
    } else {
        panic!("expected segments");
    }
    // without clear, the border comes first
    let cmds = pfd.draw(&frames, false);
    assert_eq!(cmds.len(), 1 + 4 * 2);
    assert!(matches!(cmds[0], DrawCmd::Border { w: 200, h: 200 }));
}
