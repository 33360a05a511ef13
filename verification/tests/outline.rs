use eye_core::outline::{
    BezierAnchor, BezierOutline, EyeShape, EyebrowGuide, EyebrowOutline, Span,
};

const KAPPA: f32 = 0.552_284_749_8;

fn span(x: f32) -> Span<f32> {
    Span { pos: x, neg: -x }
}

fn length(v: [f32; 2]) -> f32 {
    (v[0] * v[0] + v[1] * v[1]).sqrt()
}

fn mirrored(lead: [f32; 2], follow: [f32; 2]) -> Option<[f32; 2]> {
    let lead_len = length(lead);
    if lead_len < 1e-8 {
        None
    } else {
        let follow_len = length(follow);
        Some([-lead[0] / lead_len * follow_len, -lead[1] / lead_len * follow_len])
    }
}

fn repair_from_out(a: &mut BezierAnchor<f32>) {
    a.enforce_collinear_from_out(mirrored(a.handle_out, a.handle_in));
}

fn repair_from_in(a: &mut BezierAnchor<f32>) {
    a.enforce_collinear_from_in(mirrored(a.handle_in, a.handle_out));
}

fn antiparallel_or_zero(a: &BezierAnchor<f32>) -> bool {
    let (p, q) = (a.handle_in, a.handle_out);
    if length(p) < 1e-8 || length(q) < 1e-8 {
        return true;
    }
    let cross = p[0] * q[1] - p[1] * q[0];
    let dot = p[0] * q[0] + p[1] * q[1];
    cross.abs() <= 1e-5 * length(p) * length(q) && dot < 0.0
}

fn anchor(x: f32, y: f32) -> BezierAnchor<f32> {
    BezierAnchor { position: [x, y], handle_in: [x + 0.25, y + 0.5], handle_out: [x - 0.25, y - 0.5] }
}

fn numbered_outline() -> BezierOutline<f32> {
    BezierOutline {
        anchors: [
            BezierAnchor { position: [1.0, 2.0], handle_in: [3.0, 4.0], handle_out: [5.0, 6.0] },
            BezierAnchor { position: [11.0, 12.0], handle_in: [13.0, 14.0], handle_out: [15.0, 16.0] },
            BezierAnchor { position: [21.0, 22.0], handle_in: [23.0, 24.0], handle_out: [25.0, 26.0] },
            BezierAnchor { position: [31.0, 32.0], handle_in: [33.0, 34.0], handle_out: [35.0, 36.0] },
        ],
    }
}

fn numbered_eyebrow() -> EyebrowOutline<f32> {
    EyebrowOutline {
        anchors: [
            anchor(0.0, 100.0),
            anchor(1.0, 101.0),
            anchor(2.0, 102.0),
            anchor(3.0, 103.0),
            anchor(4.0, 104.0),
            anchor(5.0, 105.0),
        ],
    }
}

#[test]
fn circle_anchors_lie_on_the_radius() {
    let r = 0.3_f32;
    let circle = BezierOutline::circle(span(r), span(r * KAPPA), 0.0);
    for a in circle.anchors.iter() {
        assert_eq!(length(a.position), 0.3);
        assert_eq!(length(a.handle_in), 0.3 * 0.552_284_749_8);
        assert_eq!(length(a.handle_out), 0.3 * 0.552_284_749_8);
    }
}

#[test]
fn circle_is_the_ellipse_of_equal_radii() {
    let r = span(0.15);
    let h = span(0.15 * KAPPA);
    assert_eq!(BezierOutline::circle(r, h, 0.0), BezierOutline::ellipse(r, r, h, h, 0.0));
}

#[test]
fn ellipse_places_left_top_right_bottom() {
    let e = BezierOutline::ellipse(span(2.0), span(3.0), span(0.5), span(0.75), 0.0);
    assert_eq!(
        e.anchors[0],
        BezierAnchor { position: [-2.0, 0.0], handle_in: [0.0, -0.75], handle_out: [0.0, 0.75] }
    );
    assert_eq!(
        e.anchors[1],
        BezierAnchor { position: [0.0, 3.0], handle_in: [-0.5, 0.0], handle_out: [0.5, 0.0] }
    );
    assert_eq!(
        e.anchors[2],
        BezierAnchor { position: [2.0, 0.0], handle_in: [0.0, 0.75], handle_out: [0.0, -0.75] }
    );
    assert_eq!(
        e.anchors[3],
        BezierAnchor { position: [0.0, -3.0], handle_in: [0.5, 0.0], handle_out: [-0.5, 0.0] }
    );
}

#[test]
fn ellipse_handles_are_opposite_at_every_anchor() {
    let e = BezierOutline::ellipse(span(0.28), span(0.35), span(0.28 * KAPPA), span(0.35 * KAPPA), 0.0);
    for a in e.anchors.iter() {
        assert_eq!(a.handle_in[0], -a.handle_out[0]);
        assert_eq!(a.handle_in[1], -a.handle_out[1]);
    }
}

#[test]
fn eyebrow_arc_has_short_tip_handles() {
    let arc = BezierOutline::eyebrow_arc(span(0.3), span(0.04), span(0.12), span(0.006), 0.0);
    assert_eq!(arc.anchors[0].position, [-0.3, 0.0]);
    assert_eq!(arc.anchors[0].handle_in, [0.0, -0.006]);
    assert_eq!(arc.anchors[0].handle_out, [0.0, 0.006]);
    assert_eq!(arc.anchors[1].position, [0.0, 0.04]);
    assert_eq!(arc.anchors[1].handle_out, [0.12, 0.0]);
    assert_eq!(arc.anchors[2].handle_out, [0.0, -0.006]);
    assert_eq!(arc.anchors[3].position, [0.0, -0.04]);
}

#[test]
fn closed_slit_keeps_corners_at_slit_height() {
    let tiny = 0.005_f32;
    let y = -0.2_f32;
    let slit = BezierOutline::closed_slit(span(0.2), y, y + tiny, y - tiny, span(0.2 * KAPPA), span(tiny), 0.0);
    assert_eq!(slit.anchors[0].position, [-0.2, -0.2]);
    assert_eq!(slit.anchors[2].position, [0.2, -0.2]);
    assert_eq!(slit.anchors[1].position, [0.0, y + tiny]);
    assert_eq!(slit.anchors[3].position, [0.0, y - tiny]);
    assert_eq!(slit.anchors[0].handle_out, [0.0, 0.005]);
    assert_eq!(slit.anchors[2].handle_out, [0.0, -0.005]);
}

#[test]
fn asymmetric_slit_keeps_bottom_below_top_for_either_arch() {
    let tiny = 0.005_f32;
    let y = -0.2_f32;
    for arch in [-0.06_f32, -0.015, 0.0, 0.06] {
        let top = y + arch;
        let bottom = y + arch - tiny;
        let slit = BezierOutline::closed_slit_asymmetric(
            span(0.2),
            y,
            top,
            bottom,
            span(0.2 * KAPPA),
            span(tiny),
            0.0,
        );
        assert_eq!(slit.anchors[1].position, [0.0, top]);
        assert_eq!(slit.anchors[3].position, [0.0, bottom]);
        assert!(slit.anchors[3].position[1] < slit.anchors[1].position[1]);
        assert_eq!(slit.anchors[0].position[1], y);
        assert_eq!(slit.anchors[2].position[1], y);
    }
}

#[test]
fn six_point_arc_doubles_the_tips() {
    let arc = EyebrowOutline::eyebrow_arc(
        span(0.3),
        span(0.02),
        span(0.16),
        span(0.08),
        span(0.005),
        span(0.003),
        0.0,
    );
    assert_eq!(arc.anchors[0].position, arc.anchors[5].position);
    assert_eq!(arc.anchors[2].position, arc.anchors[3].position);
    assert_eq!(arc.anchors[0].position, [-0.3, 0.0]);
    assert_eq!(arc.anchors[2].position, [0.3, 0.0]);
    assert_eq!(arc.anchors[1].position, [0.0, 0.02]);
    assert_eq!(arc.anchors[4].position, [0.0, -0.02]);
    assert_eq!(arc.anchors[0].handle_in, [0.0, -0.003]);
    assert_eq!(arc.anchors[0].handle_out, [0.08, 0.005]);
    assert_eq!(arc.anchors[2].handle_in, [-0.08, 0.005]);
    assert_eq!(arc.anchors[2].handle_out, [0.0, -0.003]);
    assert_eq!(arc.anchors[3].handle_in, [0.0, 0.003]);
    assert_eq!(arc.anchors[3].handle_out, [-0.08, -0.005]);
    assert_eq!(arc.anchors[5].handle_in, [-0.08, -0.005]);
    assert_eq!(arc.anchors[5].handle_out, [0.0, 0.003]);
}

#[test]
fn uniform_array_packs_segments_in_path_order() {
    let o = numbered_outline();
    let out_tips = [[101.0, 102.0], [111.0, 112.0], [121.0, 122.0], [131.0, 132.0]];
    let in_tips = [[201.0, 202.0], [211.0, 212.0], [221.0, 222.0], [231.0, 232.0]];
    let rows = o.to_uniform_array(&out_tips, &in_tips);
    assert_eq!(rows[0], [1.0, 2.0, 101.0, 102.0]);
    assert_eq!(rows[1], [211.0, 212.0, 11.0, 12.0]);
    assert_eq!(rows[2], [11.0, 12.0, 111.0, 112.0]);
    assert_eq!(rows[3], [221.0, 222.0, 21.0, 22.0]);
    assert_eq!(rows[4], [21.0, 22.0, 121.0, 122.0]);
    assert_eq!(rows[5], [231.0, 232.0, 31.0, 32.0]);
    assert_eq!(rows[6], [31.0, 32.0, 131.0, 132.0]);
    assert_eq!(rows[7], [201.0, 202.0, 1.0, 2.0]);
}

#[test]
fn eyebrow_uniform_array_closes_the_path() {
    let o = numbered_eyebrow();
    let mut out_tips = [[0.0_f32; 2]; 6];
    let mut in_tips = [[0.0_f32; 2]; 6];
    for i in 0..6 {
        out_tips[i] = [1000.0 + i as f32, 2000.0 + i as f32];
        in_tips[i] = [3000.0 + i as f32, 4000.0 + i as f32];
    }
    let rows = o.to_uniform_array(&out_tips, &in_tips);
    assert_eq!(rows.len(), 12);
    for seg in 0..6 {
        let next = (seg + 1) % 6;
        assert_eq!(
            rows[2 * seg],
            [seg as f32, 100.0 + seg as f32, 1000.0 + seg as f32, 2000.0 + seg as f32]
        );
        assert_eq!(
            rows[2 * seg + 1],
            [3000.0 + next as f32, 4000.0 + next as f32, next as f32, 100.0 + next as f32]
        );
    }
}

#[test]
fn neighbours_wrap_around_the_ring() {
    assert_eq!(BezierOutline::<f32>::neighbors(0), (3, 1));
    assert_eq!(BezierOutline::<f32>::neighbors(1), (0, 2));
    assert_eq!(BezierOutline::<f32>::neighbors(3), (2, 0));
    assert_eq!(EyebrowOutline::<f32>::neighbors(0), (5, 1));
    assert_eq!(EyebrowOutline::<f32>::neighbors(5), (4, 0));
}

#[test]
fn guide_points_pair_top_with_bottom() {
    assert_eq!(EyebrowGuide::<f32>::paired_indices(0), (0, 5));
    assert_eq!(EyebrowGuide::<f32>::paired_indices(1), (1, 4));
    assert_eq!(EyebrowGuide::<f32>::paired_indices(2), (2, 3));
}

#[test]
fn every_outline_anchor_has_one_guide_point() {
    let mut owners = [0usize; 6];
    for gi in 0..3 {
        let (top, bottom) = EyebrowGuide::<f32>::paired_indices(gi);
        owners[top] += 1;
        owners[bottom] += 1;
    }
    assert_eq!(owners, [1, 1, 1, 1, 1, 1]);
}

#[test]
fn propagate_moves_the_pair_and_nothing_else() {
    let before = numbered_eyebrow();
    let mut outline = before;
    EyebrowGuide::propagate_delta(1, [7.0, 8.0], [9.0, 10.0], &mut outline);
    for i in 0..6 {
        assert_eq!(outline.anchors[i].handle_in, before.anchors[i].handle_in);
        assert_eq!(outline.anchors[i].handle_out, before.anchors[i].handle_out);
    }
    assert_eq!(outline.anchors[1].position, [7.0, 8.0]);
    assert_eq!(outline.anchors[4].position, [9.0, 10.0]);
    for i in [0, 2, 3, 5] {
        assert_eq!(outline.anchors[i], before.anchors[i]);
    }
}

#[test]
fn collinear_repair_from_out_rewrites_only_the_incoming_handle() {
    let mut a = BezierAnchor { position: [1.0_f32, 2.0], handle_in: [0.0, 2.0], handle_out: [3.0, 0.0] };
    a.enforce_collinear_from_out(Some([-2.0, 0.0]));
    assert_eq!(a, BezierAnchor { position: [1.0, 2.0], handle_in: [-2.0, 0.0], handle_out: [3.0, 0.0] });
    let cross = a.handle_in[0] * a.handle_out[1] - a.handle_in[1] * a.handle_out[0];
    let dot = a.handle_in[0] * a.handle_out[0] + a.handle_in[1] * a.handle_out[1];
    assert_eq!(cross, 0.0);
    assert!(dot < 0.0);
}

#[test]
fn collinear_repair_from_in_rewrites_only_the_outgoing_handle() {
    let mut a = BezierAnchor { position: [1.0_f32, 2.0], handle_in: [0.0, 2.0], handle_out: [3.0, 0.0] };
    a.enforce_collinear_from_in(Some([0.0, -3.0]));
    assert_eq!(a, BezierAnchor { position: [1.0, 2.0], handle_in: [0.0, 2.0], handle_out: [0.0, -3.0] });
}

#[test]
fn collinear_repair_skips_a_degenerate_handle() {
    let before = BezierAnchor { position: [1.0_f32, 2.0], handle_in: [0.0, 2.0], handle_out: [0.0, 0.0] };
    let mut a = before;
    a.enforce_collinear_from_out(None);
    assert_eq!(a, before);
    a.enforce_collinear_from_in(None);
    assert_eq!(a, before);
}

#[test]
fn refitting_one_anchor_leaves_the_others() {
    let before = numbered_outline();
    let mut o = before;
    o.auto_adjust_handle_at(2, Some(([0.5, 0.25], [-0.5, -0.25])));
    assert_eq!(o.anchors[2].position, before.anchors[2].position);
    assert_eq!(o.anchors[2].handle_in, [0.5, 0.25]);
    assert_eq!(o.anchors[2].handle_out, [-0.5, -0.25]);
    for i in [0, 1, 3] {
        assert_eq!(o.anchors[i], before.anchors[i]);
    }
    o.auto_adjust_handle_at(1, None);
    assert_eq!(o.anchors[1], before.anchors[1]);
}

#[test]
fn refitting_all_anchors_skips_the_degenerate_ones() {
    let before = numbered_eyebrow();
    let mut o = before;
    let fitted = [
        Some(([1.0_f32, 0.0], [-1.0_f32, 0.0])),
        None,
        Some(([2.0, 0.0], [-2.0, 0.0])),
        None,
        None,
        Some(([3.0, 0.0], [-3.0, 0.0])),
    ];
    o.auto_adjust_handles(&fitted);
    for i in 0..6 {
        assert_eq!(o.anchors[i].position, before.anchors[i].position);
        match fitted[i] {
            Some((handle_in, handle_out)) => {
                assert_eq!(o.anchors[i].handle_in, handle_in);
                assert_eq!(o.anchors[i].handle_out, handle_out);
            }
            None => assert_eq!(o.anchors[i], before.anchors[i]),
        }
    }
    let mut four = numbered_outline();
    four.auto_adjust_handles(&[None, Some(([9.0, 9.0], [8.0, 8.0])), None, None]);
    assert_eq!(four.anchors[0], numbered_outline().anchors[0]);
    assert_eq!(four.anchors[1].handle_in, [9.0, 9.0]);
    assert_eq!(four.anchors[1].handle_out, [8.0, 8.0]);
}

#[test]
fn moving_an_anchor_keeps_its_handles() {
    let a = anchor(1.0, 2.0);
    let moved = a.with_position([5.0, 6.0]);
    assert_eq!(moved.position, [5.0, 6.0]);
    assert_eq!(moved.handle_in, a.handle_in);
    assert_eq!(moved.handle_out, a.handle_out);
}

#[test]
fn update_closed_replaces_only_the_closed_outline() {
    let open = numbered_outline();
    let mut shape = EyeShape { open, closed: open, close_arch: -0.015_f32 };
    let closed = BezierOutline::ellipse(span(1.0), span(2.0), span(0.5), span(1.0), 0.0);
    shape.update_closed(closed);
    assert_eq!(shape.open, open);
    assert_eq!(shape.closed, closed);
    assert_eq!(shape.close_arch, -0.015);
}

#[test]
fn handles_stay_antiparallel_through_any_run_of_repairs() {
    let starts = [
        BezierAnchor { position: [0.5_f32, -0.25], handle_in: [0.3, 0.1], handle_out: [0.2, 0.4] },
        BezierAnchor { position: [0.0, 0.0], handle_in: [-1.0, 0.0], handle_out: [0.0, 2.5] },
        BezierAnchor { position: [1.0, 1.0], handle_in: [0.001, -0.002], handle_out: [-30.0, 7.0] },
        BezierAnchor { position: [1.0, 1.0], handle_in: [0.0, 0.0], handle_out: [0.25, 0.5] },
    ];
    for start in starts {
        for pattern in 0u32..16 {
            let mut a = start;
            for step in 0..4 {
                let before = a;
                let lengths = (length(a.handle_in), length(a.handle_out));
                if pattern >> step & 1 == 0 {
                    repair_from_out(&mut a);
                    assert_eq!(a.handle_out, before.handle_out);
                } else {
                    repair_from_in(&mut a);
                    assert_eq!(a.handle_in, before.handle_in);
                }
                assert_eq!(a.position, start.position);
                assert!(antiparallel_or_zero(&a));
                assert!((length(a.handle_in) - lengths.0).abs() <= 1e-5 * (1.0 + lengths.0));
                assert!((length(a.handle_out) - lengths.1).abs() <= 1e-5 * (1.0 + lengths.1));
            }
        }
    }
}

#[test]
fn packed_segments_join_end_to_start() {
    let o = numbered_outline();
    let out_tips = [[101.0, 102.0], [111.0, 112.0], [121.0, 122.0], [131.0, 132.0]];
    let in_tips = [[201.0, 202.0], [211.0, 212.0], [221.0, 222.0], [231.0, 232.0]];
    let rows = o.to_uniform_array(&out_tips, &in_tips);
    for seg in 0..4 {
        let next = (seg + 1) % 4;
        assert_eq!(rows[2 * seg + 1][2..4], rows[2 * next][0..2]);
    }
}
