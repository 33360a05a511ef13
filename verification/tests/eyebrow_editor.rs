use eye_core::editor::DragTarget;
use eye_core::eyebrow_editor::{
    restore_guide3, restore_outline6, snapshot_guide3, snapshot_outline6, EyebrowClickTarget,
    EyebrowDragStart, EyebrowDragTarget, EyebrowEditLayer, EyebrowEditMode, EyebrowEditorState,
    EyebrowKeys, EyebrowOutcome, LayerSelection, MovedPositions,
};
use eye_core::outline::{BezierAnchor, EyebrowGuide, EyebrowOutline};

fn brow() -> EyebrowOutline<f32> {
    let a = |x: f32, y: f32| BezierAnchor {
        position: [x, y],
        handle_in: [x * 0.5 - 0.25, 0.125],
        handle_out: [0.25 - x * 0.5, -0.125],
    };
    EyebrowOutline {
        anchors: [a(-0.5, 0.0), a(0.0, 0.25), a(0.5, 0.0), a(0.5, -0.125), a(0.0, 0.125), a(-0.5, -0.125)],
    }
}

fn spine(outline: &EyebrowOutline<f32>) -> EyebrowGuide<f32> {
    let mid = |gi: usize| {
        let (top, bottom) = EyebrowGuide::<f32>::paired_indices(gi);
        let t = outline.anchors[top];
        let b = outline.anchors[bottom];
        let half = |p: [f32; 2], q: [f32; 2]| [(p[0] + q[0]) * 0.5, (p[1] + q[1]) * 0.5];
        BezierAnchor {
            position: half(t.position, b.position),
            handle_in: half(t.handle_in, b.handle_in),
            handle_out: half(t.handle_out, b.handle_out),
        }
    };
    EyebrowGuide { anchors: [mid(0), mid(1), mid(2)] }
}

fn no_keys() -> EyebrowKeys {
    EyebrowKeys { tab: false, grab: false, select_all: false, escape: false }
}

fn moved_by(outline: &EyebrowOutline<f32>, guide: &EyebrowGuide<f32>, d: [f32; 2]) -> MovedPositions<f32> {
    let mut moved = MovedPositions { outline: [[0.0; 2]; 6], guide: [[0.0; 2]; 3] };
    for i in 0..6 {
        moved.outline[i] = [outline.anchors[i].position[0] + d[0], outline.anchors[i].position[1] + d[1]];
    }
    for g in 0..3 {
        moved.guide[g] = [guide.anchors[g].position[0] + d[0], guide.anchors[g].position[1] + d[1]];
    }
    moved
}

fn grabbing_outline(indices: &[usize]) -> EyebrowEditorState<f32> {
    let mut es = EyebrowEditorState::default();
    for &i in indices {
        es.click(EyebrowClickTarget::Outline(i), true);
    }
    let o = brow();
    es.idle_keys(&o, &spine(&o), true, EyebrowKeys { grab: true, ..no_keys() }, [5.0, 6.0]);
    es
}

fn grabbing_guide(indices: &[usize]) -> EyebrowEditorState<f32> {
    let mut es = EyebrowEditorState::default();
    for &i in indices {
        es.click(EyebrowClickTarget::Guide(i), true);
    }
    let o = brow();
    es.idle_keys(&o, &spine(&o), true, EyebrowKeys { grab: true, ..no_keys() }, [5.0, 6.0]);
    es
}

#[test]
fn fresh_eyebrow_editor_is_idle_on_the_outline_layer() {
    let es = EyebrowEditorState::<f32>::default();
    assert!(es.is_idle());
    assert!(!es.has_any_selection());
    assert!(!es.has_outline_selection());
    assert!(!es.has_guide_selection());
    assert_eq!(es.active_layer, EyebrowEditLayer::Outline);
    assert!(es.hover_enabled());
}

#[test]
fn click_selects_on_the_layer_it_hits() {
    let mut es = EyebrowEditorState::<f32>::default();
    assert!(es.click(EyebrowClickTarget::Outline(4), false));
    assert_eq!(es.outline_selected, [false, false, false, false, true, false]);
    assert_eq!(es.active_layer, EyebrowEditLayer::Outline);
    assert!(es.click(EyebrowClickTarget::Guide(1), false));
    assert_eq!(es.outline_selected, [false; 6]);
    assert_eq!(es.guide_selected, [false, true, false]);
    assert_eq!(es.active_layer, EyebrowEditLayer::Guide);
}

#[test]
fn shift_click_keeps_both_layers() {
    let mut es = EyebrowEditorState::<f32>::default();
    es.click(EyebrowClickTarget::Outline(0), true);
    es.click(EyebrowClickTarget::Guide(2), true);
    es.click(EyebrowClickTarget::Outline(5), true);
    assert_eq!(es.outline_selected, [true, false, false, false, false, true]);
    assert_eq!(es.guide_selected, [false, false, true]);
    es.click(EyebrowClickTarget::Outline(0), true);
    assert_eq!(es.outline_selected, [false, false, false, false, false, true]);
    assert_eq!(es.guide_selected, [false, false, true]);
}

#[test]
fn plain_click_on_a_selected_anchor_keeps_it_alone() {
    let mut es = EyebrowEditorState::<f32>::default();
    es.click(EyebrowClickTarget::Outline(0), true);
    es.click(EyebrowClickTarget::Outline(3), true);
    es.click(EyebrowClickTarget::Outline(3), false);
    assert_eq!(es.outline_selected, [false, false, false, true, false, false]);
}

#[test]
fn click_on_empty_space_clears_both_layers() {
    let mut es = EyebrowEditorState::<f32>::default();
    es.click(EyebrowClickTarget::Outline(0), true);
    es.click(EyebrowClickTarget::Guide(2), true);
    assert!(!es.click(EyebrowClickTarget::Empty, true));
    assert!(!es.has_any_selection());
    let before = es;
    assert!(!es.click(EyebrowClickTarget::NoPointer, false));
    assert_eq!(es, before);
}

#[test]
fn tab_switches_the_active_layer() {
    let o = brow();
    let g = spine(&o);
    let mut es = EyebrowEditorState::<f32>::default();
    let outcome = es.idle_keys(&o, &g, true, EyebrowKeys { tab: true, ..no_keys() }, [0.0, 0.0]);
    assert_eq!(outcome, EyebrowOutcome { repaint: true, surrender_focus: false });
    assert_eq!(es.active_layer, EyebrowEditLayer::Guide);
    es.idle_keys(&o, &g, true, EyebrowKeys { tab: true, ..no_keys() }, [0.0, 0.0]);
    assert_eq!(es.active_layer, EyebrowEditLayer::Outline);
    assert_eq!(EyebrowEditLayer::Outline.toggled(), EyebrowEditLayer::Guide);
    assert_eq!(EyebrowEditLayer::Guide.toggled(), EyebrowEditLayer::Outline);
}

#[test]
fn keys_need_focus() {
    let o = brow();
    let g = spine(&o);
    let mut es = EyebrowEditorState::<f32>::default();
    es.click(EyebrowClickTarget::Outline(1), false);
    let before = es;
    let all = EyebrowKeys { tab: true, grab: true, select_all: true, escape: true };
    let outcome = es.idle_keys(&o, &g, false, all, [0.0, 0.0]);
    assert_eq!(outcome, EyebrowOutcome { repaint: false, surrender_focus: false });
    assert_eq!(es, before);
}

#[test]
fn select_all_acts_on_the_active_layer() {
    let o = brow();
    let g = spine(&o);
    let keys = EyebrowKeys { select_all: true, ..no_keys() };
    let mut es = EyebrowEditorState::<f32>::default();
    es.idle_keys(&o, &g, true, keys, [0.0, 0.0]);
    assert_eq!(es.outline_selected, [true; 6]);
    assert_eq!(es.guide_selected, [false; 3]);
    es.idle_keys(&o, &g, true, keys, [0.0, 0.0]);
    assert_eq!(es.outline_selected, [false; 6]);
    es.idle_keys(&o, &g, true, EyebrowKeys { tab: true, select_all: true, ..no_keys() }, [0.0, 0.0]);
    assert_eq!(es.outline_selected, [false; 6]);
    assert_eq!(es.guide_selected, [true; 3]);
}

#[test]
fn escape_while_idle_drops_both_selections() {
    let o = brow();
    let g = spine(&o);
    let mut es = EyebrowEditorState::<f32>::default();
    es.click(EyebrowClickTarget::Outline(1), true);
    es.click(EyebrowClickTarget::Guide(1), true);
    let outcome = es.idle_keys(&o, &g, true, EyebrowKeys { escape: true, ..no_keys() }, [0.0, 0.0]);
    assert_eq!(outcome, EyebrowOutcome { repaint: false, surrender_focus: true });
    assert!(!es.has_any_selection());
    assert!(es.is_idle());
}

#[test]
fn grab_needs_a_selection() {
    let o = brow();
    let g = spine(&o);
    let mut es = EyebrowEditorState::<f32>::default();
    let outcome = es.idle_keys(&o, &g, true, EyebrowKeys { grab: true, ..no_keys() }, [0.0, 0.0]);
    assert_eq!(outcome, EyebrowOutcome { repaint: false, surrender_focus: false });
    assert!(es.is_idle());
}

#[test]
fn grab_takes_the_guide_only_when_no_outline_anchor_is_selected() {
    let o = brow();
    let g = spine(&o);
    let guide_only = grabbing_guide(&[0, 2]);
    assert_eq!(
        guide_only.mode,
        EyebrowEditMode::Grab {
            selected: LayerSelection::Guide([true, false, true]),
            original_outline: o.anchors,
            original_guide: g.anchors,
            grab_origin: [5.0, 6.0],
        }
    );
    let mut both = EyebrowEditorState::<f32>::default();
    both.click(EyebrowClickTarget::Guide(1), true);
    both.click(EyebrowClickTarget::Outline(4), true);
    both.idle_keys(&o, &g, true, EyebrowKeys { grab: true, ..no_keys() }, [5.0, 6.0]);
    match both.mode {
        EyebrowEditMode::Grab { selected, .. } => {
            assert_eq!(selected, LayerSelection::Outline([false, false, false, false, true, false]));
            assert_eq!(selected.layer(), EyebrowEditLayer::Outline);
        }
        EyebrowEditMode::Idle => panic!("grab expected"),
    }
}

#[test]
fn outline_grab_moves_selected_anchors_only() {
    let o = brow();
    let g = spine(&o);
    let mut outline = o;
    let mut guide = g;
    let mut es = grabbing_outline(&[1, 3]);
    let moved = moved_by(&o, &g, [0.5, -0.25]);
    assert!(es.grab_frame(&mut outline, &mut guide, Some(&moved), false, false));
    for i in 0..6 {
        assert_eq!(outline.anchors[i].handle_in, o.anchors[i].handle_in);
        assert_eq!(outline.anchors[i].handle_out, o.anchors[i].handle_out);
        if i == 1 || i == 3 {
            assert_eq!(outline.anchors[i].position, moved.outline[i]);
        } else {
            assert_eq!(outline.anchors[i], o.anchors[i]);
        }
    }
    assert_eq!(guide, g);
}

#[test]
fn guide_grab_takes_the_paired_anchors_along() {
    let o = brow();
    let g = spine(&o);
    let mut outline = o;
    let mut guide = g;
    let mut es = grabbing_guide(&[0, 1]);
    let d = [0.25, 0.5];
    let moved = moved_by(&o, &g, d);
    es.grab_frame(&mut outline, &mut guide, Some(&moved), false, false);
    for gi in [0, 1] {
        assert_eq!(guide.anchors[gi].position, [g.anchors[gi].position[0] + d[0], g.anchors[gi].position[1] + d[1]]);
        assert_eq!(guide.anchors[gi].handle_in, g.anchors[gi].handle_in);
    }
    assert_eq!(guide.anchors[2], g.anchors[2]);
    for i in [0, 1, 4, 5] {
        assert_eq!(outline.anchors[i].position, [o.anchors[i].position[0] + d[0], o.anchors[i].position[1] + d[1]]);
        assert_eq!(outline.anchors[i].handle_in, o.anchors[i].handle_in);
        assert_eq!(outline.anchors[i].handle_out, o.anchors[i].handle_out);
    }
    for i in [2, 3] {
        assert_eq!(outline.anchors[i], o.anchors[i]);
    }
}

#[test]
fn rederived_guide_agrees_with_the_shifted_guide_point() {
    let o = brow();
    let g = spine(&o);
    let mut outline = o;
    let mut guide = g;
    let mut es = grabbing_guide(&[1]);
    let moved = moved_by(&o, &g, [0.25, -0.5]);
    es.grab_frame(&mut outline, &mut guide, Some(&moved), false, false);
    let rederived = spine(&outline);
    for gi in 0..3 {
        for k in 0..2 {
            assert!((rederived.anchors[gi].position[k] - guide.anchors[gi].position[k]).abs() < 1e-6);
            assert!((rederived.anchors[gi].handle_in[k] - guide.anchors[gi].handle_in[k]).abs() < 1e-6);
            assert!((rederived.anchors[gi].handle_out[k] - guide.anchors[gi].handle_out[k]).abs() < 1e-6);
        }
    }
}

#[test]
fn grab_preview_starts_again_from_the_snapshot() {
    let o = brow();
    let g = spine(&o);
    let mut outline = o;
    let mut guide = g;
    let mut es = grabbing_guide(&[2]);
    for step in 1..=4 {
        let moved = moved_by(&o, &g, [0.125 * step as f32, 0.0]);
        es.grab_frame(&mut outline, &mut guide, Some(&moved), false, false);
    }
    assert_eq!(outline.anchors[2].position, [o.anchors[2].position[0] + 0.5, o.anchors[2].position[1]]);
    assert_eq!(outline.anchors[3].position, [o.anchors[3].position[0] + 0.5, o.anchors[3].position[1]]);
    assert_eq!(guide.anchors[2].position, [g.anchors[2].position[0] + 0.5, g.anchors[2].position[1]]);
}

#[test]
fn grab_back_at_its_origin_shows_the_snapshots() {
    let o = brow();
    let g = spine(&o);
    let mut outline = o;
    let mut guide = g;
    let mut es = grabbing_guide(&[0, 1, 2]);
    es.grab_frame(&mut outline, &mut guide, Some(&moved_by(&o, &g, [0.5, 0.5])), false, false);
    assert_ne!(outline, o);
    es.grab_frame(&mut outline, &mut guide, Some(&moved_by(&o, &g, [0.0, 0.0])), false, false);
    assert_eq!(outline, o);
    assert_eq!(guide, g);
}

#[test]
fn cancelled_grab_restores_outline_and_guide() {
    let o = brow();
    let g = spine(&o);
    for mut es in [grabbing_outline(&[0, 5]), grabbing_guide(&[1])] {
        let mut outline = o;
        let mut guide = g;
        for step in 1..=3 {
            let moved = moved_by(&o, &g, [0.1 * step as f32, -0.2]);
            es.grab_frame(&mut outline, &mut guide, Some(&moved), false, false);
        }
        guide.anchors[0].handle_in = [9.0, 9.0];
        outline.anchors[2].handle_out = [7.0, 7.0];
        assert!(es.grab_frame(&mut outline, &mut guide, Some(&moved_by(&o, &g, [3.0, 3.0])), false, true));
        assert_eq!(outline, o);
        assert_eq!(guide, g);
        assert!(es.is_idle());
        assert!(!es.skip_click_select);
    }
}

#[test]
fn confirmed_grab_keeps_the_preview_and_swallows_the_click() {
    let o = brow();
    let g = spine(&o);
    let mut outline = o;
    let mut guide = g;
    let mut es = grabbing_outline(&[2]);
    let moved = moved_by(&o, &g, [0.25, 0.25]);
    es.grab_frame(&mut outline, &mut guide, Some(&moved), true, false);
    assert!(es.is_idle());
    assert!(es.skip_click_select);
    assert_eq!(outline.anchors[2].position, moved.outline[2]);
    assert!(!es.click(EyebrowClickTarget::Guide(0), false));
    assert!(!es.skip_click_select);
    assert_eq!(es.guide_selected, [false; 3]);
}

#[test]
fn click_and_escape_together_cancel_the_grab() {
    let o = brow();
    let g = spine(&o);
    let mut outline = o;
    let mut guide = g;
    let mut es = grabbing_outline(&[2]);
    es.grab_frame(&mut outline, &mut guide, Some(&moved_by(&o, &g, [1.0, 1.0])), true, true);
    assert_eq!(outline, o);
    assert!(es.is_idle());
    assert!(es.skip_click_select);
}

#[test]
fn grab_frame_does_nothing_when_idle() {
    let o = brow();
    let g = spine(&o);
    let mut outline = o;
    let mut guide = g;
    let mut es = EyebrowEditorState::<f32>::default();
    assert!(!es.grab_frame(&mut outline, &mut guide, Some(&moved_by(&o, &g, [1.0, 1.0])), true, true));
    assert_eq!(outline, o);
    assert_eq!(guide, g);
    assert_eq!(es, EyebrowEditorState::default());
}

#[test]
fn grab_frame_without_pointer_leaves_the_curves() {
    let o = brow();
    let g = spine(&o);
    let mut es = grabbing_guide(&[1]);
    let mut outline = o;
    let mut guide = g;
    outline.anchors[0].position = [4.0, 4.0];
    let shown = outline;
    assert!(es.grab_frame(&mut outline, &mut guide, None, false, false));
    assert_eq!(outline, shown);
    assert!(!es.is_idle());
}

#[test]
fn eyebrow_box_select_replaces_both_layers() {
    let mut es = EyebrowEditorState::<f32>::default();
    es.click(EyebrowClickTarget::Outline(0), true);
    es.drag_start(Some(EyebrowDragStart { position: [3.0, 4.0], target: None }));
    assert_eq!(es.box_select_origin, Some([3.0, 4.0]));
    assert!(es.box_selecting(true));
    let inside = ([false, true, false, false, true, false], [false, true, false]);
    assert!(es.drag_stop(Some(inside)));
    assert_eq!(es.outline_selected, inside.0);
    assert_eq!(es.guide_selected, inside.1);
    assert_eq!(es.box_select_origin, None);

    es.drag_start(Some(EyebrowDragStart { position: [3.0, 4.0], target: None }));
    assert!(!es.drag_stop(Some(([false; 6], [false; 3]))));
    assert!(!es.has_any_selection());
}

#[test]
fn eyebrow_drag_holds_its_target() {
    let mut es = EyebrowEditorState::<f32>::default();
    let target = Some(EyebrowDragTarget::Guide(DragTarget::HandleIn(1)));
    es.drag_start(Some(EyebrowDragStart { position: [3.0, 4.0], target }));
    assert_eq!(es.active_drag(true), target);
    assert_eq!(es.active_drag(false), None);
    assert_eq!(es.box_select_origin, None);
    assert!(!es.drag_stop(None));
    assert_eq!(es.drag, None);
}

#[test]
fn eyebrow_snapshots_copy_and_restore() {
    let o = brow();
    let g = spine(&o);
    let so = snapshot_outline6(&o.anchors);
    let sg = snapshot_guide3(&g.anchors);
    let mut outline = o;
    let mut guide = g;
    outline.anchors[3].position = [1.0, 1.0];
    guide.anchors[1].handle_out = [2.0, 2.0];
    restore_outline6(&so, &mut outline.anchors);
    restore_guide3(&sg, &mut guide.anchors);
    assert_eq!(outline, o);
    assert_eq!(guide, g);
}
