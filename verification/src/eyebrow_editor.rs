//! Modal editing of the eyebrow: a six-anchor outline and the three-point
//! guide that stands for it.
//!
//! The two curves are edited as two layers. Selections are kept per layer,
//! and a grab moves the selection of one layer: outline anchors move alone,
//! a guide point takes its pair of outline anchors along. As in the
//! four-anchor editor the host measures and this module decides; the calls
//! per frame are [`EyebrowEditorState::click`],
//! [`EyebrowEditorState::drag_start`], [`EyebrowEditorState::active_drag`],
//! [`EyebrowEditorState::drag_stop`], and then
//! [`EyebrowEditorState::idle_keys`] or [`EyebrowEditorState::grab_frame`].

use crate::editor::{any_flag, any_selected, pointee, DragTarget};
use crate::outline::{guide_of, BezierAnchor, EyebrowGuide, EyebrowOutline};
use vstd::prelude::*;

verus! {

/// One of the two curves of the eyebrow.
#[derive(Clone, Copy, Debug, PartialEq, Eq, Structural)]
pub enum EyebrowEditLayer {
    Outline,
    Guide,
}

impl EyebrowEditLayer {
    /// The other layer.
    pub open spec fn other(self) -> EyebrowEditLayer {
        match self {
            EyebrowEditLayer::Outline => EyebrowEditLayer::Guide,
            EyebrowEditLayer::Guide => EyebrowEditLayer::Outline,
        }
    }

    /// Switches to the other layer.
    pub fn toggled(self) -> (r: EyebrowEditLayer)
        ensures
            r == self.other(),
    {
        match self {
            EyebrowEditLayer::Outline => EyebrowEditLayer::Guide,
            EyebrowEditLayer::Guide => EyebrowEditLayer::Outline,
        }
    }
}

/// What a drag has taken hold of, and on which layer.
#[derive(Clone, Copy, Debug, PartialEq, Eq, Structural)]
pub enum EyebrowDragTarget {
    Outline(DragTarget),
    Guide(DragTarget),
}

impl EyebrowDragTarget {
    /// Whether the target names an anchor that its layer has.
    pub open spec fn in_range(self) -> bool {
        match self {
            EyebrowDragTarget::Outline(target) => target.anchor_of() < 6,
            EyebrowDragTarget::Guide(target) => target.anchor_of() < 3,
        }
    }
}

/// Where a click landed.
#[derive(Clone, Copy, Debug, PartialEq, Eq, Structural)]
pub enum EyebrowClickTarget {
    /// The pointer position was not available.
    NoPointer,
    /// No anchor or handle was within reach.
    Empty,
    /// The nearest point within reach belongs to this outline anchor.
    Outline(usize),
    /// The nearest point within reach belongs to this guide point.
    Guide(usize),
}

/// Where a drag began.
#[derive(Debug, PartialEq)]
pub struct EyebrowDragStart<T> {
    /// Pointer position in screen coordinates.
    pub position: [T; 2],
    /// The nearest point within reach, if any.
    pub target: Option<EyebrowDragTarget>,
}

impl<T: Copy> Clone for EyebrowDragStart<T> {
    fn clone(&self) -> (r: Self)
        ensures
            r == *self,
    {
        *self
    }
}

impl<T: Copy> Copy for EyebrowDragStart<T> {

}

/// The anchors that a grab moves: a selection of one layer.
#[derive(Clone, Copy, Debug, PartialEq, Eq)]
pub enum LayerSelection {
    Outline([bool; 6]),
    Guide([bool; 3]),
}

impl LayerSelection {
    /// The layer that the selection is of.
    pub open spec fn layer_of(self) -> EyebrowEditLayer {
        match self {
            LayerSelection::Outline(_) => EyebrowEditLayer::Outline,
            LayerSelection::Guide(_) => EyebrowEditLayer::Guide,
        }
    }

    /// Whether the selection holds an anchor.
    pub open spec fn nonempty(self) -> bool {
        match self {
            LayerSelection::Outline(flags) => any_selected(flags@),
            LayerSelection::Guide(flags) => any_selected(flags@),
        }
    }

    /// Whether a grab of this selection moves outline anchor `j`: the
    /// anchor itself is selected, or the guide point that it belongs to is.
    pub open spec fn moves_outline(self, j: int) -> bool {
        match self {
            LayerSelection::Outline(flags) => flags[j],
            LayerSelection::Guide(flags) => flags[guide_of(j)],
        }
    }

    /// Whether a grab of this selection moves guide point `g`.
    pub open spec fn moves_guide(self, g: int) -> bool {
        match self {
            LayerSelection::Outline(_) => false,
            LayerSelection::Guide(flags) => flags[g],
        }
    }

    /// The layer that the selection is of.
    pub fn layer(&self) -> (r: EyebrowEditLayer)
        ensures
            r == self.layer_of(),
    {
        match self {
            LayerSelection::Outline(_) => EyebrowEditLayer::Outline,
            LayerSelection::Guide(_) => EyebrowEditLayer::Guide,
        }
    }
}

/// The interaction mode of the eyebrow editor.
#[derive(Debug, PartialEq)]
pub enum EyebrowEditMode<T> {
    Idle,
    Grab {
        /// The anchors being moved.
        selected: LayerSelection,
        /// All six outline anchors as they were on entry.
        original_outline: [BezierAnchor<T>; 6],
        /// All three guide points as they were on entry.
        original_guide: [BezierAnchor<T>; 3],
        /// Pointer position, in screen coordinates, on entry.
        grab_origin: [T; 2],
    },
}

impl<T: Copy> Clone for EyebrowEditMode<T> {
    fn clone(&self) -> (r: Self)
        ensures
            r == *self,
    {
        *self
    }
}

impl<T: Copy> Copy for EyebrowEditMode<T> {

}

/// The positions of all anchors of both layers after the pointer's
/// translation has been added to their snapshot positions.
#[derive(Debug, PartialEq)]
pub struct MovedPositions<T> {
    pub outline: [[T; 2]; 6],
    pub guide: [[T; 2]; 3],
}

impl<T: Copy> Clone for MovedPositions<T> {
    fn clone(&self) -> (r: Self)
        ensures
            r == *self,
    {
        *self
    }
}

impl<T: Copy> Copy for MovedPositions<T> {

}

/// The keys that act on an idle eyebrow editor, as pressed in one frame.
#[derive(Clone, Copy, Debug, PartialEq, Eq, Structural)]
pub struct EyebrowKeys {
    /// Switch the active layer.
    pub tab: bool,
    /// Begin moving the selection.
    pub grab: bool,
    /// Select all of the active layer, or none of it if some are selected.
    pub select_all: bool,
    /// Drop the selection.
    pub escape: bool,
}

/// What the host has to do after a frame of an idle eyebrow editor.
#[derive(Clone, Copy, Debug, PartialEq, Eq, Structural)]
pub struct EyebrowOutcome {
    /// Draw another frame.
    pub repaint: bool,
    /// Give up keyboard focus.
    pub surrender_focus: bool,
}

/// The outline selection with no anchor in it.
pub open spec fn no_outline_selected() -> [bool; 6] {
    [false, false, false, false, false, false]
}

/// The outline selection with every anchor in it.
pub open spec fn all_outline_selected() -> [bool; 6] {
    [true, true, true, true, true, true]
}

/// The guide selection with no point in it.
pub open spec fn no_guide_selected() -> [bool; 3] {
    [false, false, false]
}

/// The guide selection with every point in it.
pub open spec fn all_guide_selected() -> [bool; 3] {
    [true, true, true]
}

/// The outline selection with the membership of anchor `i` flipped.
pub open spec fn toggle_outline_selected(selected: [bool; 6], i: int) -> [bool; 6] {
    [
        selected[0] != (i == 0),
        selected[1] != (i == 1),
        selected[2] != (i == 2),
        selected[3] != (i == 3),
        selected[4] != (i == 4),
        selected[5] != (i == 5),
    ]
}

/// The guide selection with the membership of point `i` flipped.
pub open spec fn toggle_guide_selected(selected: [bool; 3], i: int) -> [bool; 3] {
    [selected[0] != (i == 0), selected[1] != (i == 1), selected[2] != (i == 2)]
}

/// Outline anchor `j` in the preview of a grab: moved if the grab moves it,
/// otherwise as in the snapshot. A moved anchor keeps its handles.
pub open spec fn grabbed_outline_anchor<T: Copy>(
    selected: LayerSelection,
    original: [BezierAnchor<T>; 6],
    moved: MovedPositions<T>,
    j: int,
) -> BezierAnchor<T> {
    if selected.moves_outline(j) {
        original[j].moved_to(moved.outline[j])
    } else {
        original[j]
    }
}

/// Guide point `g` in the preview of a grab of the guide layer.
pub open spec fn grabbed_guide_anchor<T: Copy>(
    selected: LayerSelection,
    original: [BezierAnchor<T>; 3],
    moved: MovedPositions<T>,
    g: int,
) -> BezierAnchor<T> {
    if selected.moves_guide(g) {
        original[g].moved_to(moved.guide[g])
    } else {
        original[g]
    }
}

/// The six outline anchors in the preview of a grab.
pub open spec fn grabbed_outline<T: Copy>(
    selected: LayerSelection,
    original: [BezierAnchor<T>; 6],
    moved: MovedPositions<T>,
) -> [BezierAnchor<T>; 6] {
    [
        grabbed_outline_anchor(selected, original, moved, 0),
        grabbed_outline_anchor(selected, original, moved, 1),
        grabbed_outline_anchor(selected, original, moved, 2),
        grabbed_outline_anchor(selected, original, moved, 3),
        grabbed_outline_anchor(selected, original, moved, 4),
        grabbed_outline_anchor(selected, original, moved, 5),
    ]
}

/// The three guide points in the preview of a grab of the guide layer.
pub open spec fn grabbed_guide<T: Copy>(
    selected: LayerSelection,
    original: [BezierAnchor<T>; 3],
    moved: MovedPositions<T>,
) -> [BezierAnchor<T>; 3] {
    [
        grabbed_guide_anchor(selected, original, moved, 0),
        grabbed_guide_anchor(selected, original, moved, 1),
        grabbed_guide_anchor(selected, original, moved, 2),
    ]
}

/// Copies the six outline anchors, to be put back if a grab is cancelled.
pub fn snapshot_outline6<T: Copy>(anchors: &[BezierAnchor<T>; 6]) -> (snaps: [BezierAnchor<T>; 6])
    ensures
        snaps == *anchors,
{
    *anchors
}

/// Copies the three guide points, to be put back if a grab is cancelled.
pub fn snapshot_guide3<T: Copy>(anchors: &[BezierAnchor<T>; 3]) -> (snaps: [BezierAnchor<T>; 3])
    ensures
        snaps == *anchors,
{
    *anchors
}

/// Puts a snapshot of the outline back.
pub fn restore_outline6<T: Copy>(snaps: &[BezierAnchor<T>; 6], anchors: &mut [BezierAnchor<T>; 6])
    ensures
        *final(anchors) == *snaps,
{
    *anchors = *snaps;
}

/// Puts a snapshot of the guide back.
pub fn restore_guide3<T: Copy>(snaps: &[BezierAnchor<T>; 3], anchors: &mut [BezierAnchor<T>; 3])
    ensures
        *final(anchors) == *snaps,
{
    *anchors = *snaps;
}

/// Previews a grab of outline anchors: starting again from the snapshot,
/// every selected anchor is moved and no other.
fn preview_outline_grab<T: Copy>(
    outline: &mut EyebrowOutline<T>,
    selected: &[bool; 6],
    original: &[BezierAnchor<T>; 6],
    moved: &MovedPositions<T>,
)
    ensures
        final(outline).anchors == grabbed_outline(
            LayerSelection::Outline(*selected),
            *original,
            *moved,
        ),
{
    let ghost chosen = LayerSelection::Outline(*selected);
    restore_outline6(original, &mut outline.anchors);
    let mut i: usize = 0;
    while i < 6
        invariant
            i <= 6,
            chosen == LayerSelection::Outline(*selected),
            forall|j: int|
                0 <= j < i ==> outline.anchors[j] == grabbed_outline_anchor(
                    chosen,
                    *original,
                    *moved,
                    j,
                ),
            forall|j: int| i <= j < 6 ==> outline.anchors[j] == original[j],
        decreases 6 - i,
    {
        if selected[i] {
            outline.anchors[i].position = moved.outline[i];
        }
        i = i + 1;
    }
    assert(outline.anchors =~= grabbed_outline(chosen, *original, *moved));
}

/// Previews a grab of guide points: starting again from the snapshots,
/// every selected guide point is moved and takes its pair of outline
/// anchors along.
fn preview_guide_grab<T: Copy>(
    outline: &mut EyebrowOutline<T>,
    guide: &mut EyebrowGuide<T>,
    selected: &[bool; 3],
    original_outline: &[BezierAnchor<T>; 6],
    original_guide: &[BezierAnchor<T>; 3],
    moved: &MovedPositions<T>,
)
    ensures
        final(outline).anchors == grabbed_outline(
            LayerSelection::Guide(*selected),
            *original_outline,
            *moved,
        ),
        final(guide).anchors == grabbed_guide(
            LayerSelection::Guide(*selected),
            *original_guide,
            *moved,
        ),
{
    let ghost chosen = LayerSelection::Guide(*selected);
    restore_guide3(original_guide, &mut guide.anchors);
    restore_outline6(original_outline, &mut outline.anchors);
    let mut gi: usize = 0;
    while gi < 3
        invariant
            gi <= 3,
            chosen == LayerSelection::Guide(*selected),
            forall|g: int|
                0 <= g < gi ==> guide.anchors[g] == grabbed_guide_anchor(
                    chosen,
                    *original_guide,
                    *moved,
                    g,
                ),
            forall|g: int| gi <= g < 3 ==> guide.anchors[g] == original_guide[g],
            forall|j: int|
                0 <= j < 6 && guide_of(j) < gi ==> outline.anchors[j]
                    == grabbed_outline_anchor(chosen, *original_outline, *moved, j),
            forall|j: int|
                0 <= j < 6 && guide_of(j) >= gi ==> outline.anchors[j]
                    == original_outline[j],
        decreases 3 - gi,
    {
        if selected[gi] {
            guide.anchors[gi].position = moved.guide[gi];
            let (top, bottom) = EyebrowGuide::<T>::paired_indices(gi);
            EyebrowGuide::propagate_delta(gi, moved.outline[top], moved.outline[bottom], outline);
        }
        gi = gi + 1;
    }
    assert(guide.anchors =~= grabbed_guide(chosen, *original_guide, *moved));
    assert(outline.anchors =~= grabbed_outline(chosen, *original_outline, *moved));
}

/// Interaction state of one eyebrow editor. It lives as long as its widget
/// and is handed to the editor's functions every frame.
#[derive(Debug, PartialEq)]
pub struct EyebrowEditorState<T> {
    /// What the pointer is dragging, if anything.
    pub drag: Option<EyebrowDragTarget>,
    /// Which outline anchors are selected.
    pub outline_selected: [bool; 6],
    /// Which guide points are selected.
    pub guide_selected: [bool; 3],
    /// The layer that the select-all key acts on.
    pub active_layer: EyebrowEditLayer,
    /// Idle, or the grab in progress.
    pub mode: EyebrowEditMode<T>,
    /// Set by a confirming click, so that the same click is not read as a
    /// new selection.
    pub skip_click_select: bool,
    /// Where a box selection began, in screen coordinates.
    pub box_select_origin: Option<[T; 2]>,
}

impl<T: Copy> Clone for EyebrowEditorState<T> {
    fn clone(&self) -> (r: Self)
        ensures
            r == *self,
    {
        *self
    }
}

impl<T: Copy> Copy for EyebrowEditorState<T> {

}

impl<T: Copy> Default for EyebrowEditorState<T> {
    /// A fresh editor: idle, nothing selected, the outline layer active.
    fn default() -> (state: Self)
        ensures
            state == Self::initial(),
            state.wf(),
    {
        let state = EyebrowEditorState {
            drag: None,
            outline_selected: [false; 6],
            guide_selected: [false; 3],
            active_layer: EyebrowEditLayer::Outline,
            mode: EyebrowEditMode::Idle,
            skip_click_select: false,
            box_select_origin: None,
        };
        assert(state.outline_selected =~= no_outline_selected());
        assert(state.guide_selected =~= no_guide_selected());
        state
    }
}

impl<T: Copy> EyebrowEditorState<T> {
    /// A drag holds an anchor that exists, and a grab moves at least one
    /// anchor.
    pub open spec fn wf(self) -> bool {
        &&& self.drag matches Some(target) ==> target.in_range()
        &&& self.mode matches EyebrowEditMode::Grab { selected, .. } ==> selected.nonempty()
    }

    /// The state of a fresh editor.
    pub open spec fn initial() -> Self {
        EyebrowEditorState {
            drag: None,
            outline_selected: no_outline_selected(),
            guide_selected: no_guide_selected(),
            active_layer: EyebrowEditLayer::Outline,
            mode: EyebrowEditMode::Idle,
            skip_click_select: false,
            box_select_origin: None,
        }
    }

    /// The state with both selections emptied.
    pub open spec fn deselected(self) -> Self {
        EyebrowEditorState {
            outline_selected: no_outline_selected(),
            guide_selected: no_guide_selected(),
            ..self
        }
    }

    /// Whether an anchor of either layer is selected.
    pub open spec fn any_selection(self) -> bool {
        any_selected(self.outline_selected@) || any_selected(self.guide_selected@)
    }

    /// The state after a click.
    ///
    /// Only an idle editor selects. A click that confirmed a grab is
    /// swallowed once. A click on empty space clears both selections. A
    /// click within reach of an anchor makes that anchor's layer the active
    /// one; without shift the anchor becomes the only selected one of
    /// either layer, with shift its membership is flipped and the rest is
    /// kept.
    pub open spec fn after_click(self, target: EyebrowClickTarget, shift: bool) -> Self {
        if !(self.mode is Idle) {
            self
        } else if self.skip_click_select {
            EyebrowEditorState { skip_click_select: false, ..self }
        } else {
            let kept = if shift {
                self
            } else {
                self.deselected()
            };
            match target {
                EyebrowClickTarget::NoPointer => self,
                EyebrowClickTarget::Empty => self.deselected(),
                EyebrowClickTarget::Outline(i) => EyebrowEditorState {
                    outline_selected: toggle_outline_selected(kept.outline_selected, i as int),
                    active_layer: EyebrowEditLayer::Outline,
                    ..kept
                },
                EyebrowClickTarget::Guide(i) => EyebrowEditorState {
                    guide_selected: toggle_guide_selected(kept.guide_selected, i as int),
                    active_layer: EyebrowEditLayer::Guide,
                    ..kept
                },
            }
        }
    }

    /// Whether a click lands on an anchor, in which case the editor asks
    /// for keyboard focus.
    pub open spec fn click_takes_focus(self, target: EyebrowClickTarget) -> bool {
        self.mode is Idle && !self.skip_click_select && (target is Outline || target is Guide)
    }

    /// The state after a drag began. A drag that begins on empty space
    /// starts a box selection there.
    pub open spec fn after_drag_start(self, pointer: Option<EyebrowDragStart<T>>) -> Self {
        match pointer {
            Some(start) if self.mode is Idle => EyebrowEditorState {
                drag: start.target,
                box_select_origin: if start.target is None {
                    Some(start.position)
                } else {
                    self.box_select_origin
                },
                ..self
            },
            _ => self,
        }
    }

    /// The state after a drag ended. `inside` tells, for a box selection,
    /// which anchors of either layer lie in the box; it is `None` when the
    /// pointer position was not available. A box selection replaces both
    /// selections.
    pub open spec fn after_drag_stop(self, inside: Option<([bool; 6], [bool; 3])>) -> Self {
        if !(self.mode is Idle) {
            self
        } else {
            let boxed = self.box_select_origin is Some;
            EyebrowEditorState {
                drag: None,
                box_select_origin: None,
                outline_selected: match inside {
                    Some(flags) if boxed => flags.0,
                    _ => self.outline_selected,
                },
                guide_selected: match inside {
                    Some(flags) if boxed => flags.1,
                    _ => self.guide_selected,
                },
                ..self
            }
        }
    }

    /// Whether the end of a drag selected an anchor, in which case the
    /// editor asks for keyboard focus.
    pub open spec fn drag_stop_takes_focus(self, inside: Option<([bool; 6], [bool; 3])>) -> bool {
        &&& self.mode is Idle
        &&& self.box_select_origin is Some
        &&& inside matches Some(flags)
        &&& (any_selected(flags.0@) || any_selected(flags.1@))
    }

    /// The selection that a grab beginning now would move: the guide
    /// points if only guide points are selected, otherwise the outline
    /// anchors.
    pub open spec fn grab_selection(self) -> LayerSelection {
        if any_selected(self.guide_selected@) && !any_selected(self.outline_selected@) {
            LayerSelection::Guide(self.guide_selected)
        } else {
            LayerSelection::Outline(self.outline_selected)
        }
    }

    /// The state after the layer key.
    pub open spec fn after_tab(self) -> Self {
        EyebrowEditorState { active_layer: self.active_layer.other(), ..self }
    }

    /// The state after the grab key: both curves are snapshotted whole.
    pub open spec fn after_grab_key(
        self,
        outline: [BezierAnchor<T>; 6],
        guide: [BezierAnchor<T>; 3],
        grab_origin: [T; 2],
    ) -> Self {
        EyebrowEditorState {
            mode: EyebrowEditMode::Grab {
                selected: self.grab_selection(),
                original_outline: outline,
                original_guide: guide,
                grab_origin,
            },
            ..self
        }
    }

    /// The state after the select-all key, which acts on the active layer:
    /// nothing of it selected if anything was, everything if nothing was.
    pub open spec fn after_select_all(self) -> Self {
        match self.active_layer {
            EyebrowEditLayer::Outline => EyebrowEditorState {
                outline_selected: if any_selected(self.outline_selected@) {
                    no_outline_selected()
                } else {
                    all_outline_selected()
                },
                ..self
            },
            EyebrowEditLayer::Guide => EyebrowEditorState {
                guide_selected: if any_selected(self.guide_selected@) {
                    no_guide_selected()
                } else {
                    all_guide_selected()
                },
                ..self
            },
        }
    }

    /// Whether the grab key begins a grab this frame.
    pub open spec fn grab_begins(self, has_focus: bool, keys: EyebrowKeys) -> bool {
        self.mode is Idle && has_focus && keys.grab && self.any_selection()
    }

    /// The state after one frame's key presses on an idle editor. All keys
    /// need keyboard focus. They are looked at one after the other: the
    /// layer key, the grab key, the select-all key, Escape.
    pub open spec fn after_idle_keys(
        self,
        outline: [BezierAnchor<T>; 6],
        guide: [BezierAnchor<T>; 3],
        has_focus: bool,
        keys: EyebrowKeys,
        grab_origin: [T; 2],
    ) -> Self {
        if !(self.mode is Idle) || !has_focus {
            self
        } else {
            let tabbed = if keys.tab {
                self.after_tab()
            } else {
                self
            };
            let grabbed = if keys.grab && tabbed.any_selection() {
                tabbed.after_grab_key(outline, guide, grab_origin)
            } else {
                tabbed
            };
            let toggled = if keys.select_all {
                grabbed.after_select_all()
            } else {
                grabbed
            };
            if keys.escape {
                toggled.deselected()
            } else {
                toggled
            }
        }
    }

    /// What the host has to do after one frame's key presses on an idle
    /// editor.
    pub open spec fn idle_outcome(self, has_focus: bool, keys: EyebrowKeys) -> EyebrowOutcome {
        let live = self.mode is Idle && has_focus;
        EyebrowOutcome {
            repaint: live && (keys.tab || keys.select_all || keys.grab && self.any_selection()),
            surrender_focus: live && keys.escape,
        }
    }

    /// The state after one frame of a grab: a click or Escape ends it, and
    /// a click is remembered so that it does not select.
    pub open spec fn after_grab_frame(self, primary_pressed: bool, escape_pressed: bool) -> Self {
        if self.mode is Idle {
            self
        } else {
            EyebrowEditorState {
                mode: if primary_pressed || escape_pressed {
                    EyebrowEditMode::Idle
                } else {
                    self.mode
                },
                skip_click_select: primary_pressed || self.skip_click_select,
                ..self
            }
        }
    }

    /// The outline anchors after one frame of a grab.
    ///
    /// Escape leaves the snapshot. Otherwise, when the host could compute
    /// the translated positions, the preview is rebuilt from the snapshot:
    /// the anchors that the grab moves take their translated positions and
    /// all else is as in the snapshot.
    pub open spec fn frame_outline(
        self,
        outline: [BezierAnchor<T>; 6],
        moved: Option<MovedPositions<T>>,
        escape_pressed: bool,
    ) -> [BezierAnchor<T>; 6] {
        match self.mode {
            EyebrowEditMode::Idle => outline,
            EyebrowEditMode::Grab { selected, original_outline, .. } => {
                if escape_pressed {
                    original_outline
                } else {
                    match moved {
                        Some(moved) => grabbed_outline(selected, original_outline, moved),
                        None => outline,
                    }
                }
            },
        }
    }

    /// The guide points after one frame of a grab.
    ///
    /// Escape leaves the snapshot. Otherwise a grab of guide points
    /// rebuilds them from the snapshot, and a grab of outline anchors does
    /// not write to the guide.
    pub open spec fn frame_guide(
        self,
        guide: [BezierAnchor<T>; 3],
        moved: Option<MovedPositions<T>>,
        escape_pressed: bool,
    ) -> [BezierAnchor<T>; 3] {
        match self.mode {
            EyebrowEditMode::Idle => guide,
            EyebrowEditMode::Grab { selected, original_guide, .. } => {
                if escape_pressed {
                    original_guide
                } else {
                    match moved {
                        Some(moved) if selected is Guide => grabbed_guide(
                            selected,
                            original_guide,
                            moved,
                        ),
                        _ => guide,
                    }
                }
            },
        }
    }

    /// Rollback is exact: Escape in any frame of a grab leaves the outline
    /// and the guide as the snapshot holds them, whatever they hold now,
    /// wherever the pointer is, and whether or not a click came with it.
    pub proof fn lemma_cancel_restores_snapshot(
        self,
        outline: [BezierAnchor<T>; 6],
        guide: [BezierAnchor<T>; 3],
        moved: Option<MovedPositions<T>>,
        primary_pressed: bool,
    )
        requires
            self.mode is Grab,
        ensures
            self.frame_outline(outline, moved, true) == self.mode->original_outline,
            self.frame_guide(guide, moved, true) == self.mode->original_guide,
            self.after_grab_frame(primary_pressed, true).mode is Idle,
    {
    }

    /// Entering a grab and cancelling it, after any number of frames that
    /// neither confirm nor cancel, gives back the outline and the guide
    /// exactly as they were on entry: such frames leave the editor as it
    /// is, and Escape then restores both curves from whatever they hold.
    pub proof fn lemma_cancel_restores_entry(
        self,
        outline: [BezierAnchor<T>; 6],
        guide: [BezierAnchor<T>; 3],
        keys: EyebrowKeys,
        grab_origin: [T; 2],
        current_outline: [BezierAnchor<T>; 6],
        current_guide: [BezierAnchor<T>; 3],
        moved: Option<MovedPositions<T>>,
    )
        requires
            self.grab_begins(true, keys),
        ensures
            ({
                let entered = self.after_idle_keys(outline, guide, true, keys, grab_origin);
                &&& entered.mode is Grab
                &&& entered.after_grab_frame(false, false) == entered
                &&& entered.frame_outline(current_outline, moved, true) == outline
                &&& entered.frame_guide(current_guide, moved, true) == guide
            }),
    {
        assert(self.after_tab().any_selection() == self.any_selection());
    }

    /// A grab whose pointer is back where it began, so that every moved
    /// position equals the snapshot position, previews the snapshot itself.
    pub proof fn lemma_zero_grab_previews_snapshot(self, moved: MovedPositions<T>)
        requires
            self.mode is Grab,
            forall|j: int| 0 <= j < 6 ==> moved.outline[j] == self.mode->original_outline[j].position,
            forall|g: int| 0 <= g < 3 ==> moved.guide[g] == self.mode->original_guide[g].position,
        ensures
            grabbed_outline(self.mode->selected, self.mode->original_outline, moved)
                == self.mode->original_outline,
            grabbed_guide(self.mode->selected, self.mode->original_guide, moved)
                == self.mode->original_guide,
    {
        let selected = self.mode->selected;
        assert(grabbed_outline(selected, self.mode->original_outline, moved)
            =~= self.mode->original_outline);
        assert(grabbed_guide(selected, self.mode->original_guide, moved)
            =~= self.mode->original_guide);
    }

    /// Whether any outline anchor is selected.
    pub fn has_outline_selection(&self) -> (b: bool)
        ensures
            b == any_selected(self.outline_selected@),
    {
        any_flag(&self.outline_selected)
    }

    /// Whether any guide point is selected.
    pub fn has_guide_selection(&self) -> (b: bool)
        ensures
            b == any_selected(self.guide_selected@),
    {
        any_flag(&self.guide_selected)
    }

    /// Whether anything is selected on either layer.
    pub fn has_any_selection(&self) -> (b: bool)
        ensures
            b == self.any_selection(),
    {
        self.has_outline_selection() || self.has_guide_selection()
    }

    /// Empties both selections.
    pub fn clear_all_selection(&mut self)
        ensures
            *final(self) == old(self).deselected(),
    {
        self.outline_selected = [false; 6];
        self.guide_selected = [false; 3];
        assert(self.outline_selected =~= no_outline_selected());
        assert(self.guide_selected =~= no_guide_selected());
    }

    /// Whether the editor is idle.
    pub fn is_idle(&self) -> (b: bool)
        ensures
            b == (self.mode is Idle),
    {
        match self.mode {
            EyebrowEditMode::Idle => true,
            _ => false,
        }
    }

    /// Whether the point under the pointer is to be highlighted: only while
    /// idle and not dragging.
    pub fn hover_enabled(&self) -> (b: bool)
        ensures
            b == (self.mode is Idle && self.drag is None),
    {
        self.is_idle() && self.drag.is_none()
    }

    /// Handles a click. Returns whether the editor asks for keyboard focus.
    pub fn click(&mut self, target: EyebrowClickTarget, shift: bool) -> (focus: bool)
        requires
            target matches EyebrowClickTarget::Outline(i) ==> i < 6,
            target matches EyebrowClickTarget::Guide(i) ==> i < 3,
        ensures
            *final(self) == old(self).after_click(target, shift),
            focus == old(self).click_takes_focus(target),
            old(self).wf() ==> final(self).wf(),
    {
        if !self.is_idle() {
            return false;
        }
        if self.skip_click_select {
            self.skip_click_select = false;
            return false;
        }
        match target {
            EyebrowClickTarget::NoPointer => false,
            EyebrowClickTarget::Empty => {
                self.clear_all_selection();
                false
            },
            EyebrowClickTarget::Outline(i) => {
                if !shift {
                    self.clear_all_selection();
                }
                let ghost kept = *self;
                self.outline_selected[i] = !self.outline_selected[i];
                self.active_layer = EyebrowEditLayer::Outline;
                assert(self.outline_selected =~= toggle_outline_selected(
                    kept.outline_selected,
                    i as int,
                ));
                true
            },
            EyebrowClickTarget::Guide(i) => {
                if !shift {
                    self.clear_all_selection();
                }
                let ghost kept = *self;
                self.guide_selected[i] = !self.guide_selected[i];
                self.active_layer = EyebrowEditLayer::Guide;
                assert(self.guide_selected =~= toggle_guide_selected(
                    kept.guide_selected,
                    i as int,
                ));
                true
            },
        }
    }

    /// Handles the start of a drag. `pointer` is `None` when the pointer
    /// position was not available.
    pub fn drag_start(&mut self, pointer: Option<EyebrowDragStart<T>>)
        requires
            pointer matches Some(start) ==> (start.target matches Some(target)
                ==> target.in_range()),
        ensures
            *final(self) == old(self).after_drag_start(pointer),
            old(self).wf() ==> final(self).wf(),
    {
        if !self.is_idle() {
            return ;
        }
        if let Some(start) = pointer {
            self.drag = start.target;
            if start.target.is_none() {
                self.box_select_origin = Some(start.position);
            }
        }
    }

    /// What the pointer is dragging this frame: the held target, while the
    /// editor is idle and the pointer is being dragged.
    pub fn active_drag(&self, dragged: bool) -> (target: Option<EyebrowDragTarget>)
        ensures
            target == (if self.mode is Idle && dragged {
                self.drag
            } else {
                None
            }),
    {
        if self.is_idle() && dragged {
            self.drag
        } else {
            None
        }
    }

    /// Whether a box selection is being dragged out this frame.
    pub fn box_selecting(&self, dragged: bool) -> (b: bool)
        ensures
            b == (self.mode is Idle && dragged && self.box_select_origin is Some),
    {
        self.is_idle() && dragged && self.box_select_origin.is_some()
    }

    /// Handles the end of a drag. Returns whether the editor asks for
    /// keyboard focus.
    pub fn drag_stop(&mut self, inside: Option<([bool; 6], [bool; 3])>) -> (focus: bool)
        ensures
            *final(self) == old(self).after_drag_stop(inside),
            focus == old(self).drag_stop_takes_focus(inside),
            old(self).wf() ==> final(self).wf(),
    {
        if !self.is_idle() {
            return false;
        }
        let mut focus = false;
        if self.box_select_origin.is_some() {
            self.box_select_origin = None;
            if let Some(flags) = inside {
                self.outline_selected = flags.0;
                self.guide_selected = flags.1;
                focus = any_flag(&flags.0) || any_flag(&flags.1);
            }
        }
        self.drag = None;
        focus
    }

    /// Handles one frame's key presses on an idle editor; does nothing in a
    /// grab or without keyboard focus.
    ///
    /// `outline` and `guide` are the curves as they stand, which a grab
    /// that begins now snapshots. `grab_origin` is the pointer position in
    /// screen coordinates, or the centre of the canvas when the pointer is
    /// away.
    pub fn idle_keys(
        &mut self,
        outline: &EyebrowOutline<T>,
        guide: &EyebrowGuide<T>,
        has_focus: bool,
        keys: EyebrowKeys,
        grab_origin: [T; 2],
    ) -> (outcome: EyebrowOutcome)
        ensures
            *final(self) == old(self).after_idle_keys(
                outline.anchors,
                guide.anchors,
                has_focus,
                keys,
                grab_origin,
            ),
            outcome == old(self).idle_outcome(has_focus, keys),
            old(self).wf() ==> final(self).wf(),
    {
        let mut outcome = EyebrowOutcome { repaint: false, surrender_focus: false };
        if !self.is_idle() || !has_focus {
            return outcome;
        }
        if keys.tab {
            self.active_layer = self.active_layer.toggled();
            outcome.repaint = true;
        }
        if keys.grab && self.has_any_selection() {
            let selected = if self.has_guide_selection() && !self.has_outline_selection() {
                LayerSelection::Guide(self.guide_selected)
            } else {
                LayerSelection::Outline(self.outline_selected)
            };
            self.mode = EyebrowEditMode::Grab {
                selected,
                original_outline: snapshot_outline6(&outline.anchors),
                original_guide: snapshot_guide3(&guide.anchors),
                grab_origin,
            };
            outcome.repaint = true;
        }
        if keys.select_all {
            match self.active_layer {
                EyebrowEditLayer::Outline => {
                    if self.has_outline_selection() {
                        self.outline_selected = [false; 6];
                        assert(self.outline_selected =~= no_outline_selected());
                    } else {
                        self.outline_selected = [true; 6];
                        assert(self.outline_selected =~= all_outline_selected());
                    }
                },
                EyebrowEditLayer::Guide => {
                    if self.has_guide_selection() {
                        self.guide_selected = [false; 3];
                        assert(self.guide_selected =~= no_guide_selected());
                    } else {
                        self.guide_selected = [true; 3];
                        assert(self.guide_selected =~= all_guide_selected());
                    }
                },
            }
            outcome.repaint = true;
        }
        if keys.escape {
            self.clear_all_selection();
            outcome.surrender_focus = true;
        }
        outcome
    }

    /// Runs one frame of the grab in progress; does nothing when idle.
    ///
    /// `moved` holds the snapshot positions of all anchors translated by
    /// the pointer's displacement since the grab began; it is `None` when
    /// the pointer is away. The preview is rebuilt from the snapshot. Then
    /// a click confirms the grab and Escape cancels it, putting both curves
    /// back as they were on entry. Returns whether to draw another frame.
    pub fn grab_frame(
        &mut self,
        outline: &mut EyebrowOutline<T>,
        guide: &mut EyebrowGuide<T>,
        moved: Option<&MovedPositions<T>>,
        primary_pressed: bool,
        escape_pressed: bool,
    ) -> (repaint: bool)
        ensures
            *final(self) == old(self).after_grab_frame(primary_pressed, escape_pressed),
            final(outline).anchors == old(self).frame_outline(
                old(outline).anchors,
                pointee(moved),
                escape_pressed,
            ),
            final(guide).anchors == old(self).frame_guide(
                old(guide).anchors,
                pointee(moved),
                escape_pressed,
            ),
            repaint == !(old(self).mode is Idle),
            old(self).wf() ==> final(self).wf(),
    {
        let (selected, original_outline, original_guide) = match self.mode {
            EyebrowEditMode::Idle => {
                return false;
            },
            EyebrowEditMode::Grab { selected, original_outline, original_guide, .. } => (
                selected,
                original_outline,
                original_guide,
            ),
        };
        if let Some(m) = moved {
            match selected {
                LayerSelection::Outline(flags) => {
                    preview_outline_grab(outline, &flags, &original_outline, m);
                },
                LayerSelection::Guide(flags) => {
                    preview_guide_grab(
                        outline,
                        guide,
                        &flags,
                        &original_outline,
                        &original_guide,
                        m,
                    );
                },
            }
        }
        if primary_pressed {
            self.mode = EyebrowEditMode::Idle;
            self.skip_click_select = true;
        }
        if escape_pressed {
            restore_outline6(&original_outline, &mut outline.anchors);
            restore_guide3(&original_guide, &mut guide.anchors);
            self.mode = EyebrowEditMode::Idle;
        }
        true
    }
}

} // verus!
