//! Modal editing of a four-anchor outline.
//!
//! The editor is idle or in one of three transforms: grab, scale, rotate. A
//! transform is entered on a key press while at least one anchor is
//! selected; it keeps a snapshot of all four anchors, previews the transform
//! on the selected ones every frame, and ends on a confirming click or on a
//! cancelling Escape, which puts the snapshot back.
//!
//! The host polls its input once per frame and calls, in this order,
//! [`BezierEditorState::click`], [`BezierEditorState::drag_start`],
//! [`BezierEditorState::active_drag`], [`BezierEditorState::drag_stop`] for
//! the pointer events that occurred, and then either
//! [`BezierEditorState::idle_keys`] or, in a transform,
//! [`BezierEditorState::scale_axis_keys`] followed by
//! [`BezierEditorState::transform_frame`]. Hit tests, pivots and the
//! previewed coordinates themselves are measured by the host and handed in.

use crate::outline::BezierAnchor;
use vstd::prelude::*;

verus! {

/// Whether any flag of a selection is set.
pub open spec fn any_selected(flags: Seq<bool>) -> bool {
    exists|i: int| 0 <= i < flags.len() && flags[i]
}

/// How many flags of a selection are set.
pub open spec fn count_selected(flags: Seq<bool>) -> nat
    decreases flags.len(),
{
    if flags.len() == 0 {
        0
    } else {
        count_selected(flags.drop_last()) + if flags.last() {
            1nat
        } else {
            0nat
        }
    }
}

/// The selection as the set of the indices whose flag is set.
pub open spec fn selected_indices(flags: Seq<bool>) -> Set<int> {
    Set::new(|i: int| 0 <= i < flags.len() && flags[i])
}

/// A selection has a set flag exactly if its count is not zero.
pub proof fn lemma_count_selected_positive(flags: Seq<bool>)
    ensures
        any_selected(flags) <==> count_selected(flags) > 0,
        count_selected(flags) <= flags.len(),
    decreases flags.len(),
{
    if flags.len() > 0 {
        let init = flags.drop_last();
        lemma_count_selected_positive(init);
        if any_selected(init) {
            let i = choose|i: int| 0 <= i < init.len() && init[i];
            assert(flags[i]);
        }
        if any_selected(flags) && !flags.last() {
            let i = choose|i: int| 0 <= i < flags.len() && flags[i];
            assert(init[i]);
        }
    }
}

/// Tells whether any flag is set.
pub fn any_flag(flags: &[bool]) -> (b: bool)
    ensures
        b == any_selected(flags@),
{
    let mut i: usize = 0;
    while i < flags.len()
        invariant
            i <= flags.len(),
            forall|j: int| 0 <= j < i ==> !flags@[j],
        decreases flags.len() - i,
    {
        if flags[i] {
            return true;
        }
        i = i + 1;
    }
    false
}

/// Counts the flags that are set.
pub fn count_flags(flags: &[bool]) -> (n: usize)
    ensures
        n == count_selected(flags@),
{
    let mut n: usize = 0;
    let mut i: usize = 0;
    while i < flags.len()
        invariant
            i <= flags.len(),
            n == count_selected(flags@.take(i as int)),
            n <= i,
        decreases flags.len() - i,
    {
        proof {
            assert(flags@.take(i + 1).drop_last() =~= flags@.take(i as int));
        }
        if flags[i] {
            n = n + 1;
        }
        i = i + 1;
    }
    proof {
        assert(flags@.take(i as int) =~= flags@);
    }
    n
}

/// Restricts scaling to one axis.
#[derive(Clone, Copy, Debug, PartialEq, Eq, Structural)]
pub enum AxisConstraint {
    /// Both axes scale alike.
    Free,
    /// Only the horizontal axis scales.
    X,
    /// Only the vertical axis scales.
    Y,
}

impl AxisConstraint {
    /// The constraint after the key for axis `key` was pressed: pressing
    /// the key of the axis already chosen lifts the constraint, pressing
    /// any other chooses that axis.
    pub open spec fn pressed(self, key: AxisConstraint) -> AxisConstraint {
        if self == key {
            AxisConstraint::Free
        } else {
            key
        }
    }

    /// The constraint after one frame's key presses; X is looked at first.
    pub open spec fn after_keys(self, x_pressed: bool, y_pressed: bool) -> AxisConstraint {
        let after_x = if x_pressed {
            self.pressed(AxisConstraint::X)
        } else {
            self
        };
        if y_pressed {
            after_x.pressed(AxisConstraint::Y)
        } else {
            after_x
        }
    }

    /// The horizontal and vertical scale factors under this constraint:
    /// a constrained axis takes `factor`, the other one keeps `one`.
    pub open spec fn factors_of<T>(self, factor: T, one: T) -> (T, T) {
        match self {
            AxisConstraint::Free => (factor, factor),
            AxisConstraint::X => (factor, one),
            AxisConstraint::Y => (one, factor),
        }
    }

    /// Applies one frame's presses of the X and Y keys.
    pub fn toggle_keys(self, x_pressed: bool, y_pressed: bool) -> (r: AxisConstraint)
        ensures
            r == self.after_keys(x_pressed, y_pressed),
    {
        let mut axis = self;
        if x_pressed {
            axis = match axis {
                AxisConstraint::X => AxisConstraint::Free,
                _ => AxisConstraint::X,
            };
        }
        if y_pressed {
            axis = match axis {
                AxisConstraint::Y => AxisConstraint::Free,
                _ => AxisConstraint::Y,
            };
        }
        axis
    }

    /// Splits a scale factor over the two axes. `one` is the factor that
    /// leaves a coordinate as it is.
    pub fn factors<T: Copy>(self, factor: T, one: T) -> (r: (T, T))
        ensures
            r == self.factors_of(factor, one),
    {
        match self {
            AxisConstraint::Free => (factor, factor),
            AxisConstraint::X => (factor, one),
            AxisConstraint::Y => (one, factor),
        }
    }

    /// Scaling along X alone leaves the vertical factor at `one`, and
    /// scaling along Y alone leaves the horizontal factor at `one`,
    /// whatever the scale factor is.
    pub proof fn lemma_constrained_axis_is_isolated<T>(factor: T, one: T)
        ensures
            AxisConstraint::X.factors_of(factor, one).1 == one,
            AxisConstraint::Y.factors_of(factor, one).0 == one,
    {
    }
}

/// What a drag has taken hold of: an anchor, or the tip of one of its
/// handles. The number is the anchor's index.
#[derive(Clone, Copy, Debug, PartialEq, Eq, Structural)]
pub enum DragTarget {
    Anchor(usize),
    HandleIn(usize),
    HandleOut(usize),
}

impl DragTarget {
    /// Index of the anchor that the target belongs to.
    pub open spec fn anchor_of(self) -> usize {
        match self {
            DragTarget::Anchor(i) => i,
            DragTarget::HandleIn(i) => i,
            DragTarget::HandleOut(i) => i,
        }
    }

    /// Index of the anchor that the target belongs to.
    pub fn anchor_index(&self) -> (i: usize)
        ensures
            i == self.anchor_of(),
    {
        match self {
            DragTarget::Anchor(i) => *i,
            DragTarget::HandleIn(i) => *i,
            DragTarget::HandleOut(i) => *i,
        }
    }
}

/// Where a click landed.
#[derive(Clone, Copy, Debug, PartialEq, Eq, Structural)]
pub enum ClickTarget {
    /// The pointer position was not available.
    NoPointer,
    /// No anchor or handle was within reach.
    Empty,
    /// The nearest point within reach belongs to this anchor.
    Anchor(usize),
}

/// Where a drag began.
#[derive(Debug, PartialEq)]
pub struct DragStart<T> {
    /// Pointer position in screen coordinates.
    pub position: [T; 2],
    /// The nearest point within reach, if any.
    pub target: Option<DragTarget>,
}

impl<T: Copy> Clone for DragStart<T> {
    fn clone(&self) -> (r: Self)
        ensures
            r == *self,
    {
        *self
    }
}

impl<T: Copy> Copy for DragStart<T> {

}

/// The interaction mode. Each transform owns what it needs to recompute the
/// preview from scratch every frame and to undo it.
#[derive(Debug, PartialEq)]
pub enum BezierEditMode<T> {
    Idle,
    Grab {
        /// The anchors being moved.
        selected: [bool; 4],
        /// All four anchors as they were on entry.
        original_anchors: [BezierAnchor<T>; 4],
        /// Pointer position, in screen coordinates, on entry.
        grab_origin: [T; 2],
    },
    Scale {
        /// The anchors being scaled.
        selected: [bool; 4],
        /// All four anchors as they were on entry.
        original_anchors: [BezierAnchor<T>; 4],
        /// Centroid of the selection, in screen coordinates, on entry.
        pivot_screen_pos: [T; 2],
        /// Distance from the pivot to the pointer on entry.
        initial_mouse_dist: T,
        /// The axis that scaling is restricted to.
        axis: AxisConstraint,
    },
    Rotate {
        /// The anchors being rotated.
        selected: [bool; 4],
        /// All four anchors as they were on entry.
        original_anchors: [BezierAnchor<T>; 4],
        /// Centroid of the selection, in screen coordinates, on entry.
        pivot_screen_pos: [T; 2],
        /// Angle from the pivot to the pointer on entry.
        initial_mouse_angle: T,
    },
}

impl<T: Copy> Clone for BezierEditMode<T> {
    fn clone(&self) -> (r: Self)
        ensures
            r == *self,
    {
        *self
    }
}

impl<T: Copy> Copy for BezierEditMode<T> {

}

impl<T: Copy> BezierEditMode<T> {
    /// The anchors a transform works on; `None` when idle.
    pub open spec fn selection(self) -> Option<[bool; 4]> {
        match self {
            BezierEditMode::Idle => None,
            BezierEditMode::Grab { selected, .. } => Some(selected),
            BezierEditMode::Scale { selected, .. } => Some(selected),
            BezierEditMode::Rotate { selected, .. } => Some(selected),
        }
    }

    /// The anchors as they were when the transform was entered; `None` when
    /// idle.
    pub open spec fn snapshot(self) -> Option<[BezierAnchor<T>; 4]> {
        match self {
            BezierEditMode::Idle => None,
            BezierEditMode::Grab { original_anchors, .. } => Some(original_anchors),
            BezierEditMode::Scale { original_anchors, .. } => Some(original_anchors),
            BezierEditMode::Rotate { original_anchors, .. } => Some(original_anchors),
        }
    }

    /// Whether this frame's input cancels the transform. While scaling, a
    /// click pressed in the same frame as Escape wins and confirms.
    pub open spec fn cancels(self, primary_pressed: bool, escape_pressed: bool) -> bool {
        match self {
            BezierEditMode::Idle => false,
            BezierEditMode::Scale { .. } => escape_pressed && !primary_pressed,
            _ => escape_pressed,
        }
    }

    /// The mode with the scale axis updated by this frame's key presses.
    /// Other modes have no axis and stay as they are.
    pub open spec fn with_axis_keys(self, x_pressed: bool, y_pressed: bool) -> Self {
        match self {
            BezierEditMode::Scale {
                selected,
                original_anchors,
                pivot_screen_pos,
                initial_mouse_dist,
                axis,
            } => BezierEditMode::Scale {
                selected,
                original_anchors,
                pivot_screen_pos,
                initial_mouse_dist,
                axis: axis.after_keys(x_pressed, y_pressed),
            },
            _ => self,
        }
    }

    /// The selection and the snapshot of a transform; `None` when idle.
    pub fn transform_parts(&self) -> (r: Option<([bool; 4], [BezierAnchor<T>; 4])>)
        ensures
            r is None <==> *self is Idle,
            r matches Some(parts) ==> self.selection() == Some(parts.0) && self.snapshot() == Some(
                parts.1,
            ),
    {
        match self {
            BezierEditMode::Idle => None,
            BezierEditMode::Grab { selected, original_anchors, .. } => Some(
                (*selected, *original_anchors),
            ),
            BezierEditMode::Scale { selected, original_anchors, .. } => Some(
                (*selected, *original_anchors),
            ),
            BezierEditMode::Rotate { selected, original_anchors, .. } => Some(
                (*selected, *original_anchors),
            ),
        }
    }
}

/// The selection with no anchor in it.
pub open spec fn none_selected() -> [bool; 4] {
    [false, false, false, false]
}

/// The selection with every anchor in it.
pub open spec fn all_selected() -> [bool; 4] {
    [true, true, true, true]
}

/// The selection that holds anchor `i` alone.
pub open spec fn only_selected(i: int) -> [bool; 4] {
    [i == 0, i == 1, i == 2, i == 3]
}

/// The selection with the membership of anchor `i` flipped.
pub open spec fn toggle_selected(selected: [bool; 4], i: int) -> [bool; 4] {
    [
        selected[0] != (i == 0),
        selected[1] != (i == 1),
        selected[2] != (i == 2),
        selected[3] != (i == 3),
    ]
}

/// The four-anchor selections read as sets of indices: the empty set, all
/// four indices, the singleton of an index, and a set with one index put
/// in or taken out.
pub proof fn lemma_selection_sets(selected: [bool; 4], i: int)
    requires
        0 <= i < 4,
    ensures
        selected_indices(none_selected()@) == Set::<int>::empty(),
        selected_indices(all_selected()@) == Set::new(|k: int| 0 <= k < 4),
        selected_indices(only_selected(i)@) == Set::<int>::empty().insert(i),
        selected_indices(toggle_selected(selected, i)@) == (if selected[i] {
            selected_indices(selected@).remove(i)
        } else {
            selected_indices(selected@).insert(i)
        }),
        any_selected(selected@) <==> selected_indices(selected@) != Set::<int>::empty(),
{
    assert(selected_indices(none_selected()@) =~= Set::<int>::empty());
    assert(selected_indices(all_selected()@) =~= Set::new(|k: int| 0 <= k < 4));
    assert(selected_indices(only_selected(i)@) =~= Set::<int>::empty().insert(i));
    if selected[i] {
        assert(selected_indices(toggle_selected(selected, i)@) =~= selected_indices(
            selected@,
        ).remove(i));
    } else {
        assert(selected_indices(toggle_selected(selected, i)@) =~= selected_indices(
            selected@,
        ).insert(i));
    }
    if any_selected(selected@) {
        let k = choose|k: int| 0 <= k < selected@.len() && selected@[k];
        assert(selected_indices(selected@).contains(k));
    } else {
        assert(selected_indices(selected@) =~= Set::<int>::empty());
    }
}

/// The anchors of a preview: the selected ones come from `transformed`,
/// the others stay as they are in `current`.
pub open spec fn merged<T>(
    selected: [bool; 4],
    transformed: [BezierAnchor<T>; 4],
    current: [BezierAnchor<T>; 4],
) -> [BezierAnchor<T>; 4] {
    [
        if selected[0] {
            transformed[0]
        } else {
            current[0]
        },
        if selected[1] {
            transformed[1]
        } else {
            current[1]
        },
        if selected[2] {
            transformed[2]
        } else {
            current[2]
        },
        if selected[3] {
            transformed[3]
        } else {
            current[3]
        },
    ]
}

/// What the host computed of this frame's preview, for all four anchors.
#[derive(Debug, PartialEq)]
pub enum Preview<T> {
    /// The snapshot positions after a translation. A moved anchor keeps the
    /// handles of its snapshot: handles are offsets and travel with it.
    Moved([[T; 2]; 4]),
    /// The snapshot anchors after a scaling or a rotation, which act on
    /// positions and handles alike.
    Transformed([BezierAnchor<T>; 4]),
}

impl<T: Copy> Clone for Preview<T> {
    fn clone(&self) -> (r: Self)
        ensures
            r == *self,
    {
        *self
    }
}

impl<T: Copy> Copy for Preview<T> {

}

impl<T: Copy> Preview<T> {
    /// The four anchors that the preview shows in place of the snapshot.
    pub open spec fn anchors_over(self, snapshot: [BezierAnchor<T>; 4]) -> [BezierAnchor<T>; 4] {
        match self {
            Preview::Moved(positions) => [
                snapshot[0].moved_to(positions[0]),
                snapshot[1].moved_to(positions[1]),
                snapshot[2].moved_to(positions[2]),
                snapshot[3].moved_to(positions[3]),
            ],
            Preview::Transformed(anchors) => anchors,
        }
    }

    /// Builds the four anchors that the preview shows in place of the
    /// snapshot.
    pub fn over(&self, snapshot: &[BezierAnchor<T>; 4]) -> (shown: [BezierAnchor<T>; 4])
        ensures
            shown == self.anchors_over(*snapshot),
    {
        match self {
            Preview::Moved(positions) => {
                let shown = [
                    snapshot[0].with_position(positions[0]),
                    snapshot[1].with_position(positions[1]),
                    snapshot[2].with_position(positions[2]),
                    snapshot[3].with_position(positions[3]),
                ];
                assert(shown =~= self.anchors_over(*snapshot));
                shown
            },
            Preview::Transformed(anchors) => *anchors,
        }
    }
}

/// The value that an optional reference points at.
pub open spec fn pointee<A>(reference: Option<&A>) -> Option<A> {
    match reference {
        Some(value) => Some(*value),
        None => None,
    }
}

/// Copies all four anchors, to be put back if a transform is cancelled.
pub fn snapshot_all<T: Copy>(anchors: &[BezierAnchor<T>; 4]) -> (snaps: [BezierAnchor<T>; 4])
    ensures
        snaps == *anchors,
{
    *anchors
}

/// Puts a snapshot back: every anchor, selected or not, is as it was when
/// the snapshot was taken.
pub fn restore_all<T: Copy>(snaps: &[BezierAnchor<T>; 4], anchors: &mut [BezierAnchor<T>; 4])
    ensures
        *final(anchors) == *snaps,
{
    *anchors = *snaps;
}

/// Writes the transformed anchors over the selected ones and leaves the
/// others alone.
pub fn apply_to_selected<T: Copy>(
    anchors: &mut [BezierAnchor<T>; 4],
    selected: &[bool; 4],
    transformed: &[BezierAnchor<T>; 4],
)
    ensures
        *final(anchors) == merged(*selected, *transformed, *old(anchors)),
{
    let mut i: usize = 0;
    while i < 4
        invariant
            i <= 4,
            forall|j: int| 0 <= j < i ==> anchors[j] == merged(*selected, *transformed, *old(anchors))[j],
            forall|j: int| i <= j < 4 ==> anchors[j] == old(anchors)[j],
        decreases 4 - i,
    {
        if selected[i] {
            anchors[i] = transformed[i];
        }
        i = i + 1;
    }
    assert(*anchors =~= merged(*selected, *transformed, *old(anchors)));
}

/// The keys that act on an idle editor, as pressed in one frame.
#[derive(Clone, Copy, Debug, PartialEq, Eq, Structural)]
pub struct IdleKeys {
    /// Begin moving the selection.
    pub grab: bool,
    /// Begin scaling the selection.
    pub scale: bool,
    /// Begin rotating the selection.
    pub rotate: bool,
    /// Drop the selection.
    pub escape: bool,
    /// Select every anchor, or none if some are selected.
    pub select_all: bool,
}

/// What the host measured for a transform that may begin this frame.
#[derive(Debug, PartialEq)]
pub struct EntryMeasure<T> {
    /// Pointer position in screen coordinates, or the centre of the canvas
    /// when the pointer is away.
    pub grab_origin: [T; 2],
    /// Centroid of the selected anchors in screen coordinates.
    pub pivot: [T; 2],
    /// Distance from the pivot to the pointer, at least one pixel.
    pub initial_dist: T,
    /// Angle from the pivot to the pointer.
    pub initial_angle: T,
}

impl<T: Copy> Clone for EntryMeasure<T> {
    fn clone(&self) -> (r: Self)
        ensures
            r == *self,
    {
        *self
    }
}

impl<T: Copy> Copy for EntryMeasure<T> {

}

/// What an idle editor does on a frame's key presses.
#[derive(Clone, Copy, Debug, PartialEq, Eq, Structural)]
pub enum IdleCommand {
    Grab,
    Scale,
    Rotate,
    Deselect,
}

/// What the host has to do after a frame of an idle editor.
#[derive(Clone, Copy, Debug, PartialEq, Eq, Structural)]
pub struct IdleOutcome {
    /// Draw another frame.
    pub repaint: bool,
    /// Give up keyboard focus.
    pub surrender_focus: bool,
}

/// What the host feeds a transform in one frame: the axis keys first, then
/// the preview that it computed under the resulting constraint, then the
/// keys that end the transform.
pub struct TransformInput<T> {
    pub x_pressed: bool,
    pub y_pressed: bool,
    /// The snapshot under the transform as the pointer now stands; `None`
    /// when the pointer is away.
    pub preview: Option<Preview<T>>,
    pub primary_pressed: bool,
    pub escape_pressed: bool,
}

/// Interaction state of one editor. It lives as long as its widget and is
/// handed to the editor's functions every frame.
#[derive(Debug, PartialEq)]
pub struct BezierEditorState<T> {
    /// What the pointer is dragging, if anything.
    pub drag: Option<DragTarget>,
    /// Which anchors are selected.
    pub selected_anchors: [bool; 4],
    /// Idle, or the transform in progress.
    pub mode: BezierEditMode<T>,
    /// Set by a confirming click, so that the same click is not read as a
    /// new selection.
    pub skip_click_select: bool,
    /// Where a box selection began, in screen coordinates.
    pub box_select_origin: Option<[T; 2]>,
}

impl<T: Copy> Clone for BezierEditorState<T> {
    fn clone(&self) -> (r: Self)
        ensures
            r == *self,
    {
        *self
    }
}

impl<T: Copy> Copy for BezierEditorState<T> {

}

impl<T: Copy> Default for BezierEditorState<T> {
    /// A fresh editor: idle, nothing selected, nothing dragged.
    fn default() -> (state: Self)
        ensures
            state == Self::initial(),
            state.wf(),
    {
        let state = BezierEditorState {
            drag: None,
            selected_anchors: [false; 4],
            mode: BezierEditMode::Idle,
            skip_click_select: false,
            box_select_origin: None,
        };
        assert(state.selected_anchors =~= none_selected());
        state
    }
}

impl<T: Copy> BezierEditorState<T> {
    /// A drag holds an anchor that exists, and a transform works on at
    /// least one anchor.
    pub open spec fn wf(self) -> bool {
        &&& self.drag matches Some(target) ==> target.anchor_of() < 4
        &&& self.mode.selection() matches Some(selected) ==> any_selected(selected@)
    }

    /// The state of a fresh editor.
    pub open spec fn initial() -> Self {
        BezierEditorState {
            drag: None,
            selected_anchors: none_selected(),
            mode: BezierEditMode::Idle,
            skip_click_select: false,
            box_select_origin: None,
        }
    }

    /// The state after a click.
    ///
    /// Only an idle editor selects. A click that confirmed a transform is
    /// swallowed once. Otherwise a click within reach of an anchor selects
    /// that anchor alone, or with shift held flips its membership; a click
    /// on empty space clears the selection.
    pub open spec fn after_click(self, target: ClickTarget, shift: bool) -> Self {
        if !(self.mode is Idle) {
            self
        } else if self.skip_click_select {
            BezierEditorState { skip_click_select: false, ..self }
        } else {
            match target {
                ClickTarget::NoPointer => self,
                ClickTarget::Empty => BezierEditorState {
                    selected_anchors: none_selected(),
                    ..self
                },
                ClickTarget::Anchor(i) => BezierEditorState {
                    selected_anchors: if shift {
                        toggle_selected(self.selected_anchors, i as int)
                    } else {
                        only_selected(i as int)
                    },
                    ..self
                },
            }
        }
    }

    /// Whether a click selects an anchor, in which case the editor asks for
    /// keyboard focus.
    pub open spec fn click_takes_focus(self, target: ClickTarget) -> bool {
        self.mode is Idle && !self.skip_click_select && target is Anchor
    }

    /// The state after a drag began. A drag that begins on empty space
    /// starts a box selection there.
    pub open spec fn after_drag_start(self, pointer: Option<DragStart<T>>) -> Self {
        match pointer {
            Some(start) if self.mode is Idle => BezierEditorState {
                drag: start.target,
                box_select_origin: if start.target is None {
                    Some(start.position)
                } else {
                    self.box_select_origin
                },
                ..self
            },
            _ => self,
        }
    }

    /// The state after a drag ended. `inside` tells, for a box selection,
    /// which anchors lie in the box; it is `None` when the pointer position
    /// was not available. A box selection replaces the selection.
    pub open spec fn after_drag_stop(self, inside: Option<[bool; 4]>) -> Self {
        if !(self.mode is Idle) {
            self
        } else {
            BezierEditorState {
                drag: None,
                box_select_origin: None,
                selected_anchors: match inside {
                    Some(flags) if self.box_select_origin is Some => flags,
                    _ => self.selected_anchors,
                },
                ..self
            }
        }
    }

    /// Whether the end of a drag selected an anchor, in which case the
    /// editor asks for keyboard focus.
    pub open spec fn drag_stop_takes_focus(self, inside: Option<[bool; 4]>) -> bool {
        &&& self.mode is Idle
        &&& self.box_select_origin is Some
        &&& inside matches Some(flags)
        &&& any_selected(flags@)
    }

    /// What the transform keys do this frame. They act only on an idle
    /// editor that has keyboard focus and a selection, and one at a time:
    /// grab goes before scale, scale before rotate, rotate before Escape.
    pub open spec fn command(self, has_focus: bool, keys: IdleKeys) -> Option<IdleCommand> {
        if !(self.mode is Idle) || !has_focus || !any_selected(self.selected_anchors@) {
            None
        } else if keys.grab {
            Some(IdleCommand::Grab)
        } else if keys.scale {
            Some(IdleCommand::Scale)
        } else if keys.rotate {
            Some(IdleCommand::Rotate)
        } else if keys.escape {
            Some(IdleCommand::Deselect)
        } else {
            None
        }
    }

    /// The state after a command. Entering a transform snapshots all four
    /// anchors, not only the selected ones.
    pub open spec fn after_command(
        self,
        command: Option<IdleCommand>,
        anchors: [BezierAnchor<T>; 4],
        measure: EntryMeasure<T>,
    ) -> Self {
        match command {
            Some(IdleCommand::Grab) => BezierEditorState {
                mode: BezierEditMode::Grab {
                    selected: self.selected_anchors,
                    original_anchors: anchors,
                    grab_origin: measure.grab_origin,
                },
                ..self
            },
            Some(IdleCommand::Scale) => BezierEditorState {
                mode: BezierEditMode::Scale {
                    selected: self.selected_anchors,
                    original_anchors: anchors,
                    pivot_screen_pos: measure.pivot,
                    initial_mouse_dist: measure.initial_dist,
                    axis: AxisConstraint::Free,
                },
                ..self
            },
            Some(IdleCommand::Rotate) => BezierEditorState {
                mode: BezierEditMode::Rotate {
                    selected: self.selected_anchors,
                    original_anchors: anchors,
                    pivot_screen_pos: measure.pivot,
                    initial_mouse_angle: measure.initial_angle,
                },
                ..self
            },
            Some(IdleCommand::Deselect) => BezierEditorState {
                selected_anchors: none_selected(),
                ..self
            },
            None => self,
        }
    }

    /// The state after the select-all key: nothing selected if anything
    /// was, everything selected if nothing was.
    pub open spec fn after_select_all(self) -> Self {
        BezierEditorState {
            selected_anchors: if any_selected(self.selected_anchors@) {
                none_selected()
            } else {
                all_selected()
            },
            ..self
        }
    }

    /// The state after one frame's key presses on an idle editor: first the
    /// command, then the select-all key, which needs focus but no
    /// selection.
    pub open spec fn after_idle_keys(
        self,
        anchors: [BezierAnchor<T>; 4],
        has_focus: bool,
        keys: IdleKeys,
        measure: EntryMeasure<T>,
    ) -> Self {
        if !(self.mode is Idle) {
            self
        } else {
            let commanded = self.after_command(self.command(has_focus, keys), anchors, measure);
            if has_focus && keys.select_all {
                commanded.after_select_all()
            } else {
                commanded
            }
        }
    }

    /// What the host has to do after one frame's key presses on an idle
    /// editor.
    pub open spec fn idle_outcome(self, has_focus: bool, keys: IdleKeys) -> IdleOutcome {
        let command = self.command(has_focus, keys);
        IdleOutcome {
            repaint: self.mode is Idle && (command is Some && command != Some(IdleCommand::Deselect)
                || has_focus && keys.select_all),
            surrender_focus: command == Some(IdleCommand::Deselect),
        }
    }

    /// The state after the axis keys.
    pub open spec fn after_axis_keys(self, x_pressed: bool, y_pressed: bool) -> Self {
        BezierEditorState { mode: self.mode.with_axis_keys(x_pressed, y_pressed), ..self }
    }

    /// The state after one frame of a transform: a click or Escape ends it,
    /// and a click is remembered so that it does not select.
    pub open spec fn after_transform_frame(self, primary_pressed: bool, escape_pressed: bool) -> Self {
        if self.mode is Idle {
            self
        } else {
            BezierEditorState {
                mode: if primary_pressed || escape_pressed {
                    BezierEditMode::Idle
                } else {
                    self.mode
                },
                skip_click_select: primary_pressed || self.skip_click_select,
                ..self
            }
        }
    }

    /// The anchors after one frame of a transform.
    ///
    /// A cancelled transform leaves the snapshot. Otherwise the selected
    /// anchors take what the preview shows for them, when the host could
    /// compute one, and the other anchors are not written to.
    pub open spec fn frame_anchors(
        self,
        anchors: [BezierAnchor<T>; 4],
        preview: Option<Preview<T>>,
        primary_pressed: bool,
        escape_pressed: bool,
    ) -> [BezierAnchor<T>; 4] {
        match (self.mode.selection(), self.mode.snapshot()) {
            (Some(selected), Some(original)) => {
                if self.mode.cancels(primary_pressed, escape_pressed) {
                    original
                } else {
                    match preview {
                        Some(shown) => merged(selected, shown.anchors_over(original), anchors),
                        None => anchors,
                    }
                }
            },
            _ => anchors,
        }
    }

    /// State and anchors after one whole frame of a transform.
    pub open spec fn after_frame(
        self,
        anchors: [BezierAnchor<T>; 4],
        input: TransformInput<T>,
    ) -> (Self, [BezierAnchor<T>; 4]) {
        let keyed = self.after_axis_keys(input.x_pressed, input.y_pressed);
        (
            keyed.after_transform_frame(input.primary_pressed, input.escape_pressed),
            keyed.frame_anchors(
                anchors,
                input.preview,
                input.primary_pressed,
                input.escape_pressed,
            ),
        )
    }

    /// State and anchors after a run of frames, the first input first.
    pub open spec fn after_frames(
        self,
        anchors: [BezierAnchor<T>; 4],
        inputs: Seq<TransformInput<T>>,
    ) -> (Self, [BezierAnchor<T>; 4])
        decreases inputs.len(),
    {
        if inputs.len() == 0 {
            (self, anchors)
        } else {
            let (state, previewed) = self.after_frames(anchors, inputs.drop_last());
            state.after_frame(previewed, inputs.last())
        }
    }

    /// Whether no frame of a run confirms or cancels.
    pub open spec fn keeps_going(inputs: Seq<TransformInput<T>>) -> bool {
        forall|k: int|
            0 <= k < inputs.len() ==> !inputs[k].primary_pressed && !inputs[k].escape_pressed
    }

    /// A run of frames that neither confirms nor cancels stays in the
    /// transform, keeps its selection and its snapshot, and writes to no
    /// anchor outside the selection.
    pub proof fn lemma_frames_keep_snapshot(
        self,
        anchors: [BezierAnchor<T>; 4],
        inputs: Seq<TransformInput<T>>,
    )
        requires
            !(self.mode is Idle),
            Self::keeps_going(inputs),
        ensures
            ({
                let (state, previewed) = self.after_frames(anchors, inputs);
                &&& state.mode.snapshot() == self.mode.snapshot()
                &&& state.mode.selection() == self.mode.selection()
                &&& forall|i: int|
                    0 <= i < 4 && !self.mode.selection().unwrap()[i] ==> previewed[i] == anchors[i]
            }),
        decreases inputs.len(),
    {
        if inputs.len() > 0 {
            self.lemma_frames_keep_snapshot(anchors, inputs.drop_last());
            assert(!inputs.last().primary_pressed && !inputs.last().escape_pressed);
        }
    }

    /// A run of frames that neither confirms nor cancels stays in the kind
    /// of transform that it began in.
    pub proof fn lemma_frames_keep_mode(
        self,
        anchors: [BezierAnchor<T>; 4],
        inputs: Seq<TransformInput<T>>,
    )
        requires
            Self::keeps_going(inputs),
        ensures
            ({
                let state = self.after_frames(anchors, inputs).0;
                &&& state.mode is Idle <==> self.mode is Idle
                &&& state.mode is Grab <==> self.mode is Grab
                &&& state.mode is Scale <==> self.mode is Scale
                &&& state.mode is Rotate <==> self.mode is Rotate
            }),
        decreases inputs.len(),
    {
        if inputs.len() > 0 {
            self.lemma_frames_keep_mode(anchors, inputs.drop_last());
            assert(!inputs.last().primary_pressed && !inputs.last().escape_pressed);
        }
    }

    /// Rollback is exact: enter any transform, let the pointer move for any
    /// number of frames, then cancel, and all four anchors are what they
    /// were on entry, whatever the previews wrote and whatever the outline
    /// holds when Escape is pressed. Escape cancels unless a scale is
    /// confirmed by a click in the same frame.
    pub proof fn lemma_cancel_restores_entry(
        self,
        anchors: [BezierAnchor<T>; 4],
        has_focus: bool,
        keys: IdleKeys,
        measure: EntryMeasure<T>,
        inputs: Seq<TransformInput<T>>,
        current: [BezierAnchor<T>; 4],
        cancel: TransformInput<T>,
    )
        requires
            self.mode is Idle,
            !(self.after_idle_keys(anchors, has_focus, keys, measure).mode is Idle),
            Self::keeps_going(inputs),
            cancel.escape_pressed,
            cancel.primary_pressed ==> self.command(has_focus, keys) != Some(IdleCommand::Scale),
        ensures
            ({
                let entered = self.after_idle_keys(anchors, has_focus, keys, measure);
                let (state, previewed) = entered.after_frames(anchors, inputs);
                &&& state.after_frame(previewed, cancel).1 == anchors
                &&& state.after_frame(current, cancel).1 == anchors
                &&& state.after_frame(current, cancel).0.mode is Idle
            }),
    {
        let entered = self.after_idle_keys(anchors, has_focus, keys, measure);
        entered.lemma_frames_keep_snapshot(anchors, inputs);
        entered.lemma_frames_keep_mode(anchors, inputs);
    }

    /// A preview that shows every selected anchor as its snapshot has it
    /// leaves the outline equal to the snapshot, however the pointer moved
    /// before.
    pub proof fn lemma_identity_preview_matches_entry(
        self,
        anchors: [BezierAnchor<T>; 4],
        has_focus: bool,
        keys: IdleKeys,
        measure: EntryMeasure<T>,
        inputs: Seq<TransformInput<T>>,
        back: TransformInput<T>,
    )
        requires
            self.mode is Idle,
            !(self.after_idle_keys(anchors, has_focus, keys, measure).mode is Idle),
            Self::keeps_going(inputs),
            !back.primary_pressed,
            !back.escape_pressed,
            back.preview matches Some(shown) && forall|i: int|
                0 <= i < 4 && self.selected_anchors[i] ==> shown.anchors_over(anchors)[i]
                    == anchors[i],
        ensures
            ({
                let entered = self.after_idle_keys(anchors, has_focus, keys, measure);
                let (state, previewed) = entered.after_frames(anchors, inputs);
                state.after_frame(previewed, back).1 == anchors
            }),
    {
        let entered = self.after_idle_keys(anchors, has_focus, keys, measure);
        entered.lemma_frames_keep_snapshot(anchors, inputs);
        let (state, previewed) = entered.after_frames(anchors, inputs);
        assert(state.after_frame(previewed, back).1 =~= anchors);
    }

    /// A grab whose pointer is back where it began, so that every moved
    /// position is the snapshot position, shows the snapshot itself: the
    /// outline equals the snapshot, however the pointer moved before.
    pub proof fn lemma_grab_at_origin_matches_entry(
        self,
        anchors: [BezierAnchor<T>; 4],
        has_focus: bool,
        keys: IdleKeys,
        measure: EntryMeasure<T>,
        inputs: Seq<TransformInput<T>>,
        positions: [[T; 2]; 4],
    )
        requires
            self.mode is Idle,
            self.command(has_focus, keys) == Some(IdleCommand::Grab),
            Self::keeps_going(inputs),
            forall|i: int| 0 <= i < 4 ==> positions[i] == anchors[i].position,
        ensures
            ({
                let entered = self.after_idle_keys(anchors, has_focus, keys, measure);
                let (state, previewed) = entered.after_frames(anchors, inputs);
                let back = TransformInput {
                    x_pressed: false,
                    y_pressed: false,
                    preview: Some(Preview::Moved(positions)),
                    primary_pressed: false,
                    escape_pressed: false,
                };
                &&& state.mode is Grab
                &&& state.after_frame(previewed, back).1 == anchors
            }),
    {
        let back = TransformInput {
            x_pressed: false,
            y_pressed: false,
            preview: Some(Preview::Moved(positions)),
            primary_pressed: false,
            escape_pressed: false,
        };
        let entered = self.after_idle_keys(anchors, has_focus, keys, measure);
        assert(entered.mode is Grab);
        entered.lemma_frames_keep_snapshot(anchors, inputs);
        entered.lemma_frames_keep_mode(anchors, inputs);
        assert(Preview::Moved(positions).anchors_over(anchors) =~= anchors);
        self.lemma_identity_preview_matches_entry(anchors, has_focus, keys, measure, inputs, back);
    }

    /// Whether any anchor is selected.
    pub fn has_selection(&self) -> (b: bool)
        ensures
            b == any_selected(self.selected_anchors@),
    {
        any_flag(&self.selected_anchors)
    }

    /// How many anchors are selected.
    pub fn selection_count(&self) -> (n: usize)
        ensures
            n == count_selected(self.selected_anchors@),
    {
        count_flags(&self.selected_anchors)
    }

    /// Deselects every anchor.
    pub fn clear_selection(&mut self)
        ensures
            *final(self) == (BezierEditorState { selected_anchors: none_selected(), ..*old(self) }),
    {
        self.selected_anchors = [false; 4];
        assert(self.selected_anchors =~= none_selected());
    }

    /// Whether the editor is idle.
    pub fn is_idle(&self) -> (b: bool)
        ensures
            b == (self.mode is Idle),
    {
        match self.mode {
            BezierEditMode::Idle => true,
            _ => false,
        }
    }

    /// Whether the point under the pointer is to be highlighted: only while
    /// idle and not dragging.
    pub fn hover_enabled(&self) -> (b: bool)
        ensures
            b == (self.mode is Idle && self.drag is None),
    {
        self.is_idle() && self.drag.is_none()
    }

    /// Handles a click. Returns whether the editor asks for keyboard focus.
    pub fn click(&mut self, target: ClickTarget, shift: bool) -> (focus: bool)
        requires
            target matches ClickTarget::Anchor(i) ==> i < 4,
        ensures
            *final(self) == old(self).after_click(target, shift),
            focus == old(self).click_takes_focus(target),
            old(self).wf() ==> final(self).wf(),
    {
        if !self.is_idle() {
            return false;
        }
        if self.skip_click_select {
            self.skip_click_select = false;
            return false;
        }
        match target {
            ClickTarget::NoPointer => false,
            ClickTarget::Empty => {
                self.clear_selection();
                false
            },
            ClickTarget::Anchor(i) => {
                if shift {
                    self.selected_anchors[i] = !self.selected_anchors[i];
                    assert(self.selected_anchors =~= toggle_selected(
                        old(self).selected_anchors,
                        i as int,
                    ));
                } else {
                    self.selected_anchors = [false; 4];
                    self.selected_anchors[i] = true;
                    assert(self.selected_anchors =~= only_selected(i as int));
                }
                true
            },
        }
    }

    /// Handles the start of a drag. `pointer` is `None` when the pointer
    /// position was not available.
    pub fn drag_start(&mut self, pointer: Option<DragStart<T>>)
        requires
            pointer matches Some(start) ==> (start.target matches Some(target)
                ==> target.anchor_of() < 4),
        ensures
            *final(self) == old(self).after_drag_start(pointer),
            old(self).wf() ==> final(self).wf(),
    {
        if !self.is_idle() {
            return ;
        }
        if let Some(start) = pointer {
            self.drag = start.target;
            if start.target.is_none() {
                self.box_select_origin = Some(start.position);
            }
        }
    }

    /// What the pointer is dragging this frame: the held target, while the
    /// editor is idle and the pointer is being dragged.
    pub fn active_drag(&self, dragged: bool) -> (target: Option<DragTarget>)
        ensures
            target == (if self.mode is Idle && dragged {
                self.drag
            } else {
                None
            }),
    {
        if self.is_idle() && dragged {
            self.drag
        } else {
            None
        }
    }

    /// Whether a box selection is being dragged out this frame.
    pub fn box_selecting(&self, dragged: bool) -> (b: bool)
        ensures
            b == (self.mode is Idle && dragged && self.box_select_origin is Some),
    {
        self.is_idle() && dragged && self.box_select_origin.is_some()
    }

    /// Handles the end of a drag. Returns whether the editor asks for
    /// keyboard focus.
    pub fn drag_stop(&mut self, inside: Option<[bool; 4]>) -> (focus: bool)
        ensures
            *final(self) == old(self).after_drag_stop(inside),
            focus == old(self).drag_stop_takes_focus(inside),
            old(self).wf() ==> final(self).wf(),
    {
        if !self.is_idle() {
            return false;
        }
        let mut focus = false;
        if self.box_select_origin.is_some() {
            self.box_select_origin = None;
            if let Some(flags) = inside {
                self.selected_anchors = flags;
                focus = any_flag(&flags);
            }
        }
        self.drag = None;
        focus
    }

    /// Decides what the transform keys do this frame.
    pub fn idle_command(&self, has_focus: bool, keys: IdleKeys) -> (command: Option<IdleCommand>)
        ensures
            command == self.command(has_focus, keys),
    {
        if !self.is_idle() || !has_focus || !self.has_selection() {
            None
        } else if keys.grab {
            Some(IdleCommand::Grab)
        } else if keys.scale {
            Some(IdleCommand::Scale)
        } else if keys.rotate {
            Some(IdleCommand::Rotate)
        } else if keys.escape {
            Some(IdleCommand::Deselect)
        } else {
            None
        }
    }

    /// Handles one frame's key presses on an idle editor; does nothing in a
    /// transform.
    ///
    /// `anchors` are the outline's anchors, which a transform that begins
    /// now snapshots. `measure` holds what that transform records of the
    /// pointer.
    pub fn idle_keys(
        &mut self,
        anchors: &[BezierAnchor<T>; 4],
        has_focus: bool,
        keys: IdleKeys,
        measure: &EntryMeasure<T>,
    ) -> (outcome: IdleOutcome)
        ensures
            *final(self) == old(self).after_idle_keys(*anchors, has_focus, keys, *measure),
            outcome == old(self).idle_outcome(has_focus, keys),
            old(self).wf() ==> final(self).wf(),
    {
        if !self.is_idle() {
            return IdleOutcome { repaint: false, surrender_focus: false };
        }
        let command = self.idle_command(has_focus, keys);
        let mut outcome = IdleOutcome { repaint: false, surrender_focus: false };
        match command {
            Some(IdleCommand::Grab) => {
                self.mode = BezierEditMode::Grab {
                    selected: self.selected_anchors,
                    original_anchors: snapshot_all(anchors),
                    grab_origin: measure.grab_origin,
                };
                outcome.repaint = true;
            },
            Some(IdleCommand::Scale) => {
                self.mode = BezierEditMode::Scale {
                    selected: self.selected_anchors,
                    original_anchors: snapshot_all(anchors),
                    pivot_screen_pos: measure.pivot,
                    initial_mouse_dist: measure.initial_dist,
                    axis: AxisConstraint::Free,
                };
                outcome.repaint = true;
            },
            Some(IdleCommand::Rotate) => {
                self.mode = BezierEditMode::Rotate {
                    selected: self.selected_anchors,
                    original_anchors: snapshot_all(anchors),
                    pivot_screen_pos: measure.pivot,
                    initial_mouse_angle: measure.initial_angle,
                };
                outcome.repaint = true;
            },
            Some(IdleCommand::Deselect) => {
                self.clear_selection();
                outcome.surrender_focus = true;
            },
            None => {},
        }
        if has_focus && keys.select_all {
            if self.has_selection() {
                self.selected_anchors = [false; 4];
                assert(self.selected_anchors =~= none_selected());
            } else {
                self.selected_anchors = [true; 4];
                assert(self.selected_anchors =~= all_selected());
            }
            outcome.repaint = true;
        }
        outcome
    }

    /// Applies one frame's presses of the X and Y keys to a scale in
    /// progress; does nothing in any other mode.
    pub fn scale_axis_keys(&mut self, x_pressed: bool, y_pressed: bool)
        ensures
            *final(self) == old(self).after_axis_keys(x_pressed, y_pressed),
            old(self).wf() ==> final(self).wf(),
    {
        if let BezierEditMode::Scale {
            selected,
            original_anchors,
            pivot_screen_pos,
            initial_mouse_dist,
            axis,
        } = self.mode {
            self.mode = BezierEditMode::Scale {
                selected,
                original_anchors,
                pivot_screen_pos,
                initial_mouse_dist,
                axis: axis.toggle_keys(x_pressed, y_pressed),
            };
        }
    }

    /// Runs one frame of the transform in progress; does nothing when idle.
    ///
    /// `preview` holds what the host computed from the snapshot as the
    /// pointer now stands; it is `None` when the pointer is away. The
    /// selected anchors are overwritten with what it shows. Then a click
    /// confirms the transform and Escape cancels it, putting every anchor
    /// back as it was on entry. Returns whether to draw another frame.
    pub fn transform_frame(
        &mut self,
        anchors: &mut [BezierAnchor<T>; 4],
        preview: Option<&Preview<T>>,
        primary_pressed: bool,
        escape_pressed: bool,
    ) -> (repaint: bool)
        ensures
            *final(self) == old(self).after_transform_frame(primary_pressed, escape_pressed),
            *final(anchors) == old(self).frame_anchors(
                *old(anchors),
                pointee(preview),
                primary_pressed,
                escape_pressed,
            ),
            repaint == !(old(self).mode is Idle),
            old(self).wf() ==> final(self).wf(),
    {
        let (selected, original) = match self.mode.transform_parts() {
            Some(parts) => parts,
            None => {
                return false;
            },
        };
        if let Some(shown) = preview {
            let transformed = shown.over(&original);
            apply_to_selected(anchors, &selected, &transformed);
        }
        let scaling = match self.mode {
            BezierEditMode::Scale { .. } => true,
            _ => false,
        };
        if primary_pressed {
            self.mode = BezierEditMode::Idle;
            self.skip_click_select = true;
        }
        if escape_pressed && !(scaling && primary_pressed) {
            restore_all(&original, anchors);
            self.mode = BezierEditMode::Idle;
        }
        true
    }
}

} // verus!
