//! Per-eye state and the links that keep the two eyes alike.
//!
//! The parameters of an eye fall into four sections: the eye shape, the iris
//! with the pupil and the gaze, the eyebrow, and the eyelash. Each section
//! is either linked, so that both eyes share it and the left eye is the one
//! edited, or unlinked with one side active.

use crate::outline::{EyeShape, EyebrowShape, EyelashShape, IrisShape, PupilShape};
use crate::renderer::EyeUniforms;
use vstd::prelude::*;

verus! {

/// What the control panel asks its host to do.
#[derive(Debug)]
pub struct GuiActions {
    /// The user asked to export the configuration.
    pub export_requested: bool,
}

impl Default for GuiActions {
    fn default() -> (actions: Self)
        ensures
            !actions.export_requested,
    {
        GuiActions { export_requested: false }
    }
}

/// One of the two eyes.
#[derive(Clone, Copy, Debug, PartialEq, Eq, Structural)]
pub enum Side {
    Left,
    Right,
}

/// Whether the two eyes share a section's parameters.
#[derive(Clone, Copy, Debug, PartialEq, Eq, Structural)]
pub struct SectionLink {
    pub linked: bool,
    /// The eye being edited while the section is unlinked.
    pub active: Side,
}

/// Which of the selector's three labels were clicked in one frame.
#[derive(Clone, Copy, Debug, PartialEq, Eq, Structural)]
pub struct SelectorClicks {
    pub both: bool,
    pub left: bool,
    pub right: bool,
}

impl Default for SectionLink {
    fn default() -> (link: Self)
        ensures
            link == SectionLink::linked_spec(),
    {
        SectionLink { linked: true, active: Side::Left }
    }
}

impl SectionLink {
    /// A linked section; the left eye is the one that would be active.
    pub open spec fn linked_spec() -> SectionLink {
        SectionLink { linked: true, active: Side::Left }
    }

    /// Whether edits go to the left eye: always when linked, otherwise when
    /// the left side is active.
    pub open spec fn edits_left_spec(self) -> bool {
        self.linked || self.active == Side::Left
    }

    /// The link after the click on the label for both eyes.
    pub open spec fn after_both(self) -> SectionLink {
        SectionLink { linked: true, ..self }
    }

    /// The link after the click on the label of `side`.
    pub open spec fn after_side(self, side: Side) -> SectionLink {
        SectionLink { linked: false, active: side }
    }

    /// The link after one frame of the selector. The labels are looked at
    /// in the order both, left, right.
    pub open spec fn after_clicks(self, clicks: SelectorClicks) -> SectionLink {
        let after_both = if clicks.both {
            self.after_both()
        } else {
            self
        };
        let after_left = if clicks.left {
            after_both.after_side(Side::Left)
        } else {
            after_both
        };
        if clicks.right {
            after_left.after_side(Side::Right)
        } else {
            after_left
        }
    }

    /// The side whose values the other eye is to take over: set when an
    /// unlinked section was linked again, to the side that was active.
    pub open spec fn relinked_from(self, clicks: SelectorClicks) -> Option<Side> {
        if clicks.both && !self.linked {
            Some(self.active)
        } else {
            None
        }
    }

    /// The suffix that tells apart the editors of a section: none for the
    /// editor shared by both eyes, and one for each eye's own.
    pub open spec fn suffix_of(self) -> Seq<char> {
        if self.linked {
            ""@
        } else if self.active == Side::Left {
            "_left"@
        } else {
            "_right"@
        }
    }

    /// The suffix of the editor that the section shows. An editor keeps
    /// its selection and mode under a key that ends in this suffix, so the
    /// shared editor and the two eyes' own editors never share state.
    pub fn side_suffix(&self) -> (suffix: &'static str)
        ensures
            suffix@ == self.suffix_of(),
    {
        if self.linked {
            ""
        } else if self.active == Side::Left {
            "_left"
        } else {
            "_right"
        }
    }

    /// Two links show the same editor only if they agree on what is
    /// edited: both are linked, or both are unlinked with the same side
    /// active.
    pub proof fn lemma_suffix_tells_editors_apart(self, other: SectionLink)
        requires
            self.suffix_of() == other.suffix_of(),
        ensures
            self.linked == other.linked,
            !self.linked ==> self.active == other.active,
    {
        reveal_strlit("");
        reveal_strlit("_left");
        reveal_strlit("_right");
        assert(""@.len() == 0);
        assert("_left"@.len() == 5);
        assert("_right"@.len() == 6);
    }

    /// Whether edits go to the left eye.
    pub fn edits_left(&self) -> (b: bool)
        ensures
            b == self.edits_left_spec(),
    {
        self.linked || self.active == Side::Left
    }

    /// The eye that edits go to.
    pub fn edited_side(&self) -> (side: Side)
        ensures
            side == (if self.edits_left_spec() {
                Side::Left
            } else {
                Side::Right
            }),
    {
        if self.edits_left() {
            Side::Left
        } else {
            Side::Right
        }
    }
}

/// Applies one frame of the both / left / right selector of a section.
///
/// Returns the side to copy from when the section was linked again, so that
/// both eyes start out alike.
pub fn section_eye_selector(link: &mut SectionLink, clicks: SelectorClicks) -> (relink_from: Option<
    Side,
>)
    ensures
        *final(link) == old(link).after_clicks(clicks),
        relink_from == old(link).relinked_from(clicks),
{
    let mut relink_from = None;
    if clicks.both && !link.linked {
        relink_from = Some(link.active);
        link.linked = true;
    }
    if clicks.left {
        link.linked = false;
        link.active = Side::Left;
    }
    if clicks.right {
        link.linked = false;
        link.active = Side::Right;
    }
    relink_from
}

/// All parameters of one eye.
#[derive(Debug, PartialEq)]
pub struct EyeSideState<T> {
    pub uniforms: EyeUniforms<T>,
    pub eye_shape: EyeShape<T>,
    pub eyebrow_shape: EyebrowShape<T>,
    pub eyelash_shape: EyelashShape<T>,
    pub iris_shape: IrisShape<T>,
    pub pupil_shape: PupilShape<T>,
}

impl<T: Copy> Clone for EyeSideState<T> {
    fn clone(&self) -> (r: Self)
        ensures
            r == *self,
    {
        *self
    }
}

impl<T: Copy> Copy for EyeSideState<T> {

}

/// One of the four groups of parameters that can be linked.
#[derive(Clone, Copy, Debug, PartialEq, Eq, Structural)]
pub enum Section {
    Shape,
    Iris,
    Eyebrow,
    Eyelash,
}

impl<T: Copy> EyeSideState<T> {
    /// This eye with the eye shape section taken from `from`.
    pub open spec fn with_shape_of(self, from: Self) -> Self {
        EyeSideState {
            uniforms: EyeUniforms { eyelid_close: from.uniforms.eyelid_close, ..self.uniforms },
            eye_shape: from.eye_shape,
            ..self
        }
    }

    /// This eye with the iris section taken from `from`: iris, pupil and
    /// gaze.
    pub open spec fn with_iris_of(self, from: Self) -> Self {
        EyeSideState {
            uniforms: EyeUniforms {
                iris_color: from.uniforms.iris_color,
                iris_radius: from.uniforms.iris_radius,
                iris_follow: from.uniforms.iris_follow,
                look_x: from.uniforms.look_x,
                look_y: from.uniforms.look_y,
                pupil_color: from.uniforms.pupil_color,
                pupil_radius: from.uniforms.pupil_radius,
                ..self.uniforms
            },
            iris_shape: from.iris_shape,
            pupil_shape: from.pupil_shape,
            ..self
        }
    }

    /// This eye with the eyebrow section taken from `from`.
    pub open spec fn with_eyebrow_of(self, from: Self) -> Self {
        EyeSideState { eyebrow_shape: from.eyebrow_shape, ..self }
    }

    /// This eye with the eyelash section taken from `from`.
    pub open spec fn with_eyelash_of(self, from: Self) -> Self {
        EyeSideState { eyelash_shape: from.eyelash_shape, ..self }
    }

    /// This eye with one section taken from `from`.
    pub open spec fn with_section_of(self, section: Section, from: Self) -> Self {
        match section {
            Section::Shape => self.with_shape_of(from),
            Section::Iris => self.with_iris_of(from),
            Section::Eyebrow => self.with_eyebrow_of(from),
            Section::Eyelash => self.with_eyelash_of(from),
        }
    }

    /// This eye with the parameters that both eyes share by rule taken
    /// from `from`: the background, the separation and the two angles.
    pub open spec fn with_global_of(self, from: Self) -> Self {
        EyeSideState {
            uniforms: EyeUniforms {
                bg_color: from.uniforms.bg_color,
                eye_separation: from.uniforms.eye_separation,
                max_angle: from.uniforms.max_angle,
                eye_angle: from.uniforms.eye_angle,
                ..self.uniforms
            },
            ..self
        }
    }

    /// A freshly reset eye: all of `fresh` but the two values that follow
    /// the window and the clock, which are those of `keep`.
    pub open spec fn reset_from(fresh: Self, keep: Self) -> Self {
        EyeSideState {
            uniforms: EyeUniforms {
                aspect_ratio: keep.uniforms.aspect_ratio,
                time: keep.uniforms.time,
                ..fresh.uniforms
            },
            ..fresh
        }
    }
}

/// Copies the eye shape section from one eye to the other.
pub fn sync_shape<T: Copy>(from: &EyeSideState<T>, to: &mut EyeSideState<T>)
    ensures
        *final(to) == old(to).with_shape_of(*from),
{
    to.uniforms.eyelid_close = from.uniforms.eyelid_close;
    to.eye_shape = from.eye_shape;
}

/// Copies the iris section from one eye to the other.
pub fn sync_iris<T: Copy>(from: &EyeSideState<T>, to: &mut EyeSideState<T>)
    ensures
        *final(to) == old(to).with_iris_of(*from),
{
    to.uniforms.iris_color = from.uniforms.iris_color;
    to.uniforms.iris_radius = from.uniforms.iris_radius;
    to.uniforms.iris_follow = from.uniforms.iris_follow;
    to.uniforms.look_x = from.uniforms.look_x;
    to.uniforms.look_y = from.uniforms.look_y;
    to.uniforms.pupil_color = from.uniforms.pupil_color;
    to.uniforms.pupil_radius = from.uniforms.pupil_radius;
    to.iris_shape = from.iris_shape;
    to.pupil_shape = from.pupil_shape;
}

/// Copies the eyebrow section from one eye to the other.
pub fn sync_eyebrow<T: Copy>(from: &EyeSideState<T>, to: &mut EyeSideState<T>)
    ensures
        *final(to) == old(to).with_eyebrow_of(*from),
{
    to.eyebrow_shape = from.eyebrow_shape;
}

/// Copies the eyelash section from one eye to the other.
pub fn sync_eyelash<T: Copy>(from: &EyeSideState<T>, to: &mut EyeSideState<T>)
    ensures
        *final(to) == old(to).with_eyelash_of(*from),
{
    to.eyelash_shape = from.eyelash_shape;
}

/// Copies the parameters that both eyes share by rule from one eye to the
/// other. They are edited on the left eye and follow on the right.
pub fn sync_global<T: Copy>(from: &EyeSideState<T>, to: &mut EyeSideState<T>)
    ensures
        *final(to) == old(to).with_global_of(*from),
{
    to.uniforms.bg_color = from.uniforms.bg_color;
    to.uniforms.eye_separation = from.uniforms.eye_separation;
    to.uniforms.max_angle = from.uniforms.max_angle;
    to.uniforms.eye_angle = from.uniforms.eye_angle;
}

/// Copies one section from one eye to the other.
pub fn sync_section<T: Copy>(section: Section, from: &EyeSideState<T>, to: &mut EyeSideState<T>)
    ensures
        *final(to) == old(to).with_section_of(section, *from),
{
    match section {
        Section::Shape => sync_shape(from, to),
        Section::Iris => sync_iris(from, to),
        Section::Eyebrow => sync_eyebrow(from, to),
        Section::Eyelash => sync_eyelash(from, to),
    }
}

/// Makes both eyes alike in one section after it was linked again: the eye
/// on `from_side` is copied to the other one and is itself unchanged.
pub fn apply_relink<T: Copy>(
    from_side: Side,
    left: &mut EyeSideState<T>,
    right: &mut EyeSideState<T>,
    section: Section,
)
    ensures
        from_side == Side::Left ==> *final(left) == *old(left) && *final(right) == old(
            right,
        ).with_section_of(section, *old(left)),
        from_side == Side::Right ==> *final(right) == *old(right) && *final(left) == old(
            left,
        ).with_section_of(section, *old(right)),
{
    match from_side {
        Side::Left => {
            let from = *left;
            sync_section(section, &from, right);
        },
        Side::Right => {
            let from = *right;
            sync_section(section, &from, left);
        },
    }
}

/// Keeps a linked section alike on both eyes: the left eye, which is the
/// one edited while linked, is copied to the right. An unlinked section is
/// left alone.
pub fn sync_if_linked<T: Copy>(
    link: &SectionLink,
    section: Section,
    left: &EyeSideState<T>,
    right: &mut EyeSideState<T>,
)
    ensures
        *final(right) == (if link.linked {
            old(right).with_section_of(section, *left)
        } else {
            *old(right)
        }),
{
    if link.linked {
        sync_section(section, left, right);
    }
}

/// Resets both eyes and all four links.
///
/// Both eyes become `fresh`, the default eye, except for the aspect ratio
/// and the time, which follow the window and the clock and are kept from
/// the left eye. Every section is linked again.
pub fn reset_all<T: Copy>(
    fresh: &EyeSideState<T>,
    left: &mut EyeSideState<T>,
    right: &mut EyeSideState<T>,
    link_shape: &mut SectionLink,
    link_iris: &mut SectionLink,
    link_eyebrow: &mut SectionLink,
    link_eyelash: &mut SectionLink,
)
    ensures
        *final(left) == EyeSideState::reset_from(*fresh, *old(left)),
        *final(right) == EyeSideState::reset_from(*fresh, *old(left)),
        *final(link_shape) == SectionLink::linked_spec(),
        *final(link_iris) == SectionLink::linked_spec(),
        *final(link_eyebrow) == SectionLink::linked_spec(),
        *final(link_eyelash) == SectionLink::linked_spec(),
{
    let aspect = left.uniforms.aspect_ratio;
    let time = left.uniforms.time;
    *left = *fresh;
    *right = *fresh;
    left.uniforms.aspect_ratio = aspect;
    left.uniforms.time = time;
    right.uniforms.aspect_ratio = aspect;
    right.uniforms.time = time;
    *link_shape = SectionLink::default();
    *link_iris = SectionLink::default();
    *link_eyebrow = SectionLink::default();
    *link_eyelash = SectionLink::default();
}

} // verus!
