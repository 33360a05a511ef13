//! The persisted form of the eye's parameters.
//!
//! A configuration is a plain record of the fields that survive a restart,
//! one per runtime type. Conversion in either direction copies field for
//! field; what a record does not hold (the guide of an eyebrow, the window's
//! aspect ratio, the clock) comes from the caller or stays as it is.

use crate::gui::{EyeSideState, SectionLink, Side};
use crate::outline::{
    BezierAnchor, BezierOutline, EyeShape, EyebrowGuide, EyebrowOutline, EyebrowShape,
    EyelashShape, IrisShape, PupilShape,
};
use crate::renderer::EyeUniforms;
use vstd::prelude::*;

verus! {

/// Persisted form of an anchor.
#[derive(Debug, PartialEq)]
pub struct BezierAnchorConfig<T> {
    pub position: [T; 2],
    pub handle_in: [T; 2],
    pub handle_out: [T; 2],
}

impl<T: Copy> Clone for BezierAnchorConfig<T> {
    fn clone(&self) -> (r: Self)
        ensures
            r == *self,
    {
        *self
    }
}

impl<T: Copy> Copy for BezierAnchorConfig<T> {

}

/// Persisted form of a four-anchor outline.
#[derive(Debug, PartialEq)]
pub struct BezierOutlineConfig<T> {
    pub anchors: [BezierAnchorConfig<T>; 4],
}

impl<T: Copy> Clone for BezierOutlineConfig<T> {
    fn clone(&self) -> (r: Self)
        ensures
            r == *self,
    {
        *self
    }
}

impl<T: Copy> Copy for BezierOutlineConfig<T> {

}

/// Persisted form of the six-anchor eyebrow outline.
#[derive(Debug, PartialEq)]
pub struct EyebrowOutlineConfig<T> {
    pub anchors: [BezierAnchorConfig<T>; 6],
}

impl<T: Copy> Clone for EyebrowOutlineConfig<T> {
    fn clone(&self) -> (r: Self)
        ensures
            r == *self,
    {
        *self
    }
}

impl<T: Copy> Copy for EyebrowOutlineConfig<T> {

}

/// Persisted form of the eye shape.
#[derive(Debug, PartialEq)]
pub struct EyeShapeConfig<T> {
    pub open: BezierOutlineConfig<T>,
    pub closed: BezierOutlineConfig<T>,
    pub close_arch: T,
}

impl<T: Copy> Clone for EyeShapeConfig<T> {
    fn clone(&self) -> (r: Self)
        ensures
            r == *self,
    {
        *self
    }
}

impl<T: Copy> Copy for EyeShapeConfig<T> {

}

/// Persisted form of the eyebrow. The guide is not stored: it is derived
/// from the outline when the record is read.
#[derive(Debug, PartialEq)]
pub struct EyebrowShapeConfig<T> {
    pub outline: EyebrowOutlineConfig<T>,
    pub base_y: T,
    pub follow: T,
    pub color: [T; 3],
}

impl<T: Copy> Clone for EyebrowShapeConfig<T> {
    fn clone(&self) -> (r: Self)
        ensures
            r == *self,
    {
        *self
    }
}

impl<T: Copy> Copy for EyebrowShapeConfig<T> {

}

/// Persisted form of the eyelash.
#[derive(Debug, PartialEq)]
pub struct EyelashShapeConfig<T> {
    pub color: [T; 3],
    pub thickness: T,
}

impl<T: Copy> Clone for EyelashShapeConfig<T> {
    fn clone(&self) -> (r: Self)
        ensures
            r == *self,
    {
        *self
    }
}

impl<T: Copy> Copy for EyelashShapeConfig<T> {

}

/// The parameters that both eyes always share.
#[derive(Debug, PartialEq)]
pub struct GlobalConfig<T> {
    pub bg_color: [T; 3],
    pub eye_separation: T,
    pub max_angle: T,
    pub eye_angle: T,
    pub focus_distance: T,
    pub auto_blink: bool,
    pub follow_mouse: bool,
    pub show_highlight: bool,
    pub show_eyebrow: bool,
    pub show_eyelash: bool,
}

impl<T: Copy> Clone for GlobalConfig<T> {
    fn clone(&self) -> (r: Self)
        ensures
            r == *self,
    {
        *self
    }
}

impl<T: Copy> Copy for GlobalConfig<T> {

}

/// Persisted form of a section link. The active side is stored by name.
#[derive(Debug, PartialEq, Eq)]
pub struct SectionLinkConfig {
    pub linked: bool,
    /// `"left"` or `"right"`.
    pub active: String,
}

impl Clone for SectionLinkConfig {
    fn clone(&self) -> (r: Self)
        ensures
            r == *self,
    {
        SectionLinkConfig { linked: self.linked, active: self.active.clone() }
    }
}

/// Persisted form of the four section links.
#[derive(Debug, PartialEq, Eq)]
pub struct LinkConfig {
    pub shape: SectionLinkConfig,
    pub iris: SectionLinkConfig,
    pub eyebrow: SectionLinkConfig,
    pub eyelash: SectionLinkConfig,
}

impl Clone for LinkConfig {
    fn clone(&self) -> (r: Self)
        ensures
            r == *self,
    {
        LinkConfig {
            shape: self.shape.clone(),
            iris: self.iris.clone(),
            eyebrow: self.eyebrow.clone(),
            eyelash: self.eyelash.clone(),
        }
    }
}

/// Persisted form of one eye.
#[derive(Debug, PartialEq)]
pub struct EyeSideConfig<T> {
    pub sclera_color: [T; 3],
    pub iris_color: [T; 3],
    pub pupil_color: [T; 3],
    pub eyelid_close: T,
    pub iris_radius: T,
    pub iris_follow: T,
    pub pupil_radius: T,
    pub highlight_offset: [T; 2],
    pub highlight_radius: T,
    pub highlight_intensity: T,
    pub look_x: T,
    pub look_y: T,
    pub eye_shape: EyeShapeConfig<T>,
    pub eyebrow_shape: EyebrowShapeConfig<T>,
    pub eyelash_shape: EyelashShapeConfig<T>,
    pub iris_shape: BezierOutlineConfig<T>,
    pub pupil_shape: BezierOutlineConfig<T>,
}

impl<T: Copy> Clone for EyeSideConfig<T> {
    fn clone(&self) -> (r: Self)
        ensures
            r == *self,
    {
        *self
    }
}

impl<T: Copy> Copy for EyeSideConfig<T> {

}

/// The whole persisted configuration.
#[derive(Debug, PartialEq)]
pub struct EyeConfig<T> {
    pub version: u32,
    pub left: EyeSideConfig<T>,
    pub right: EyeSideConfig<T>,
    pub global: GlobalConfig<T>,
    pub links: LinkConfig,
}

impl<T: Copy> Clone for EyeConfig<T> {
    fn clone(&self) -> (r: Self)
        ensures
            r == *self,
    {
        EyeConfig {
            version: self.version,
            left: self.left,
            right: self.right,
            global: self.global,
            links: self.links.clone(),
        }
    }
}

// ----------------------------------------------------------------------
// Anchors and outlines
// ----------------------------------------------------------------------

impl<T: Copy> BezierAnchorConfig<T> {
    /// The record of an anchor.
    pub open spec fn of(a: BezierAnchor<T>) -> Self {
        BezierAnchorConfig { position: a.position, handle_in: a.handle_in, handle_out: a.handle_out }
    }

    /// The anchor that the record stands for.
    pub open spec fn anchor(self) -> BezierAnchor<T> {
        BezierAnchor {
            position: self.position,
            handle_in: self.handle_in,
            handle_out: self.handle_out,
        }
    }
}

impl<T: Copy> From<&BezierAnchor<T>> for BezierAnchorConfig<T> {
    fn from(a: &BezierAnchor<T>) -> (r: Self) {
        BezierAnchorConfig { position: a.position, handle_in: a.handle_in, handle_out: a.handle_out }
    }
}

impl<T: Copy> vstd::std_specs::convert::FromSpecImpl<&BezierAnchor<T>> for BezierAnchorConfig<T> {
    open spec fn obeys_from_spec() -> bool {
        true
    }

    open spec fn from_spec(a: &BezierAnchor<T>) -> Self {
        Self::of(*a)
    }
}

impl<T: Copy> From<&BezierAnchorConfig<T>> for BezierAnchor<T> {
    fn from(c: &BezierAnchorConfig<T>) -> (r: Self) {
        BezierAnchor { position: c.position, handle_in: c.handle_in, handle_out: c.handle_out }
    }
}

impl<T: Copy> vstd::std_specs::convert::FromSpecImpl<&BezierAnchorConfig<T>> for BezierAnchor<T> {
    open spec fn obeys_from_spec() -> bool {
        true
    }

    open spec fn from_spec(c: &BezierAnchorConfig<T>) -> Self {
        c.anchor()
    }
}

impl<T: Copy> BezierOutlineConfig<T> {
    /// The record of an outline: the records of its anchors, in order.
    pub open spec fn of(o: BezierOutline<T>) -> Self {
        BezierOutlineConfig {
            anchors: [
                BezierAnchorConfig::of(o.anchors[0]),
                BezierAnchorConfig::of(o.anchors[1]),
                BezierAnchorConfig::of(o.anchors[2]),
                BezierAnchorConfig::of(o.anchors[3]),
            ],
        }
    }

    /// The outline that the record stands for.
    pub open spec fn outline(self) -> BezierOutline<T> {
        BezierOutline {
            anchors: [
                self.anchors[0].anchor(),
                self.anchors[1].anchor(),
                self.anchors[2].anchor(),
                self.anchors[3].anchor(),
            ],
        }
    }
}

impl<T: Copy> From<&BezierOutline<T>> for BezierOutlineConfig<T> {
    fn from(o: &BezierOutline<T>) -> (r: Self) {
        let r = BezierOutlineConfig {
            anchors: [
                BezierAnchorConfig::from(&o.anchors[0]),
                BezierAnchorConfig::from(&o.anchors[1]),
                BezierAnchorConfig::from(&o.anchors[2]),
                BezierAnchorConfig::from(&o.anchors[3]),
            ],
        };
        assert(r.anchors =~= Self::of(*o).anchors);
        r
    }
}

impl<T: Copy> vstd::std_specs::convert::FromSpecImpl<&BezierOutline<T>> for BezierOutlineConfig<T> {
    open spec fn obeys_from_spec() -> bool {
        true
    }

    open spec fn from_spec(o: &BezierOutline<T>) -> Self {
        Self::of(*o)
    }
}

impl<T: Copy> From<&BezierOutlineConfig<T>> for BezierOutline<T> {
    fn from(c: &BezierOutlineConfig<T>) -> (r: Self) {
        let r = BezierOutline {
            anchors: [
                BezierAnchor::from(&c.anchors[0]),
                BezierAnchor::from(&c.anchors[1]),
                BezierAnchor::from(&c.anchors[2]),
                BezierAnchor::from(&c.anchors[3]),
            ],
        };
        assert(r.anchors =~= c.outline().anchors);
        r
    }
}

impl<T: Copy> vstd::std_specs::convert::FromSpecImpl<&BezierOutlineConfig<T>> for BezierOutline<T> {
    open spec fn obeys_from_spec() -> bool {
        true
    }

    open spec fn from_spec(c: &BezierOutlineConfig<T>) -> Self {
        c.outline()
    }
}

impl<T: Copy> EyebrowOutlineConfig<T> {
    /// The record of an outline: the records of its anchors, in order.
    pub open spec fn of(o: EyebrowOutline<T>) -> Self {
        EyebrowOutlineConfig {
            anchors: [
                BezierAnchorConfig::of(o.anchors[0]),
                BezierAnchorConfig::of(o.anchors[1]),
                BezierAnchorConfig::of(o.anchors[2]),
                BezierAnchorConfig::of(o.anchors[3]),
                BezierAnchorConfig::of(o.anchors[4]),
                BezierAnchorConfig::of(o.anchors[5]),
            ],
        }
    }

    /// The outline that the record stands for.
    pub open spec fn outline(self) -> EyebrowOutline<T> {
        EyebrowOutline {
            anchors: [
                self.anchors[0].anchor(),
                self.anchors[1].anchor(),
                self.anchors[2].anchor(),
                self.anchors[3].anchor(),
                self.anchors[4].anchor(),
                self.anchors[5].anchor(),
            ],
        }
    }
}

impl<T: Copy> From<&EyebrowOutline<T>> for EyebrowOutlineConfig<T> {
    fn from(o: &EyebrowOutline<T>) -> (r: Self) {
        let r = EyebrowOutlineConfig {
            anchors: [
                BezierAnchorConfig::from(&o.anchors[0]),
                BezierAnchorConfig::from(&o.anchors[1]),
                BezierAnchorConfig::from(&o.anchors[2]),
                BezierAnchorConfig::from(&o.anchors[3]),
                BezierAnchorConfig::from(&o.anchors[4]),
                BezierAnchorConfig::from(&o.anchors[5]),
            ],
        };
        assert(r.anchors =~= Self::of(*o).anchors);
        r
    }
}

impl<T: Copy> vstd::std_specs::convert::FromSpecImpl<&EyebrowOutline<T>> for EyebrowOutlineConfig<T> {
    open spec fn obeys_from_spec() -> bool {
        true
    }

    open spec fn from_spec(o: &EyebrowOutline<T>) -> Self {
        Self::of(*o)
    }
}

impl<T: Copy> From<&EyebrowOutlineConfig<T>> for EyebrowOutline<T> {
    fn from(c: &EyebrowOutlineConfig<T>) -> (r: Self) {
        let r = EyebrowOutline {
            anchors: [
                BezierAnchor::from(&c.anchors[0]),
                BezierAnchor::from(&c.anchors[1]),
                BezierAnchor::from(&c.anchors[2]),
                BezierAnchor::from(&c.anchors[3]),
                BezierAnchor::from(&c.anchors[4]),
                BezierAnchor::from(&c.anchors[5]),
            ],
        };
        assert(r.anchors =~= c.outline().anchors);
        r
    }
}

impl<T: Copy> vstd::std_specs::convert::FromSpecImpl<&EyebrowOutlineConfig<T>> for EyebrowOutline<T> {
    open spec fn obeys_from_spec() -> bool {
        true
    }

    open spec fn from_spec(c: &EyebrowOutlineConfig<T>) -> Self {
        c.outline()
    }
}

// ----------------------------------------------------------------------
// Shapes
// ----------------------------------------------------------------------

impl<T: Copy> EyeShapeConfig<T> {
    /// The record of an eye shape.
    pub open spec fn of(s: EyeShape<T>) -> Self {
        EyeShapeConfig {
            open: BezierOutlineConfig::of(s.open),
            closed: BezierOutlineConfig::of(s.closed),
            close_arch: s.close_arch,
        }
    }

    /// The eye shape that the record stands for.
    pub open spec fn shape(self) -> EyeShape<T> {
        EyeShape {
            open: self.open.outline(),
            closed: self.closed.outline(),
            close_arch: self.close_arch,
        }
    }
}

impl<T: Copy> From<&EyeShape<T>> for EyeShapeConfig<T> {
    fn from(s: &EyeShape<T>) -> (r: Self) {
        EyeShapeConfig {
            open: BezierOutlineConfig::from(&s.open),
            closed: BezierOutlineConfig::from(&s.closed),
            close_arch: s.close_arch,
        }
    }
}

impl<T: Copy> vstd::std_specs::convert::FromSpecImpl<&EyeShape<T>> for EyeShapeConfig<T> {
    open spec fn obeys_from_spec() -> bool {
        true
    }

    open spec fn from_spec(s: &EyeShape<T>) -> Self {
        Self::of(*s)
    }
}

impl<T: Copy> From<&EyeShapeConfig<T>> for EyeShape<T> {
    fn from(c: &EyeShapeConfig<T>) -> (r: Self) {
        EyeShape {
            open: BezierOutline::from(&c.open),
            closed: BezierOutline::from(&c.closed),
            close_arch: c.close_arch,
        }
    }
}

impl<T: Copy> vstd::std_specs::convert::FromSpecImpl<&EyeShapeConfig<T>> for EyeShape<T> {
    open spec fn obeys_from_spec() -> bool {
        true
    }

    open spec fn from_spec(c: &EyeShapeConfig<T>) -> Self {
        c.shape()
    }
}

impl<T: Copy> EyebrowShapeConfig<T> {
    /// The record of an eyebrow.
    pub open spec fn of(s: EyebrowShape<T>) -> Self {
        EyebrowShapeConfig {
            outline: EyebrowOutlineConfig::of(s.outline),
            base_y: s.base_y,
            follow: s.follow,
            color: s.color,
        }
    }

    /// The eyebrow that the record stands for, once its guide is known.
    pub open spec fn shape_with(self, guide: EyebrowGuide<T>) -> EyebrowShape<T> {
        EyebrowShape {
            outline: self.outline.outline(),
            guide,
            base_y: self.base_y,
            follow: self.follow,
            color: self.color,
        }
    }

    /// Builds the eyebrow from its record. `guide` is the guide derived
    /// from the record's outline, which the caller has computed.
    pub fn to_shape(&self, guide: EyebrowGuide<T>) -> (s: EyebrowShape<T>)
        ensures
            s == self.shape_with(guide),
    {
        EyebrowShape {
            outline: EyebrowOutline::from(&self.outline),
            guide,
            base_y: self.base_y,
            follow: self.follow,
            color: self.color,
        }
    }
}

impl<T: Copy> From<&EyebrowShape<T>> for EyebrowShapeConfig<T> {
    fn from(s: &EyebrowShape<T>) -> (r: Self) {
        EyebrowShapeConfig {
            outline: EyebrowOutlineConfig::from(&s.outline),
            base_y: s.base_y,
            follow: s.follow,
            color: s.color,
        }
    }
}

impl<T: Copy> vstd::std_specs::convert::FromSpecImpl<&EyebrowShape<T>> for EyebrowShapeConfig<T> {
    open spec fn obeys_from_spec() -> bool {
        true
    }

    open spec fn from_spec(s: &EyebrowShape<T>) -> Self {
        Self::of(*s)
    }
}

impl<T: Copy> EyelashShapeConfig<T> {
    /// The record of an eyelash.
    pub open spec fn of(s: EyelashShape<T>) -> Self {
        EyelashShapeConfig { color: s.color, thickness: s.thickness }
    }

    /// The eyelash that the record stands for.
    pub open spec fn shape(self) -> EyelashShape<T> {
        EyelashShape { color: self.color, thickness: self.thickness }
    }
}

impl<T: Copy> From<&EyelashShape<T>> for EyelashShapeConfig<T> {
    fn from(s: &EyelashShape<T>) -> (r: Self) {
        EyelashShapeConfig { color: s.color, thickness: s.thickness }
    }
}

impl<T: Copy> vstd::std_specs::convert::FromSpecImpl<&EyelashShape<T>> for EyelashShapeConfig<T> {
    open spec fn obeys_from_spec() -> bool {
        true
    }

    open spec fn from_spec(s: &EyelashShape<T>) -> Self {
        Self::of(*s)
    }
}

impl<T: Copy> From<&EyelashShapeConfig<T>> for EyelashShape<T> {
    fn from(c: &EyelashShapeConfig<T>) -> (r: Self) {
        EyelashShape { color: c.color, thickness: c.thickness }
    }
}

impl<T: Copy> vstd::std_specs::convert::FromSpecImpl<&EyelashShapeConfig<T>> for EyelashShape<T> {
    open spec fn obeys_from_spec() -> bool {
        true
    }

    open spec fn from_spec(c: &EyelashShapeConfig<T>) -> Self {
        c.shape()
    }
}

impl<T: Copy> From<&IrisShape<T>> for BezierOutlineConfig<T> {
    fn from(s: &IrisShape<T>) -> (r: Self) {
        BezierOutlineConfig::from(&s.outline)
    }
}

impl<T: Copy> vstd::std_specs::convert::FromSpecImpl<&IrisShape<T>> for BezierOutlineConfig<T> {
    open spec fn obeys_from_spec() -> bool {
        true
    }

    open spec fn from_spec(s: &IrisShape<T>) -> Self {
        Self::of(s.outline)
    }
}

impl<T: Copy> From<&PupilShape<T>> for BezierOutlineConfig<T> {
    fn from(s: &PupilShape<T>) -> (r: Self) {
        BezierOutlineConfig::from(&s.outline)
    }
}

impl<T: Copy> vstd::std_specs::convert::FromSpecImpl<&PupilShape<T>> for BezierOutlineConfig<T> {
    open spec fn obeys_from_spec() -> bool {
        true
    }

    open spec fn from_spec(s: &PupilShape<T>) -> Self {
        Self::of(s.outline)
    }
}

// ----------------------------------------------------------------------
// Section links
// ----------------------------------------------------------------------

/// The name under which a side is stored.
pub open spec fn side_name(side: Side) -> Seq<char> {
    match side {
        Side::Left => "left"@,
        Side::Right => "right"@,
    }
}

/// The side that a stored name stands for: `"right"` is the right eye and
/// every other name the left one.
pub open spec fn side_named(name: Seq<char>) -> Side {
    if name == "right"@ {
        Side::Right
    } else {
        Side::Left
    }
}

/// Reading back the name of a side gives that side.
pub proof fn lemma_side_name_round_trip(side: Side)
    ensures
        side_named(side_name(side)) == side,
{
    reveal_strlit("left");
    reveal_strlit("right");
    assert("left"@.len() != "right"@.len());
}

impl From<&SectionLink> for SectionLinkConfig {
    /// Stores a link. The result is stated on the stored name itself, since
    /// a string has no literal form in specifications.
    fn from(l: &SectionLink) -> (c: Self)
        ensures
            c.linked == l.linked,
            c.active@ == side_name(l.active),
    {
        SectionLinkConfig {
            linked: l.linked,
            active: match l.active {
                Side::Left => "left".to_string(),
                Side::Right => "right".to_string(),
            },
        }
    }
}

impl vstd::std_specs::convert::FromSpecImpl<&SectionLink> for SectionLinkConfig {
    open spec fn obeys_from_spec() -> bool {
        false
    }

    open spec fn from_spec(l: &SectionLink) -> Self {
        arbitrary()
    }
}

impl SectionLinkConfig {
    /// The link that this record stands for.
    pub open spec fn section_link(self) -> SectionLink {
        SectionLink { linked: self.linked, active: side_named(self.active@) }
    }

    /// Reads a link back from its record.
    pub fn to_section_link(&self) -> (link: SectionLink)
        ensures
            link == self.section_link(),
    {
        let right = "right".to_string();
        SectionLink {
            linked: self.linked,
            active: if self.active == right {
                Side::Right
            } else {
                Side::Left
            },
        }
    }

    /// A stored link reads back as the link it was made from.
    pub proof fn lemma_link_round_trip(self, link: SectionLink)
        requires
            self.linked == link.linked,
            self.active@ == side_name(link.active),
        ensures
            self.section_link() == link,
    {
        lemma_side_name_round_trip(link.active);
    }
}

// ----------------------------------------------------------------------
// One eye
// ----------------------------------------------------------------------

impl<T: Copy> From<&EyeSideState<T>> for EyeSideConfig<T> {
    fn from(s: &EyeSideState<T>) -> (r: Self) {
        EyeSideConfig {
            sclera_color: s.uniforms.sclera_color,
            iris_color: s.uniforms.iris_color,
            pupil_color: s.uniforms.pupil_color,
            eyelid_close: s.uniforms.eyelid_close,
            iris_radius: s.uniforms.iris_radius,
            iris_follow: s.uniforms.iris_follow,
            pupil_radius: s.uniforms.pupil_radius,
            highlight_offset: s.uniforms.highlight_offset,
            highlight_radius: s.uniforms.highlight_radius,
            highlight_intensity: s.uniforms.highlight_intensity,
            look_x: s.uniforms.look_x,
            look_y: s.uniforms.look_y,
            eye_shape: EyeShapeConfig::from(&s.eye_shape),
            eyebrow_shape: EyebrowShapeConfig::from(&s.eyebrow_shape),
            eyelash_shape: EyelashShapeConfig::from(&s.eyelash_shape),
            iris_shape: BezierOutlineConfig::from(&s.iris_shape),
            pupil_shape: BezierOutlineConfig::from(&s.pupil_shape),
        }
    }
}

impl<T: Copy> vstd::std_specs::convert::FromSpecImpl<&EyeSideState<T>> for EyeSideConfig<T> {
    open spec fn obeys_from_spec() -> bool {
        true
    }

    open spec fn from_spec(s: &EyeSideState<T>) -> Self {
        Self::of(*s)
    }
}

impl<T: Copy> EyeSideConfig<T> {
    /// The record of one eye.
    pub open spec fn of(s: EyeSideState<T>) -> Self {
        EyeSideConfig {
            sclera_color: s.uniforms.sclera_color,
            iris_color: s.uniforms.iris_color,
            pupil_color: s.uniforms.pupil_color,
            eyelid_close: s.uniforms.eyelid_close,
            iris_radius: s.uniforms.iris_radius,
            iris_follow: s.uniforms.iris_follow,
            pupil_radius: s.uniforms.pupil_radius,
            highlight_offset: s.uniforms.highlight_offset,
            highlight_radius: s.uniforms.highlight_radius,
            highlight_intensity: s.uniforms.highlight_intensity,
            look_x: s.uniforms.look_x,
            look_y: s.uniforms.look_y,
            eye_shape: EyeShapeConfig::of(s.eye_shape),
            eyebrow_shape: EyebrowShapeConfig::of(s.eyebrow_shape),
            eyelash_shape: EyelashShapeConfig::of(s.eyelash_shape),
            iris_shape: BezierOutlineConfig::of(s.iris_shape.outline),
            pupil_shape: BezierOutlineConfig::of(s.pupil_shape.outline),
        }
    }

    /// The eye `s` after this record was applied to it. The record's
    /// fields replace their counterparts; what the record does not hold
    /// stays as `s` has it.
    pub open spec fn applied(self, s: EyeSideState<T>, guide: EyebrowGuide<T>) -> EyeSideState<T> {
        EyeSideState {
            uniforms: EyeUniforms {
                sclera_color: self.sclera_color,
                iris_color: self.iris_color,
                pupil_color: self.pupil_color,
                eyelid_close: self.eyelid_close,
                iris_radius: self.iris_radius,
                iris_follow: self.iris_follow,
                pupil_radius: self.pupil_radius,
                highlight_offset: self.highlight_offset,
                highlight_radius: self.highlight_radius,
                highlight_intensity: self.highlight_intensity,
                look_x: self.look_x,
                look_y: self.look_y,
                ..s.uniforms
            },
            eye_shape: self.eye_shape.shape(),
            eyebrow_shape: self.eyebrow_shape.shape_with(guide),
            eyelash_shape: self.eyelash_shape.shape(),
            iris_shape: IrisShape { outline: self.iris_shape.outline() },
            pupil_shape: PupilShape { outline: self.pupil_shape.outline() },
        }
    }

    /// Applies the record to an eye. `guide` is the eyebrow guide derived
    /// from the record's eyebrow outline, which the caller has computed.
    pub fn apply_to(&self, s: &mut EyeSideState<T>, guide: EyebrowGuide<T>)
        ensures
            *final(s) == self.applied(*old(s), guide),
    {
        s.uniforms.sclera_color = self.sclera_color;
        s.uniforms.iris_color = self.iris_color;
        s.uniforms.pupil_color = self.pupil_color;
        s.uniforms.eyelid_close = self.eyelid_close;
        s.uniforms.iris_radius = self.iris_radius;
        s.uniforms.iris_follow = self.iris_follow;
        s.uniforms.pupil_radius = self.pupil_radius;
        s.uniforms.highlight_offset = self.highlight_offset;
        s.uniforms.highlight_radius = self.highlight_radius;
        s.uniforms.highlight_intensity = self.highlight_intensity;
        s.uniforms.look_x = self.look_x;
        s.uniforms.look_y = self.look_y;
        s.eye_shape = EyeShape::from(&self.eye_shape);
        s.eyebrow_shape = self.eyebrow_shape.to_shape(guide);
        s.eyelash_shape = EyelashShape::from(&self.eyelash_shape);
        s.iris_shape = IrisShape { outline: BezierOutline::from(&self.iris_shape) };
        s.pupil_shape = PupilShape { outline: BezierOutline::from(&self.pupil_shape) };
    }
}

// ----------------------------------------------------------------------
// Round trips
// ----------------------------------------------------------------------

/// An anchor read back from its record is the anchor that was stored.
pub proof fn lemma_anchor_round_trip<T: Copy>(a: BezierAnchor<T>)
    ensures
        BezierAnchorConfig::of(a).anchor() == a,
{
}

/// An outline read back from its record is the outline that was stored.
pub proof fn lemma_outline_round_trip<T: Copy>(o: BezierOutline<T>)
    ensures
        BezierOutlineConfig::of(o).outline() == o,
{
    let back = BezierOutlineConfig::of(o).outline();
    assert forall|i: int| 0 <= i < 4 implies back.anchors[i] == o.anchors[i] by {
        lemma_anchor_round_trip(o.anchors[i]);
    }
    assert(back.anchors =~= o.anchors);
}

/// An eyebrow outline read back from its record is the outline that was
/// stored.
pub proof fn lemma_eyebrow_outline_round_trip<T: Copy>(o: EyebrowOutline<T>)
    ensures
        EyebrowOutlineConfig::of(o).outline() == o,
{
    let back = EyebrowOutlineConfig::of(o).outline();
    assert forall|i: int| 0 <= i < 6 implies back.anchors[i] == o.anchors[i] by {
        lemma_anchor_round_trip(o.anchors[i]);
    }
    assert(back.anchors =~= o.anchors);
}

/// Storing an eye and applying the record to that same eye, with the guide
/// it had, changes nothing.
pub proof fn lemma_side_round_trip<T: Copy>(s: EyeSideState<T>)
    ensures
        EyeSideConfig::of(s).applied(s, s.eyebrow_shape.guide) == s,
{
    lemma_outline_round_trip(s.eye_shape.open);
    lemma_outline_round_trip(s.eye_shape.closed);
    lemma_outline_round_trip(s.iris_shape.outline);
    lemma_outline_round_trip(s.pupil_shape.outline);
    lemma_eyebrow_outline_round_trip(s.eyebrow_shape.outline);
}

// ----------------------------------------------------------------------
// The whole configuration
// ----------------------------------------------------------------------

impl<T: Copy> EyeConfig<T> {
    /// The version written into new records.
    pub const CURRENT_VERSION: u32 = 1;

    /// The shared parameters as the state holds them. The left eye is the
    /// one that carries the colours and angles.
    pub open spec fn global_of(
        left: EyeSideState<T>,
        auto_blink: bool,
        follow_mouse: bool,
        show_highlight: bool,
        show_eyebrow: bool,
        show_eyelash: bool,
        focus_distance: T,
    ) -> GlobalConfig<T> {
        GlobalConfig {
            bg_color: left.uniforms.bg_color,
            eye_separation: left.uniforms.eye_separation,
            max_angle: left.uniforms.max_angle,
            eye_angle: left.uniforms.eye_angle,
            focus_distance,
            auto_blink,
            follow_mouse,
            show_highlight,
            show_eyebrow,
            show_eyelash,
        }
    }

    /// The eye `s` after `side`, one of the record's two eyes, and the
    /// shared parameters were applied to it. The aspect ratio and the time
    /// are not stored: both eyes take them from `keep`, the left eye as it
    /// was.
    pub open spec fn applied_side(
        self,
        side: EyeSideConfig<T>,
        s: EyeSideState<T>,
        guide: EyebrowGuide<T>,
        keep: EyeSideState<T>,
    ) -> EyeSideState<T> {
        let applied = side.applied(s, guide);
        EyeSideState {
            uniforms: EyeUniforms {
                aspect_ratio: keep.uniforms.aspect_ratio,
                time: keep.uniforms.time,
                bg_color: self.global.bg_color,
                eye_separation: self.global.eye_separation,
                max_angle: self.global.max_angle,
                eye_angle: self.global.eye_angle,
                ..applied.uniforms
            },
            ..applied
        }
    }

    /// Takes a record of the whole state.
    pub fn from_state(
        left: &EyeSideState<T>,
        right: &EyeSideState<T>,
        link_shape: &SectionLink,
        link_iris: &SectionLink,
        link_eyebrow: &SectionLink,
        link_eyelash: &SectionLink,
        auto_blink: bool,
        follow_mouse: bool,
        show_highlight: bool,
        show_eyebrow: bool,
        show_eyelash: bool,
        focus_distance: T,
    ) -> (c: Self)
        ensures
            c.version == Self::CURRENT_VERSION,
            c.left == EyeSideConfig::of(*left),
            c.right == EyeSideConfig::of(*right),
            c.global == Self::global_of(
                *left,
                auto_blink,
                follow_mouse,
                show_highlight,
                show_eyebrow,
                show_eyelash,
                focus_distance,
            ),
            c.links.shape.linked == link_shape.linked,
            c.links.iris.linked == link_iris.linked,
            c.links.eyebrow.linked == link_eyebrow.linked,
            c.links.eyelash.linked == link_eyelash.linked,
            c.links.shape.active@ == side_name(link_shape.active),
            c.links.iris.active@ == side_name(link_iris.active),
            c.links.eyebrow.active@ == side_name(link_eyebrow.active),
            c.links.eyelash.active@ == side_name(link_eyelash.active),
    {
        EyeConfig {
            version: Self::CURRENT_VERSION,
            left: EyeSideConfig::from(left),
            right: EyeSideConfig::from(right),
            global: GlobalConfig {
                bg_color: left.uniforms.bg_color,
                eye_separation: left.uniforms.eye_separation,
                max_angle: left.uniforms.max_angle,
                eye_angle: left.uniforms.eye_angle,
                focus_distance,
                auto_blink,
                follow_mouse,
                show_highlight,
                show_eyebrow,
                show_eyelash,
            },
            links: LinkConfig {
                shape: SectionLinkConfig::from(link_shape),
                iris: SectionLinkConfig::from(link_iris),
                eyebrow: SectionLinkConfig::from(link_eyebrow),
                eyelash: SectionLinkConfig::from(link_eyelash),
            },
        }
    }

    /// Applies the record to the whole state.
    ///
    /// `left_guide` and `right_guide` are the eyebrow guides derived from
    /// the record's two eyebrow outlines, which the caller has computed.
    /// The aspect ratio and the time of the left eye are kept and given to
    /// both eyes.
    pub fn apply_to_state(
        &self,
        left: &mut EyeSideState<T>,
        right: &mut EyeSideState<T>,
        link_shape: &mut SectionLink,
        link_iris: &mut SectionLink,
        link_eyebrow: &mut SectionLink,
        link_eyelash: &mut SectionLink,
        auto_blink: &mut bool,
        follow_mouse: &mut bool,
        show_highlight: &mut bool,
        show_eyebrow: &mut bool,
        show_eyelash: &mut bool,
        focus_distance: &mut T,
        left_guide: EyebrowGuide<T>,
        right_guide: EyebrowGuide<T>,
    )
        ensures
            *final(left) == self.applied_side(self.left, *old(left), left_guide, *old(left)),
            *final(right) == self.applied_side(self.right, *old(right), right_guide, *old(left)),
            *final(link_shape) == self.links.shape.section_link(),
            *final(link_iris) == self.links.iris.section_link(),
            *final(link_eyebrow) == self.links.eyebrow.section_link(),
            *final(link_eyelash) == self.links.eyelash.section_link(),
            *final(auto_blink) == self.global.auto_blink,
            *final(follow_mouse) == self.global.follow_mouse,
            *final(show_highlight) == self.global.show_highlight,
            *final(show_eyebrow) == self.global.show_eyebrow,
            *final(show_eyelash) == self.global.show_eyelash,
            *final(focus_distance) == self.global.focus_distance,
    {
        let aspect = left.uniforms.aspect_ratio;
        let time = left.uniforms.time;

        self.left.apply_to(left, left_guide);
        self.right.apply_to(right, right_guide);

        left.uniforms.aspect_ratio = aspect;
        left.uniforms.time = time;
        right.uniforms.aspect_ratio = aspect;
        right.uniforms.time = time;

        left.uniforms.bg_color = self.global.bg_color;
        left.uniforms.eye_separation = self.global.eye_separation;
        left.uniforms.max_angle = self.global.max_angle;
        left.uniforms.eye_angle = self.global.eye_angle;
        right.uniforms.bg_color = self.global.bg_color;
        right.uniforms.eye_separation = self.global.eye_separation;
        right.uniforms.max_angle = self.global.max_angle;
        right.uniforms.eye_angle = self.global.eye_angle;

        *auto_blink = self.global.auto_blink;
        *follow_mouse = self.global.follow_mouse;
        *show_highlight = self.global.show_highlight;
        *show_eyebrow = self.global.show_eyebrow;
        *show_eyelash = self.global.show_eyelash;
        *focus_distance = self.global.focus_distance;

        *link_shape = self.links.shape.to_section_link();
        *link_iris = self.links.iris.to_section_link();
        *link_eyebrow = self.links.eyebrow.to_section_link();
        *link_eyelash = self.links.eyelash.to_section_link();
    }

    /// Whether the record is one that `from_state` takes of the two eyes.
    pub open spec fn records(self, left: EyeSideState<T>, right: EyeSideState<T>) -> bool {
        &&& self.left == EyeSideConfig::of(left)
        &&& self.right == EyeSideConfig::of(right)
        &&& self.global.bg_color == left.uniforms.bg_color
        &&& self.global.eye_separation == left.uniforms.eye_separation
        &&& self.global.max_angle == left.uniforms.max_angle
        &&& self.global.eye_angle == left.uniforms.eye_angle
    }

    /// Whether the two eyes agree on everything that they share by rule:
    /// the background, the separation, the two angles, the aspect ratio
    /// and the time.
    pub open spec fn in_step(left: EyeSideState<T>, right: EyeSideState<T>) -> bool {
        &&& right.uniforms.bg_color == left.uniforms.bg_color
        &&& right.uniforms.eye_separation == left.uniforms.eye_separation
        &&& right.uniforms.max_angle == left.uniforms.max_angle
        &&& right.uniforms.eye_angle == left.uniforms.eye_angle
        &&& right.uniforms.aspect_ratio == left.uniforms.aspect_ratio
        &&& right.uniforms.time == left.uniforms.time
    }

    /// Taking a record of two eyes that are in step and applying it to
    /// those same eyes, each with the guide it had, changes neither.
    pub proof fn lemma_state_round_trip(self, left: EyeSideState<T>, right: EyeSideState<T>)
        requires
            self.records(left, right),
            Self::in_step(left, right),
        ensures
            self.applied_side(self.left, left, left.eyebrow_shape.guide, left) == left,
            self.applied_side(self.right, right, right.eyebrow_shape.guide, left) == right,
    {
        lemma_side_round_trip(left);
        lemma_side_round_trip(right);
    }
}

} // verus!
