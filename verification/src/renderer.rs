//! The per-eye parameters that the renderer reads every frame.

use vstd::prelude::*;

verus! {

/// Everything the shader needs to draw one eye. The outlines are held in
/// their packed form, as `to_uniform_array` of the outline types gives it.
#[derive(Debug, PartialEq)]
pub struct EyeUniforms<T> {
    /// Colour of the white of the eye.
    pub sclera_color: [T; 3],
    /// Squash (positive) or stretch (negative) from the eyelid's speed.
    pub squash_stretch: T,
    /// Offset of the highlight from the iris centre.
    pub highlight_offset: [T; 2],
    pub highlight_radius: T,
    pub highlight_intensity: T,
    /// Background colour.
    pub bg_color: [T; 3],
    /// Distance between the two eyes.
    pub eye_separation: T,
    /// Width of the render target over its height.
    pub aspect_ratio: T,
    /// Seconds since start.
    pub time: T,
    /// Eyelid closure, from open to closed.
    pub eyelid_close: T,
    /// Horizontal gaze.
    pub look_x: T,
    /// Vertical gaze.
    pub look_y: T,
    /// Largest rotation of the eyeball.
    pub max_angle: T,
    /// Angular half-separation of the eyes.
    pub eye_angle: T,
    pub iris_color: [T; 3],
    pub iris_radius: T,
    /// How far the iris follows the gaze.
    pub iris_follow: T,
    pub pupil_color: [T; 3],
    pub pupil_radius: T,
    /// Packed control points of the open eye outline.
    pub outline_open: [[T; 4]; 8],
    /// Packed control points of the closed eye outline.
    pub outline_closed: [[T; 4]; 8],
    pub eyebrow_color: [T; 3],
    /// Height of the brow above the eye centre.
    pub eyebrow_base_y: T,
    /// How far the brow follows the eyelid.
    pub eyebrow_follow: T,
    /// Packed control points of the eyebrow outline.
    pub eyebrow_outline: [[T; 4]; 8],
}

impl<T: Copy> Clone for EyeUniforms<T> {
    fn clone(&self) -> (r: Self)
        ensures
            r == *self,
    {
        *self
    }
}

impl<T: Copy> Copy for EyeUniforms<T> {

}

} // verus!
