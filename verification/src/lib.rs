//! Data model and editing rules of a stylised eye: Bezier outlines, the
//! modal editors that transform them, the keyframes of the blink, per-eye
//! state and its persisted form.
//!
//! The library is generic over the coordinate scalar. It never computes
//! with a coordinate; it decides where each coordinate goes, which anchors
//! a gesture touches and what is restored when a gesture is cancelled, and
//! takes the measured and computed numbers from its caller.

pub mod animation;
pub mod config;
pub mod editor;
pub mod eyebrow_editor;
pub mod gui;
pub mod outline;
pub mod renderer;

pub use animation::BlinkAnimation;
pub use config::EyeConfig;
pub use outline::{
    BezierAnchor, BezierOutline, EyeShape, EyebrowGuide, EyebrowOutline, EyebrowShape,
    EyelashShape, IrisShape, PupilShape,
};
pub use renderer::EyeUniforms;
