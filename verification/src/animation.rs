//! The keyframe table of the looping blink animation.
//!
//! Sampling the animation at a time falls into three steps: reduce the time
//! to the loop, find where it lies among the keyframes, and interpolate.
//! The first and the last are arithmetic and belong to the caller. The
//! middle one is decided here: given the first keyframe that lies after
//! the time, [`BlinkAnimation::bracket`] says which value holds or which
//! two keyframes are blended.

use vstd::prelude::*;

verus! {

/// How the progress through a segment is reshaped before blending.
#[derive(Clone, Copy, Debug, PartialEq, Eq, Structural)]
pub enum Easing {
    /// Progress as it is.
    Linear,
    /// Slow start: progress squared.
    EaseIn,
    /// Slow end: the mirror image of `EaseIn`.
    EaseOut,
    /// Slow start and slow end, symmetric about the middle.
    EaseInOut,
}

/// A value to be reached at a time, and the easing of the segment that
/// leads up to it.
#[derive(Debug, PartialEq)]
pub struct Keyframe<T> {
    pub time: T,
    pub value: T,
    pub easing: Easing,
}

impl<T: Copy> Clone for Keyframe<T> {
    fn clone(&self) -> (r: Self)
        ensures
            r == *self,
    {
        *self
    }
}

impl<T: Copy> Copy for Keyframe<T> {

}

/// What the animation does at a point of its loop.
#[derive(Debug, PartialEq)]
pub enum Bracket<T> {
    /// The value is held as it is.
    Hold(T),
    /// The value moves from `from.value` to `to.value`, over the time from
    /// `from.time` to `to.time`, eased by `to.easing`.
    Blend { from: Keyframe<T>, to: Keyframe<T> },
}

impl<T: Copy> Clone for Bracket<T> {
    fn clone(&self) -> (r: Self)
        ensures
            r == *self,
    {
        *self
    }
}

impl<T: Copy> Copy for Bracket<T> {

}

/// What a table of keyframes does at a time of the loop, given the index of
/// the first keyframe that lies after that time.
///
/// Before the first keyframe the first value holds. Past the last keyframe,
/// when no keyframe lies after the time, the last value holds until the
/// loop wraps. In between, the two keyframes around the time are blended.
pub open spec fn bracket_of<T>(keyframes: Seq<Keyframe<T>>, first_later: Option<usize>) -> Bracket<
    T,
> {
    match first_later {
        None => Bracket::Hold(keyframes.last().value),
        Some(next) => if next == 0 {
            Bracket::Hold(keyframes[0].value)
        } else {
            Bracket::Blend { from: keyframes[next - 1], to: keyframes[next as int] }
        },
    }
}

/// The mathematical content of a blink animation.
pub struct BlinkAnimationView<T> {
    pub keyframes: Seq<Keyframe<T>>,
    pub period: T,
}

/// A looping sequence of keyframes. It always has at least one keyframe.
#[derive(Debug)]
pub struct BlinkAnimation<T> {
    keyframes: Vec<Keyframe<T>>,
    period: T,
}

impl<T> View for BlinkAnimation<T> {
    type V = BlinkAnimationView<T>;

    closed spec fn view(&self) -> BlinkAnimationView<T> {
        BlinkAnimationView { keyframes: self.keyframes@, period: self.period }
    }
}

impl<T> BlinkAnimation<T> {
    #[verifier::type_invariant]
    spec fn has_keyframes(self) -> bool {
        self.keyframes@.len() > 0
    }
}

impl<T: Copy> BlinkAnimation<T> {
    /// Makes an animation of a table of keyframes, ordered by time, and the
    /// length of its loop. A table without keyframes is refused.
    pub fn new(keyframes: Vec<Keyframe<T>>, period: T) -> (animation: Option<Self>)
        ensures
            animation is Some <==> keyframes@.len() > 0,
            animation matches Some(a) ==> a@.keyframes == keyframes@ && a@.period == period,
    {
        if keyframes.len() == 0 {
            None
        } else {
            Some(BlinkAnimation { keyframes, period })
        }
    }

    /// The keyframes, in order.
    pub fn keyframes(&self) -> (keyframes: &Vec<Keyframe<T>>)
        ensures
            keyframes@ == self@.keyframes,
            keyframes@.len() > 0,
    {
        proof {
            use_type_invariant(self);
        }
        &self.keyframes
    }

    /// The length of the loop.
    pub fn period(&self) -> (period: T)
        ensures
            period == self@.period,
    {
        self.period
    }

    /// Says what the animation does at a time of its loop.
    ///
    /// `first_later` is the index of the first keyframe whose time is
    /// greater than the time asked for, or `None` if there is none.
    pub fn bracket(&self, first_later: Option<usize>) -> (bracket: Bracket<T>)
        requires
            first_later matches Some(next) ==> next < self@.keyframes.len(),
        ensures
            bracket == bracket_of(self@.keyframes, first_later),
    {
        proof {
            use_type_invariant(self);
        }
        match first_later {
            None => Bracket::Hold(self.keyframes[self.keyframes.len() - 1].value),
            Some(next) => {
                if next == 0 {
                    Bracket::Hold(self.keyframes[0].value)
                } else {
                    Bracket::Blend { from: self.keyframes[next - 1], to: self.keyframes[next] }
                }
            },
        }
    }
}

} // verus!
