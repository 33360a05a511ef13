//! Closed cubic Bezier outlines built from anchors with two tangent handles.
//!
//! The types are generic over the coordinate scalar `T`. Nothing in this
//! module computes with coordinates: it fixes which anchor, which handle and
//! which slot a value belongs to, and leaves the arithmetic to the caller.

use vstd::prelude::*;

verus! {

/// A point on a curve with the two handle offsets that shape the segments
/// entering and leaving it. Handles are relative to `position`.
#[derive(Debug, PartialEq)]
pub struct BezierAnchor<T> {
    /// Anchor position in absolute coordinates.
    pub position: [T; 2],
    /// Offset of the incoming handle; points toward the previous anchor.
    pub handle_in: [T; 2],
    /// Offset of the outgoing handle; points toward the next anchor.
    pub handle_out: [T; 2],
}

impl<T: Copy> Clone for BezierAnchor<T> {
    fn clone(&self) -> (r: Self)
        ensures
            r == *self,
    {
        *self
    }
}

impl<T: Copy> Copy for BezierAnchor<T> {

}

impl<T: Copy> BezierAnchor<T> {
    /// The anchor with its position replaced and both handles kept.
    pub open spec fn moved_to(self, position: [T; 2]) -> Self {
        BezierAnchor { position, ..self }
    }

    /// The anchor with both handles replaced and its position kept.
    pub open spec fn with_handles(self, handle_in: [T; 2], handle_out: [T; 2]) -> Self {
        BezierAnchor { handle_in, handle_out, ..self }
    }

    /// Moves the anchor to `position`; the handles travel with it unchanged.
    pub fn with_position(&self, position: [T; 2]) -> (r: Self)
        ensures
            r == self.moved_to(position),
    {
        BezierAnchor { position, handle_in: self.handle_in, handle_out: self.handle_out }
    }

    /// Re-aligns the incoming handle after the outgoing handle was edited.
    ///
    /// `mirrored` is the incoming handle turned opposite to `handle_out` at
    /// its own length, or `None` when `handle_out` is too short to give a
    /// direction. The position and `handle_out` are never touched; with
    /// `None` the anchor is left exactly as it was.
    pub fn enforce_collinear_from_out(&mut self, mirrored: Option<[T; 2]>)
        ensures
            final(self).position == old(self).position,
            final(self).handle_out == old(self).handle_out,
            final(self).handle_in == (match mirrored {
                Some(h) => h,
                None => old(self).handle_in,
            }),
    {
        if let Some(h) = mirrored {
            self.handle_in = h;
        }
    }

    /// Re-aligns the outgoing handle after the incoming handle was edited.
    ///
    /// `mirrored` is the outgoing handle turned opposite to `handle_in` at
    /// its own length, or `None` when `handle_in` is too short to give a
    /// direction. The position and `handle_in` are never touched; with
    /// `None` the anchor is left exactly as it was.
    pub fn enforce_collinear_from_in(&mut self, mirrored: Option<[T; 2]>)
        ensures
            final(self).position == old(self).position,
            final(self).handle_in == old(self).handle_in,
            final(self).handle_out == (match mirrored {
                Some(h) => h,
                None => old(self).handle_out,
            }),
    {
        if let Some(h) = mirrored {
            self.handle_out = h;
        }
    }
}

/// A length along one axis, given in both directions: `pos` toward
/// increasing coordinates, `neg` the same length toward decreasing ones.
#[derive(Debug, PartialEq)]
pub struct Span<T> {
    pub pos: T,
    pub neg: T,
}

impl<T: Copy> Clone for Span<T> {
    fn clone(&self) -> (r: Self)
        ensures
            r == *self,
    {
        *self
    }
}

impl<T: Copy> Copy for Span<T> {

}

/// A pair of handles fitted to an anchor, as `(handle_in, handle_out)`.
pub type HandlePair<T> = ([T; 2], [T; 2]);

/// The first half of a segment's control points: the anchor the segment
/// leaves, followed by the tip of its outgoing handle.
pub open spec fn outgoing_row<T>(a: BezierAnchor<T>, out_tip: [T; 2]) -> [T; 4] {
    [a.position[0], a.position[1], out_tip[0], out_tip[1]]
}

/// The second half of a segment's control points: the tip of the incoming
/// handle of the anchor the segment arrives at, followed by that anchor.
pub open spec fn incoming_row<T>(b: BezierAnchor<T>, in_tip: [T; 2]) -> [T; 4] {
    [in_tip[0], in_tip[1], b.position[0], b.position[1]]
}

fn pack_outgoing<T: Copy>(a: &BezierAnchor<T>, out_tip: &[T; 2]) -> (r: [T; 4])
    ensures
        r == outgoing_row(*a, *out_tip),
{
    let r = [a.position[0], a.position[1], out_tip[0], out_tip[1]];
    assert(r =~= outgoing_row(*a, *out_tip));
    r
}

fn pack_incoming<T: Copy>(b: &BezierAnchor<T>, in_tip: &[T; 2]) -> (r: [T; 4])
    ensures
        r == incoming_row(*b, *in_tip),
{
    let r = [in_tip[0], in_tip[1], b.position[0], b.position[1]];
    assert(r =~= incoming_row(*b, *in_tip));
    r
}

/// Four anchors, ordered left, top, right, bottom, joined into a closed path
/// of four cubic segments. Segment `i` runs from anchor `i` to anchor
/// `(i + 1) mod 4`.
#[derive(Debug, PartialEq)]
pub struct BezierOutline<T> {
    pub anchors: [BezierAnchor<T>; 4],
}

impl<T: Copy> Clone for BezierOutline<T> {
    fn clone(&self) -> (r: Self)
        ensures
            r == *self,
    {
        *self
    }
}

impl<T: Copy> Copy for BezierOutline<T> {

}

impl<T: Copy> BezierOutline<T> {
    /// The anchor that follows anchor `i` on the closed path.
    pub open spec fn next_index(i: int) -> int {
        (i + 1) % 4
    }

    /// The anchor that precedes anchor `i` on the closed path.
    pub open spec fn prev_index(i: int) -> int {
        (i + 3) % 4
    }

    /// Row `row` of the packed control points. Rows `2 * seg` and
    /// `2 * seg + 1` together hold the four control points of segment `seg`.
    pub open spec fn uniform_row(
        self,
        out_tips: [[T; 2]; 4],
        in_tips: [[T; 2]; 4],
        row: int,
    ) -> [T; 4] {
        let seg = row / 2;
        let next = Self::next_index(seg);
        if row % 2 == 0 {
            outgoing_row(self.anchors[seg], out_tips[seg])
        } else {
            incoming_row(self.anchors[next], in_tips[next])
        }
    }

    /// Four anchors on the axes of a lens-shaped outline.
    ///
    /// The left and right anchors sit at height `corner_y`, `half_width`
    /// away from the vertical axis, with vertical handles of length `hy`.
    /// The top and bottom anchors sit on the vertical axis at `top_y` and
    /// `bottom_y`, with horizontal handles of length `hx`. Going round the
    /// path left, top, right, bottom, each outgoing handle points the way
    /// the path continues and each incoming handle points back.
    pub open spec fn placed(
        half_width: Span<T>,
        corner_y: T,
        top_y: T,
        bottom_y: T,
        hx: Span<T>,
        hy: Span<T>,
        zero: T,
    ) -> Self {
        BezierOutline {
            anchors: [
                BezierAnchor {
                    position: [half_width.neg, corner_y],
                    handle_in: [zero, hy.neg],
                    handle_out: [zero, hy.pos],
                },
                BezierAnchor {
                    position: [zero, top_y],
                    handle_in: [hx.neg, zero],
                    handle_out: [hx.pos, zero],
                },
                BezierAnchor {
                    position: [half_width.pos, corner_y],
                    handle_in: [zero, hy.pos],
                    handle_out: [zero, hy.neg],
                },
                BezierAnchor {
                    position: [zero, bottom_y],
                    handle_in: [hx.pos, zero],
                    handle_out: [hx.neg, zero],
                },
            ],
        }
    }

    /// Anchor `i` after it has been refitted: with `Some` it takes the given
    /// handles, with `None` it stays as it is. Its position never changes.
    pub open spec fn refitted(self, i: int, fitted: Option<HandlePair<T>>) -> BezierAnchor<T> {
        match fitted {
            Some((handle_in, handle_out)) => self.anchors[i].with_handles(handle_in, handle_out),
            None => self.anchors[i],
        }
    }

    fn place(
        half_width: Span<T>,
        corner_y: T,
        top_y: T,
        bottom_y: T,
        hx: Span<T>,
        hy: Span<T>,
        zero: T,
    ) -> (r: Self)
        ensures
            r == Self::placed(half_width, corner_y, top_y, bottom_y, hx, hy, zero),
    {
        let r = BezierOutline {
            anchors: [
                BezierAnchor {
                    position: [half_width.neg, corner_y],
                    handle_in: [zero, hy.neg],
                    handle_out: [zero, hy.pos],
                },
                BezierAnchor {
                    position: [zero, top_y],
                    handle_in: [hx.neg, zero],
                    handle_out: [hx.pos, zero],
                },
                BezierAnchor {
                    position: [half_width.pos, corner_y],
                    handle_in: [zero, hy.pos],
                    handle_out: [zero, hy.neg],
                },
                BezierAnchor {
                    position: [zero, bottom_y],
                    handle_in: [hx.pos, zero],
                    handle_out: [hx.neg, zero],
                },
            ],
        };
        proof {
            let want = Self::placed(half_width, corner_y, top_y, bottom_y, hx, hy, zero);
            assert forall|i: int| 0 <= i < 4 implies r.anchors[i] == want.anchors[i] by {
                assert(r.anchors[i].position =~= want.anchors[i].position);
                assert(r.anchors[i].handle_in =~= want.anchors[i].handle_in);
                assert(r.anchors[i].handle_out =~= want.anchors[i].handle_out);
            }
            assert(r.anchors =~= want.anchors);
        }
        r
    }

    /// A circle of radius `r`, approximated by four arcs whose handles have
    /// length `h` (the radius scaled by the circle constant).
    pub fn circle(r: Span<T>, h: Span<T>, zero: T) -> (o: Self)
        ensures
            o == Self::placed(r, zero, r.pos, r.neg, h, h, zero),
    {
        Self::ellipse(r, r, h, h, zero)
    }

    /// An ellipse with radii `rx` and `ry`, centred on the origin `zero`.
    /// `hx` and `hy` are the handle lengths, the radii scaled by the circle
    /// constant.
    pub fn ellipse(rx: Span<T>, ry: Span<T>, hx: Span<T>, hy: Span<T>, zero: T) -> (o: Self)
        ensures
            o == Self::placed(rx, zero, ry.pos, ry.neg, hx, hy, zero),
    {
        Self::place(rx, zero, ry.pos, ry.neg, hx, hy, zero)
    }

    /// A thin arc for an eyebrow, centred on the origin `zero`: an ellipse
    /// of radii `half_width` and `thickness` whose tips are drawn to points
    /// by the short vertical handles `tip`. `hw` is the length of the
    /// horizontal handles at the top and bottom.
    pub fn eyebrow_arc(
        half_width: Span<T>,
        thickness: Span<T>,
        hw: Span<T>,
        tip: Span<T>,
        zero: T,
    ) -> (o: Self)
        ensures
            o == Self::placed(half_width, zero, thickness.pos, thickness.neg, hw, tip, zero),
    {
        Self::place(half_width, zero, thickness.pos, thickness.neg, hw, tip, zero)
    }

    /// A closed-eye slit at height `y_pos`: corners `half_width` to either
    /// side, the top anchor at `top_y` barely above and the bottom anchor at
    /// `bottom_y` barely below. `hw` is the length of the horizontal
    /// handles, `tiny` that of the vertical handles at the corners.
    pub fn closed_slit(
        half_width: Span<T>,
        y_pos: T,
        top_y: T,
        bottom_y: T,
        hw: Span<T>,
        tiny: Span<T>,
        zero: T,
    ) -> (o: Self)
        ensures
            o == Self::placed(half_width, y_pos, top_y, bottom_y, hw, tiny, zero),
    {
        Self::place(half_width, y_pos, top_y, bottom_y, hw, tiny, zero)
    }

    /// A closed-eye slit whose lid arches away from the corners.
    ///
    /// The corners sit at `y_slit`. The top anchor sits at `top_y`, the slit
    /// height plus the arch, and the bottom anchor at `bottom_y`, a small
    /// fixed offset below the top one, so that the lids keep their order
    /// whichever way the arch goes. `hw` is the length of the horizontal
    /// handles, `tiny` that of the vertical handles at the corners.
    pub fn closed_slit_asymmetric(
        half_width: Span<T>,
        y_slit: T,
        top_y: T,
        bottom_y: T,
        hw: Span<T>,
        tiny: Span<T>,
        zero: T,
    ) -> (o: Self)
        ensures
            o == Self::placed(half_width, y_slit, top_y, bottom_y, hw, tiny, zero),
    {
        Self::place(half_width, y_slit, top_y, bottom_y, hw, tiny, zero)
    }

    /// The two neighbours of anchor `i`, as `(previous, next)`: the anchors
    /// from which the handles of anchor `i` are fitted.
    pub fn neighbors(i: usize) -> (r: (usize, usize))
        requires
            i < 4,
        ensures
            r.0 == Self::prev_index(i as int),
            r.1 == Self::next_index(i as int),
    {
        ((i + 3) % 4, (i + 1) % 4)
    }

    /// Gives anchor `i` the handles fitted to its two neighbours.
    ///
    /// `fitted` is the pair the caller has computed from the positions of
    /// the anchor and of `neighbors(i)`, or `None` when a neighbour
    /// coincides with the anchor and no direction can be had. Only the
    /// handles of anchor `i` change.
    pub fn auto_adjust_handle_at(&mut self, i: usize, fitted: Option<HandlePair<T>>)
        requires
            i < 4,
        ensures
            final(self).anchors@ == old(self).anchors@.update(
                i as int,
                old(self).refitted(i as int, fitted),
            ),
    {
        if let Some((handle_in, handle_out)) = fitted {
            self.anchors[i].handle_in = handle_in;
            self.anchors[i].handle_out = handle_out;
        }
        assert(self.anchors@ =~= old(self).anchors@.update(
            i as int,
            old(self).refitted(i as int, fitted),
        ));
    }

    /// Refits the handles of every anchor. `fitted[i]` is what
    /// `auto_adjust_handle_at` takes for anchor `i`; since fitting reads
    /// positions only, all four can be computed before any is applied.
    pub fn auto_adjust_handles(&mut self, fitted: &[Option<HandlePair<T>>; 4])
        ensures
            forall|i: int| 0 <= i < 4 ==> final(self).anchors[i] == old(self).refitted(i, fitted[i]),
    {
        let mut i: usize = 0;
        while i < 4
            invariant
                i <= 4,
                forall|j: int| 0 <= j < i ==> self.anchors[j] == old(self).refitted(j, fitted[j]),
                forall|j: int| i <= j < 4 ==> self.anchors[j] == old(self).anchors[j],
            decreases 4 - i,
        {
            self.auto_adjust_handle_at(i, fitted[i]);
            i = i + 1;
        }
    }

    /// The packed path is closed and unbroken: every segment ends on the
    /// anchor that the next segment starts from, the last segment on the
    /// anchor that the first one starts from.
    pub proof fn lemma_segments_join(
        self,
        out_tips: [[T; 2]; 4],
        in_tips: [[T; 2]; 4],
        seg: int,
    )
        requires
            0 <= seg < 4,
        ensures
            ({
                let end = self.uniform_row(out_tips, in_tips, 2 * seg + 1);
                let start = self.uniform_row(out_tips, in_tips, 2 * Self::next_index(seg));
                end[2] == start[0] && end[3] == start[1]
            }),
    {
    }

    /// Packs the outline's control points for the renderer, two points per
    /// row and two rows per segment, in path order.
    ///
    /// `out_tips[i]` and `in_tips[i]` are the absolute positions of the tips
    /// of anchor `i`'s outgoing and incoming handles (anchor position plus
    /// handle offset), which the caller has computed.
    pub fn to_uniform_array(&self, out_tips: &[[T; 2]; 4], in_tips: &[[T; 2]; 4]) -> (r: [[T; 4]; 8])
        ensures
            forall|row: int| 0 <= row < 8 ==> r[row] == self.uniform_row(*out_tips, *in_tips, row),
    {
        let a = &self.anchors;
        [
            pack_outgoing(&a[0], &out_tips[0]),
            pack_incoming(&a[1], &in_tips[1]),
            pack_outgoing(&a[1], &out_tips[1]),
            pack_incoming(&a[2], &in_tips[2]),
            pack_outgoing(&a[2], &out_tips[2]),
            pack_incoming(&a[3], &in_tips[3]),
            pack_outgoing(&a[3], &out_tips[3]),
            pack_incoming(&a[0], &in_tips[0]),
        ]
    }
}

/// Open and closed eye outlines, between which the eyelid is blended.
#[derive(Debug, PartialEq)]
pub struct EyeShape<T> {
    pub open: BezierOutline<T>,
    pub closed: BezierOutline<T>,
    /// Arch of the closed lid: negative dips below the corners, positive
    /// rises above them.
    pub close_arch: T,
}

impl<T: Copy> Clone for EyeShape<T> {
    fn clone(&self) -> (r: Self)
        ensures
            r == *self,
    {
        *self
    }
}

impl<T: Copy> Copy for EyeShape<T> {

}

impl<T: Copy> EyeShape<T> {
    /// Replaces the closed outline with `closed`, the outline regenerated by
    /// the caller from the current `close_arch`.
    pub fn update_closed(&mut self, closed: BezierOutline<T>)
        ensures
            *final(self) == (EyeShape { closed, ..*old(self) }),
    {
        self.closed = closed;
    }
}

/// Six anchors forming the closed eyebrow path `0 -> 1 -> ... -> 5 -> 0`.
/// Anchors 0, 1, 2 are the top edge from left to right; anchors 3, 4, 5 are
/// the bottom edge from right to left.
#[derive(Debug, PartialEq)]
pub struct EyebrowOutline<T> {
    pub anchors: [BezierAnchor<T>; 6],
}

impl<T: Copy> Clone for EyebrowOutline<T> {
    fn clone(&self) -> (r: Self)
        ensures
            r == *self,
    {
        *self
    }
}

impl<T: Copy> Copy for EyebrowOutline<T> {

}

impl<T: Copy> EyebrowOutline<T> {
    /// The anchor that follows anchor `i` on the closed path.
    pub open spec fn next_index(i: int) -> int {
        (i + 1) % 6
    }

    /// The anchor that precedes anchor `i` on the closed path.
    pub open spec fn prev_index(i: int) -> int {
        (i + 5) % 6
    }

    /// Row `row` of the packed control points. Rows `2 * seg` and
    /// `2 * seg + 1` together hold the four control points of segment `seg`.
    pub open spec fn uniform_row(
        self,
        out_tips: [[T; 2]; 6],
        in_tips: [[T; 2]; 6],
        row: int,
    ) -> [T; 4] {
        let seg = row / 2;
        let next = Self::next_index(seg);
        if row % 2 == 0 {
            outgoing_row(self.anchors[seg], out_tips[seg])
        } else {
            incoming_row(self.anchors[next], in_tips[next])
        }
    }

    /// Six anchors of a thin eyebrow arc around the origin.
    ///
    /// The two tips lie `half_width` to either side, each held by a top and
    /// a bottom anchor at the same place; the top and bottom centres lie
    /// `t_half` above and below the origin with horizontal handles of length
    /// `hw`. At a tip, the handle that leads along the brow has components
    /// `hw_half` and `ht_half`; the handle that leads round the tip to the
    /// other edge is vertical and short, of length `tip`.
    pub open spec fn placed(
        half_width: Span<T>,
        t_half: Span<T>,
        hw: Span<T>,
        hw_half: Span<T>,
        ht_half: Span<T>,
        tip: Span<T>,
        zero: T,
    ) -> Self {
        EyebrowOutline {
            anchors: [
                BezierAnchor {
                    position: [half_width.neg, zero],
                    handle_in: [zero, tip.neg],
                    handle_out: [hw_half.pos, ht_half.pos],
                },
                BezierAnchor {
                    position: [zero, t_half.pos],
                    handle_in: [hw.neg, zero],
                    handle_out: [hw.pos, zero],
                },
                BezierAnchor {
                    position: [half_width.pos, zero],
                    handle_in: [hw_half.neg, ht_half.pos],
                    handle_out: [zero, tip.neg],
                },
                BezierAnchor {
                    position: [half_width.pos, zero],
                    handle_in: [zero, tip.pos],
                    handle_out: [hw_half.neg, ht_half.neg],
                },
                BezierAnchor {
                    position: [zero, t_half.neg],
                    handle_in: [hw.pos, zero],
                    handle_out: [hw.neg, zero],
                },
                BezierAnchor {
                    position: [half_width.neg, zero],
                    handle_in: [hw_half.neg, ht_half.neg],
                    handle_out: [zero, tip.pos],
                },
            ],
        }
    }

    /// Anchor `i` after it has been refitted: with `Some` it takes the given
    /// handles, with `None` it stays as it is. Its position never changes.
    pub open spec fn refitted(self, i: int, fitted: Option<HandlePair<T>>) -> BezierAnchor<T> {
        match fitted {
            Some((handle_in, handle_out)) => self.anchors[i].with_handles(handle_in, handle_out),
            None => self.anchors[i],
        }
    }

    /// A thin eyebrow arc with six anchors, centred on the origin `zero`.
    ///
    /// `half_width` is the horizontal half-extent and `t_half` half the
    /// thickness. The caller supplies the handle lengths derived from them:
    /// `hw` for the centres; `hw_half` and `ht_half` for the handles that
    /// lead along the brow from a tip; `tip` for the short handles that
    /// close each tip to a point.
    pub fn eyebrow_arc(
        half_width: Span<T>,
        t_half: Span<T>,
        hw: Span<T>,
        hw_half: Span<T>,
        ht_half: Span<T>,
        tip: Span<T>,
        zero: T,
    ) -> (o: Self)
        ensures
            o == Self::placed(half_width, t_half, hw, hw_half, ht_half, tip, zero),
    {
        let o = EyebrowOutline {
            anchors: [
                BezierAnchor {
                    position: [half_width.neg, zero],
                    handle_in: [zero, tip.neg],
                    handle_out: [hw_half.pos, ht_half.pos],
                },
                BezierAnchor {
                    position: [zero, t_half.pos],
                    handle_in: [hw.neg, zero],
                    handle_out: [hw.pos, zero],
                },
                BezierAnchor {
                    position: [half_width.pos, zero],
                    handle_in: [hw_half.neg, ht_half.pos],
                    handle_out: [zero, tip.neg],
                },
                BezierAnchor {
                    position: [half_width.pos, zero],
                    handle_in: [zero, tip.pos],
                    handle_out: [hw_half.neg, ht_half.neg],
                },
                BezierAnchor {
                    position: [zero, t_half.neg],
                    handle_in: [hw.pos, zero],
                    handle_out: [hw.neg, zero],
                },
                BezierAnchor {
                    position: [half_width.neg, zero],
                    handle_in: [hw_half.neg, ht_half.neg],
                    handle_out: [zero, tip.pos],
                },
            ],
        };
        proof {
            let want = Self::placed(half_width, t_half, hw, hw_half, ht_half, tip, zero);
            assert forall|i: int| 0 <= i < 6 implies o.anchors[i] == want.anchors[i] by {
                assert(o.anchors[i].position =~= want.anchors[i].position);
                assert(o.anchors[i].handle_in =~= want.anchors[i].handle_in);
                assert(o.anchors[i].handle_out =~= want.anchors[i].handle_out);
            }
            assert(o.anchors =~= want.anchors);
        }
        o
    }

    /// The two neighbours of anchor `i`, as `(previous, next)`: the anchors
    /// from which the handles of anchor `i` are fitted.
    pub fn neighbors(i: usize) -> (r: (usize, usize))
        requires
            i < 6,
        ensures
            r.0 == Self::prev_index(i as int),
            r.1 == Self::next_index(i as int),
    {
        ((i + 5) % 6, (i + 1) % 6)
    }

    /// Gives anchor `i` the handles fitted to its two neighbours.
    ///
    /// `fitted` is the pair the caller has computed from the positions of
    /// the anchor and of `neighbors(i)`, or `None` when a neighbour
    /// coincides with the anchor and no direction can be had. Only the
    /// handles of anchor `i` change.
    pub fn auto_adjust_handle_at(&mut self, i: usize, fitted: Option<HandlePair<T>>)
        requires
            i < 6,
        ensures
            final(self).anchors@ == old(self).anchors@.update(
                i as int,
                old(self).refitted(i as int, fitted),
            ),
    {
        if let Some((handle_in, handle_out)) = fitted {
            self.anchors[i].handle_in = handle_in;
            self.anchors[i].handle_out = handle_out;
        }
        assert(self.anchors@ =~= old(self).anchors@.update(
            i as int,
            old(self).refitted(i as int, fitted),
        ));
    }

    /// Refits the handles of every anchor. `fitted[i]` is what
    /// `auto_adjust_handle_at` takes for anchor `i`; since fitting reads
    /// positions only, all six can be computed before any is applied.
    pub fn auto_adjust_handles(&mut self, fitted: &[Option<HandlePair<T>>; 6])
        ensures
            forall|i: int| 0 <= i < 6 ==> final(self).anchors[i] == old(self).refitted(i, fitted[i]),
    {
        let mut i: usize = 0;
        while i < 6
            invariant
                i <= 6,
                forall|j: int| 0 <= j < i ==> self.anchors[j] == old(self).refitted(j, fitted[j]),
                forall|j: int| i <= j < 6 ==> self.anchors[j] == old(self).anchors[j],
            decreases 6 - i,
        {
            self.auto_adjust_handle_at(i, fitted[i]);
            i = i + 1;
        }
    }

    /// The packed path is closed and unbroken: every segment ends on the
    /// anchor that the next segment starts from, the last segment on the
    /// anchor that the first one starts from.
    pub proof fn lemma_segments_join(
        self,
        out_tips: [[T; 2]; 6],
        in_tips: [[T; 2]; 6],
        seg: int,
    )
        requires
            0 <= seg < 6,
        ensures
            ({
                let end = self.uniform_row(out_tips, in_tips, 2 * seg + 1);
                let start = self.uniform_row(out_tips, in_tips, 2 * Self::next_index(seg));
                end[2] == start[0] && end[3] == start[1]
            }),
    {
    }

    /// Packs the outline's control points for the renderer, two points per
    /// row and two rows per segment, in path order.
    ///
    /// `out_tips[i]` and `in_tips[i]` are the absolute positions of the tips
    /// of anchor `i`'s outgoing and incoming handles.
    pub fn to_uniform_array(&self, out_tips: &[[T; 2]; 6], in_tips: &[[T; 2]; 6]) -> (r: [[T; 4]; 12])
        ensures
            forall|row: int| 0 <= row < 12 ==> r[row] == self.uniform_row(*out_tips, *in_tips, row),
    {
        let a = &self.anchors;
        [
            pack_outgoing(&a[0], &out_tips[0]),
            pack_incoming(&a[1], &in_tips[1]),
            pack_outgoing(&a[1], &out_tips[1]),
            pack_incoming(&a[2], &in_tips[2]),
            pack_outgoing(&a[2], &out_tips[2]),
            pack_incoming(&a[3], &in_tips[3]),
            pack_outgoing(&a[3], &out_tips[3]),
            pack_incoming(&a[4], &in_tips[4]),
            pack_outgoing(&a[4], &out_tips[4]),
            pack_incoming(&a[5], &in_tips[5]),
            pack_outgoing(&a[5], &out_tips[5]),
            pack_incoming(&a[0], &in_tips[0]),
        ]
    }
}

/// The outline anchors that guide point `gi` stands for, as
/// `(top, bottom)`.
pub open spec fn pair_of(gi: int) -> (int, int) {
    (gi, 5 - gi)
}

/// The guide point that outline anchor `j` belongs to.
pub open spec fn guide_of(j: int) -> int {
    if j < 3 {
        j
    } else {
        5 - j
    }
}

/// Every outline anchor belongs to exactly one guide point: anchor `j` is
/// one of the pair of `guide_of(j)`, and of no other guide point.
pub proof fn lemma_pairing_partitions_outline(j: int)
    requires
        0 <= j < 6,
    ensures
        0 <= guide_of(j) < 3,
        pair_of(guide_of(j)).0 == j || pair_of(guide_of(j)).1 == j,
        forall|g: int| 0 <= g < 3 && (pair_of(g).0 == j || pair_of(g).1 == j) ==> g == guide_of(j),
{
}

/// Three anchors along the eyebrow's spine, used to edit the six-anchor
/// outline with fewer points. Guide point `g` stands for the outline anchors
/// `g` (top edge) and `5 - g` (bottom edge).
#[derive(Debug, PartialEq)]
pub struct EyebrowGuide<T> {
    pub anchors: [BezierAnchor<T>; 3],
}

impl<T: Copy> Clone for EyebrowGuide<T> {
    fn clone(&self) -> (r: Self)
        ensures
            r == *self,
    {
        *self
    }
}

impl<T: Copy> Copy for EyebrowGuide<T> {

}

impl<T: Copy> EyebrowGuide<T> {
    /// The outline after guide point `gi` has been moved: its two paired
    /// anchors take the given positions and keep their handles; the other
    /// four anchors are as before.
    pub open spec fn propagated(
        outline: EyebrowOutline<T>,
        gi: int,
        moved_top: [T; 2],
        moved_bottom: [T; 2],
    ) -> Seq<BezierAnchor<T>> {
        let (top, bottom) = pair_of(gi);
        outline.anchors@.update(top, outline.anchors[top].moved_to(moved_top)).update(
            bottom,
            outline.anchors[bottom].moved_to(moved_bottom),
        )
    }

    /// Returns the outline anchors paired with guide point `gi`, as
    /// `(top, bottom)`.
    pub fn paired_indices(gi: usize) -> (r: (usize, usize))
        requires
            gi <= 5,
        ensures
            r.0 == pair_of(gi as int).0,
            r.1 == pair_of(gi as int).1,
    {
        (gi, 5 - gi)
    }

    /// Carries a translation of guide point `gi` over to the outline.
    ///
    /// `moved_top` and `moved_bottom` are the positions of the two paired
    /// anchors after the translation, which the caller has computed. Only
    /// those two positions change; every handle stays as it was.
    pub fn propagate_delta(
        gi: usize,
        moved_top: [T; 2],
        moved_bottom: [T; 2],
        outline: &mut EyebrowOutline<T>,
    )
        requires
            gi <= 5,
        ensures
            final(outline).anchors@ == Self::propagated(*old(outline), gi as int, moved_top, moved_bottom),
    {
        let (top, bottom) = Self::paired_indices(gi);
        outline.anchors[top].position = moved_top;
        outline.anchors[bottom].position = moved_bottom;
        assert(outline.anchors@ =~= Self::propagated(
            *old(outline),
            gi as int,
            moved_top,
            moved_bottom,
        ));
    }

}

/// The eyebrow: its outline, the guide derived from it, and how it sits
/// above the eye.
#[derive(Debug, PartialEq)]
pub struct EyebrowShape<T> {
    /// Six-anchor closed outline; the authoritative shape.
    pub outline: EyebrowOutline<T>,
    /// Three-anchor spine used for editing.
    pub guide: EyebrowGuide<T>,
    /// Height of the brow above the eye centre.
    pub base_y: T,
    /// How far the brow follows the eyelid as it closes.
    pub follow: T,
    /// Fill colour, linear RGB.
    pub color: [T; 3],
}

impl<T: Copy> Clone for EyebrowShape<T> {
    fn clone(&self) -> (r: Self)
        ensures
            r == *self,
    {
        *self
    }
}

impl<T: Copy> Copy for EyebrowShape<T> {

}

/// The eyelash stroke drawn along the upper lid.
#[derive(Debug, PartialEq)]
pub struct EyelashShape<T> {
    /// Fill colour, linear RGB.
    pub color: [T; 3],
    /// Stroke thickness.
    pub thickness: T,
}

impl<T: Copy> Clone for EyelashShape<T> {
    fn clone(&self) -> (r: Self)
        ensures
            r == *self,
    {
        *self
    }
}

impl<T: Copy> Copy for EyelashShape<T> {

}

/// The iris outline.
#[derive(Debug, PartialEq)]
pub struct IrisShape<T> {
    pub outline: BezierOutline<T>,
}

impl<T: Copy> Clone for IrisShape<T> {
    fn clone(&self) -> (r: Self)
        ensures
            r == *self,
    {
        *self
    }
}

impl<T: Copy> Copy for IrisShape<T> {

}

/// The pupil outline.
#[derive(Debug, PartialEq)]
pub struct PupilShape<T> {
    pub outline: BezierOutline<T>,
}

impl<T: Copy> Clone for PupilShape<T> {
    fn clone(&self) -> (r: Self)
        ensures
            r == *self,
    {
        *self
    }
}

impl<T: Copy> Copy for PupilShape<T> {

}

} // verus!
