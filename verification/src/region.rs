//! The invalid region of a window: the accumulating set of rectangles that
//! differ from what was last presented and must be re-rasterised.
//!
//! The region is modelled as the sequence of rectangles added since it was
//! last cleared; the area it stands for is the union of those rectangles,
//! captured by [`covers`].

use crate::geometry::{Rect, Size};
use vstd::prelude::*;

verus! {

/// Whether the point `(x, y)` lies under the union of the rectangles in `s`.
pub open spec fn covers(s: Seq<Rect>, x: int, y: int) -> bool {
    exists|i: int| 0 <= i < s.len() && #[trigger] s[i].spec_contains(x, y)
}

/// An accumulating set of damaged rectangles, drained by a successful
/// render pass.
#[derive(Clone, Debug)]
pub struct Region {
    rects: Vec<Rect>,
}

impl View for Region {
    type V = Seq<Rect>;

    closed spec fn view(&self) -> Seq<Rect> {
        self.rects@
    }
}

impl Region {
    /// Every accumulated rectangle is well-formed, allowing for the damage
    /// margin on each side.
    pub open spec fn wf(self) -> bool {
        forall|i: int| 0 <= i < self@.len() ==> (#[trigger] self@[i]).damage_wf()
    }

    /// Whether the point `(x, y)` lies under the accumulated region.
    pub open spec fn spec_covers(self, x: int, y: int) -> bool {
        covers(self@, x, y)
    }

    /// A region covering nothing.
    pub fn empty() -> (r: Region)
        ensures
            r@ == Seq::<Rect>::empty(),
            r.wf(),
    {
        Region { rects: Vec::new() }
    }

    /// A region covering exactly the full bounds of a surface of `size`.
    pub fn full(size: Size) -> (r: Region)
        requires
            size.wf(),
        ensures
            r@ == seq![size.spec_to_rect()],
            r.wf(),
    {
        let mut rects: Vec<Rect> = Vec::new();
        rects.push(size.to_rect());
        Region { rects }
    }

    /// Accumulate one more damaged rectangle.
    pub fn add_rect(&mut self, rect: Rect)
        requires
            old(self).wf(),
            rect.damage_wf(),
        ensures
            final(self)@ == old(self)@.push(rect),
            final(self).wf(),
    {
        self.rects.push(rect);
        proof {
            assert forall|i: int| 0 <= i < self@.len() implies (#[trigger] self@[i]).damage_wf() by {
                if i < self@.len() - 1 {
                    assert(self@[i] == old(self)@[i]);
                } else {
                    assert(self@[i] == rect);
                }
            }
        }
    }

    /// Forget all accumulated damage.
    pub fn clear(&mut self)
        ensures
            final(self)@ == Seq::<Rect>::empty(),
            final(self).wf(),
    {
        self.rects.clear();
    }

    /// The accumulated rectangles, oldest first.
    pub fn rects(&self) -> (r: &Vec<Rect>)
        ensures
            r@ == self@,
    {
        &self.rects
    }

    pub fn len(&self) -> (r: usize)
        ensures
            r == self@.len(),
    {
        self.rects.len()
    }

    /// Whether the accumulated region covers the point `(x, y)`: exactly
    /// when one of the added rectangles contains it, so the region is the
    /// union of what was added.
    pub fn covers_point(&self, x: i64, y: i64) -> (r: bool)
        ensures
            r == self.spec_covers(x as int, y as int),
    {
        let mut i: usize = 0;
        while i < self.rects.len()
            invariant
                0 <= i <= self@.len(),
                forall|k: int| 0 <= k < i ==> !(#[trigger] self@[k]).spec_contains(
                    x as int,
                    y as int,
                ),
            decreases self@.len() - i,
        {
            if self.rects[i].contains(x, y) {
                return true;
            }
            i = i + 1;
        }
        false
    }

    pub fn is_empty(&self) -> (r: bool)
        ensures
            r == (self@.len() == 0),
    {
        self.rects.is_empty()
    }
}

/// Law: a region built by accumulating exactly the two rectangles `a` then
/// `b` covers a point precisely when `a` covers it or `b` covers it — the
/// accumulated damage is the union of what was added.
pub proof fn lemma_two_rects_cover_union(a: Rect, b: Rect, x: int, y: int)
    ensures
        covers(seq![a, b], x, y) <==> (a.spec_contains(x, y) || b.spec_contains(x, y)),
{
    let s = seq![a, b];
    if a.spec_contains(x, y) {
        assert(s[0].spec_contains(x, y));
    }
    if b.spec_contains(x, y) {
        assert(s[1].spec_contains(x, y));
    }
    if covers(s, x, y) {
        let i = choose|i: int| 0 <= i < s.len() && #[trigger] s[i].spec_contains(x, y);
        assert(i == 0 || i == 1);
    }
}

} // verus!
