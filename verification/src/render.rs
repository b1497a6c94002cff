//! Drawing the shaded fragments of a frame, and what a frame leaves in each
//! pixel: the closest fragment that fell on it, and of several equally
//! close the one drawn first.

use vstd::prelude::*;

use crate::color::Color;
use crate::framebuffer::{lemma_offset, lemma_point_elsewhere, lemma_point_wf, Framebuffer, FramebufferView};
use crate::scalar::{lemma_less_than_transitive, Scalar};

verus! {

/// A shaded fragment: the column and the row of its pixel, its colour and
/// its depth. The pixel need not exist: the rasteriser covers the whole
/// bounding box of a triangle, on the screen or off it.
#[derive(Debug, Clone, Copy, PartialEq, Eq, Structural)]
pub struct Sample {
    pub x: i32,
    pub y: i32,
    pub color: Color,
    pub depth: Scalar,
}

impl Sample {
    /// Whether this fragment falls on the pixel in column `x` of row `y`.
    pub open spec fn at(self, x: int, y: int) -> bool {
        self.x == x && self.y == y
    }
}

/// The framebuffer after the first `count` of the fragments are drawn, in
/// their order.
pub open spec fn drawn(fb: FramebufferView, fragments: Seq<Sample>, count: nat) -> FramebufferView
    decreases count,
{
    if count == 0 || count > fragments.len() {
        fb
    } else {
        let last = fragments[count - 1];
        drawn(fb, fragments, (count - 1) as nat).point(
            last.x as int,
            last.y as int,
            last.color,
            last.depth,
        )
    }
}

/// Draws the fragments in their order, each as `Framebuffer::point` draws
/// it. A fragment left of the first column, above the first row or beyond
/// the last of either is discarded.
pub fn render(framebuffer: &mut Framebuffer, fragments: &[Sample])
    ensures
        final(framebuffer)@ == drawn(old(framebuffer)@, fragments@, fragments@.len()),
{
    let mut i: usize = 0;
    while i < fragments.len()
        invariant
            i <= fragments.len(),
            framebuffer@ == drawn(old(framebuffer)@, fragments@, i as nat),
        decreases fragments.len() - i,
    {
        let f = fragments[i];
        if f.x >= 0 && f.y >= 0 {
            framebuffer.point(f.x as usize, f.y as usize, f.color, f.depth);
        }
        i += 1;
    }
}

/// Whether fragment `i` is the one that a frame leaves in the pixel in
/// column `x` of row `y`: it falls on the pixel, it is closer than what the
/// pixel held before the frame, no fragment on the pixel before it is as
/// close as it, and no fragment on the pixel at all is closer.
pub open spec fn wins(fb: FramebufferView, fragments: Seq<Sample>, count: nat, x: int, y: int, i: int) -> bool {
    &&& 0 <= i < count
    &&& fragments[i].at(x, y)
    &&& fragments[i].depth.less_than(fb.depths[fb.offset(x, y)])
    &&& forall|j: int|
        0 <= j < i && (#[trigger] fragments[j]).at(x, y) ==> !fragments[j].depth.at_most(
            fragments[i].depth,
        )
    &&& forall|j: int|
        0 <= j < count && (#[trigger] fragments[j]).at(x, y) ==> !fragments[j].depth.less_than(
            fragments[i].depth,
        )
}

/// Whether no fragment of a frame is drawn in the pixel in column `x` of
/// row `y`: none that falls on it is closer than what it held before.
pub open spec fn untouched(fb: FramebufferView, fragments: Seq<Sample>, count: nat, x: int, y: int) -> bool {
    forall|j: int| 0 <= j < count && (#[trigger] fragments[j]).at(x, y) ==> !fragments[j].depth.less_than(
                fb.depths[fb.offset(x, y)],
            )
}

/// What a frame leaves in each pixel. The size and the two colours of the
/// framebuffer stay. A pixel on which no fragment closer than its old depth
/// falls keeps its colour and depth. Every other pixel holds the colour and
/// the depth of one fragment: the closest that fell on it, and of several
/// equally close the first.
pub proof fn lemma_drawn(fb: FramebufferView, fragments: Seq<Sample>, count: nat, x: int, y: int)
    requires
        fb.wf(),
        count <= fragments.len(),
        fb.in_bounds(x, y),
    ensures
        drawn(fb, fragments, count).wf(),
        drawn(fb, fragments, count).width == fb.width,
        drawn(fb, fragments, count).height == fb.height,
        drawn(fb, fragments, count).background_color == fb.background_color,
        drawn(fb, fragments, count).current_color == fb.current_color,
        untouched(fb, fragments, count, x, y) ==> {
            &&& drawn(fb, fragments, count).pixels[fb.offset(x, y)] == fb.pixels[fb.offset(x, y)]
            &&& drawn(fb, fragments, count).depths[fb.offset(x, y)] == fb.depths[fb.offset(x, y)]
        },
        !untouched(fb, fragments, count, x, y) ==> exists|i: int|
            {
                &&& #[trigger] wins(fb, fragments, count, x, y, i)
                &&& drawn(fb, fragments, count).pixels[fb.offset(x, y)] == fragments[i].color.packed()
                &&& drawn(fb, fragments, count).depths[fb.offset(x, y)] == fragments[i].depth
            },
    decreases count,
{
    let o = fb.offset(x, y);
    lemma_offset(fb.width, fb.height, x, y, x, y);
    if count > 0 {
        let before = drawn(fb, fragments, (count - 1) as nat);
        let last = fragments[count - 1];
        lemma_drawn(fb, fragments, (count - 1) as nat, x, y);
        lemma_point_wf(before, last.x as int, last.y as int, last.color, last.depth);
        if !last.at(x, y) {
            lemma_point_elsewhere(before, last.x as int, last.y as int, last.color, last.depth, x, y);
            if !untouched(fb, fragments, count, x, y) {
                assert(!untouched(fb, fragments, (count - 1) as nat, x, y));
                let i = choose|i: int|
                    {
                        &&& #[trigger] wins(fb, fragments, (count - 1) as nat, x, y, i)
                        &&& before.pixels[o] == fragments[i].color.packed()
                        &&& before.depths[o] == fragments[i].depth
                    };
                assert(wins(fb, fragments, count, x, y, i));
            }
        } else if untouched(fb, fragments, (count - 1) as nat, x, y) {
            if last.depth.less_than(fb.depths[o]) {
                assert forall|j: int|
                    0 <= j < count - 1 && (#[trigger] fragments[j]).at(x, y) implies !fragments[j].depth.at_most(
                    last.depth,
                ) && !fragments[j].depth.less_than(last.depth) by {
                    assert(!fragments[j].depth.less_than(fb.depths[o]));
                }
                assert(wins(fb, fragments, count, x, y, count - 1));
            } else {
                assert(untouched(fb, fragments, count, x, y));
            }
        } else {
            let i = choose|i: int|
                {
                    &&& #[trigger] wins(fb, fragments, (count - 1) as nat, x, y, i)
                    &&& before.pixels[o] == fragments[i].color.packed()
                    &&& before.depths[o] == fragments[i].depth
                };
            if last.depth.less_than(fragments[i].depth) {
                lemma_less_than_transitive(last.depth, fragments[i].depth, fb.depths[o]);
                assert forall|j: int|
                    0 <= j < count - 1 && (#[trigger] fragments[j]).at(x, y) implies !fragments[j].depth.at_most(
                    last.depth,
                ) by {
                    assert(!fragments[j].depth.less_than(fragments[i].depth));
                }
                assert forall|j: int|
                    0 <= j < count && (#[trigger] fragments[j]).at(x, y) implies !fragments[j].depth.less_than(
                    last.depth,
                ) by {
                    if j < count - 1 {
                        assert(!fragments[j].depth.less_than(fragments[i].depth));
                    }
                }
                assert(wins(fb, fragments, count, x, y, count - 1));
            } else {
                assert(wins(fb, fragments, count, x, y, i));
            }
            assert(!untouched(fb, fragments, count, x, y));
        }
    }
}

} // verus!
