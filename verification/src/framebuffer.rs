//! The framebuffer: one packed colour and one depth for each pixel, written
//! only by a fragment that is closer than what the pixel holds.

use vstd::prelude::*;

use crate::color::Color;
use crate::scalar::{lemma_less_than_transitive, Scalar, INFINITY_BITS};

verus! {

/// What a framebuffer holds. Pixels and depths lie row by row: the pixel in
/// column `x` of row `y` is at place `y * width + x`.
#[verifier::ext_equal]
pub struct FramebufferView {
    pub width: nat,
    pub height: nat,
    pub pixels: Seq<u32>,
    pub depths: Seq<Scalar>,
    pub background_color: Color,
    pub current_color: Color,
}

impl FramebufferView {
    /// Whether there is one pixel and one depth for each place.
    pub open spec fn wf(self) -> bool {
        &&& self.pixels.len() == self.width * self.height
        &&& self.depths.len() == self.width * self.height
    }

    /// Whether the framebuffer has a pixel in column `x` of row `y`.
    pub open spec fn in_bounds(self, x: int, y: int) -> bool {
        0 <= x < self.width && 0 <= y < self.height
    }

    /// The place of the pixel in column `x` of row `y`.
    pub open spec fn offset(self, x: int, y: int) -> int {
        y * self.width + x
    }

    /// The framebuffer of the size given before anything is drawn: every
    /// pixel zero, every depth positive infinity, a black background and a
    /// white pen.
    pub open spec fn blank(width: nat, height: nat) -> FramebufferView {
        FramebufferView {
            width,
            height,
            pixels: Seq::new(width * height, |i: int| 0u32),
            depths: Seq::new(width * height, |i: int| Scalar { bits: INFINITY_BITS }),
            background_color: Color { r: 0, g: 0, b: 0 },
            current_color: Color { r: 255, g: 255, b: 255 },
        }
    }

    /// This framebuffer with every pixel set to the background colour and
    /// every depth to positive infinity.
    pub open spec fn cleared(self) -> FramebufferView {
        FramebufferView {
            pixels: Seq::new(self.pixels.len(), |i: int| self.background_color.packed()),
            depths: Seq::new(self.depths.len(), |i: int| Scalar { bits: INFINITY_BITS }),
            ..self
        }
    }

    /// Whether a fragment of the depth given at column `x` of row `y` would
    /// be written: the pixel exists, and the fragment is closer than what
    /// the pixel holds.
    pub open spec fn accepts(self, x: int, y: int, depth: Scalar) -> bool {
        self.in_bounds(x, y) && depth.less_than(self.depths[self.offset(x, y)])
    }

    /// This framebuffer after a fragment is drawn: where it is accepted,
    /// its colour and depth replace those of its pixel; where it is not,
    /// nothing changes.
    pub open spec fn point(self, x: int, y: int, color: Color, depth: Scalar) -> FramebufferView {
        if self.accepts(x, y, depth) {
            FramebufferView {
                pixels: self.pixels.update(self.offset(x, y), color.packed()),
                depths: self.depths.update(self.offset(x, y), depth),
                ..self
            }
        } else {
            self
        }
    }
}

/// The place of a pixel that exists is a place of the buffers, and two
/// pixels share a place only where they are one pixel.
pub proof fn lemma_offset(width: nat, height: nat, x: int, y: int, x2: int, y2: int)
    requires
        0 <= x < width,
        0 <= y < height,
        0 <= x2 < width,
        0 <= y2 < height,
    ensures
        0 <= y * width + x < width * height,
        y * width + x == y2 * width + x2 ==> x == x2 && y == y2,
{
    assert(0 <= y * width + x < width * height) by (nonlinear_arith)
        requires
            0 <= x < width,
            0 <= y < height,
    ;
    if y < y2 {
        assert(y * width + x < y2 * width + x2) by (nonlinear_arith)
            requires
                0 <= x < width,
                0 <= x2,
                0 <= y < y2,
        ;
    } else if y2 < y {
        assert(y2 * width + x2 < y * width + x) by (nonlinear_arith)
            requires
                0 <= x2 < width,
                0 <= x,
                0 <= y2 < y,
        ;
    }
}

/// Drawing keeps the size of a framebuffer and leaves it sound.
pub proof fn lemma_point_wf(fb: FramebufferView, x: int, y: int, color: Color, depth: Scalar)
    requires
        fb.wf(),
    ensures
        fb.point(x, y, color, depth).wf(),
        fb.point(x, y, color, depth).width == fb.width,
        fb.point(x, y, color, depth).height == fb.height,
        fb.point(x, y, color, depth).background_color == fb.background_color,
        fb.point(x, y, color, depth).current_color == fb.current_color,
{
    if fb.in_bounds(x, y) {
        lemma_offset(fb.width, fb.height, x, y, x, y);
    }
}

/// Drawing touches one pixel at most: every other pixel keeps its colour
/// and its depth.
pub proof fn lemma_point_elsewhere(
    fb: FramebufferView,
    x: int,
    y: int,
    color: Color,
    depth: Scalar,
    x2: int,
    y2: int,
)
    requires
        fb.wf(),
        fb.in_bounds(x2, y2),
        x != x2 || y != y2,
    ensures
        fb.point(x, y, color, depth).pixels[fb.offset(x2, y2)] == fb.pixels[fb.offset(x2, y2)],
        fb.point(x, y, color, depth).depths[fb.offset(x2, y2)] == fb.depths[fb.offset(x2, y2)],
{
    lemma_offset(fb.width, fb.height, x2, y2, x2, y2);
    if fb.in_bounds(x, y) {
        lemma_offset(fb.width, fb.height, x, y, x2, y2);
    }
}

/// The depth test is idempotent: a fragment drawn twice leaves what it
/// leaves drawn once.
pub proof fn lemma_point_idempotent(fb: FramebufferView, x: int, y: int, color: Color, depth: Scalar)
    requires
        fb.wf(),
    ensures
        fb.point(x, y, color, depth).point(x, y, color, depth) == fb.point(x, y, color, depth),
{
    if fb.in_bounds(x, y) {
        lemma_offset(fb.width, fb.height, x, y, x, y);
    }
}

/// The closer of two fragments at one pixel wins in either order of
/// drawing: both orders leave what the closer one leaves alone.
pub proof fn lemma_closer_wins(
    fb: FramebufferView,
    x: int,
    y: int,
    near_color: Color,
    near: Scalar,
    far_color: Color,
    far: Scalar,
)
    requires
        fb.wf(),
        near.less_than(far),
    ensures
        fb.point(x, y, far_color, far).point(x, y, near_color, near) == fb.point(
            x,
            y,
            near_color,
            near,
        ),
        fb.point(x, y, near_color, near).point(x, y, far_color, far) == fb.point(
            x,
            y,
            near_color,
            near,
        ),
{
    if fb.in_bounds(x, y) {
        lemma_offset(fb.width, fb.height, x, y, x, y);
        let o = fb.offset(x, y);
        if far.less_than(fb.depths[o]) {
            lemma_less_than_transitive(near, far, fb.depths[o]);
        }
        assert(fb.point(x, y, far_color, far).point(x, y, near_color, near) =~= fb.point(
            x,
            y,
            near_color,
            near,
        ));
        assert(fb.point(x, y, near_color, near).point(x, y, far_color, far) =~= fb.point(
            x,
            y,
            near_color,
            near,
        ));
    }
}

/// Of two fragments at one pixel that are equally close, the one drawn
/// first stays: the second changes nothing.
pub proof fn lemma_tie_keeps_first(
    fb: FramebufferView,
    x: int,
    y: int,
    first_color: Color,
    first: Scalar,
    second_color: Color,
    second: Scalar,
)
    requires
        fb.wf(),
        !second.less_than(first),
        fb.accepts(x, y, first),
    ensures
        fb.point(x, y, first_color, first).point(x, y, second_color, second) == fb.point(
            x,
            y,
            first_color,
            first,
        ),
{
    lemma_offset(fb.width, fb.height, x, y, x, y);
}

/// Fragments at two pixels can be drawn in either order.
pub proof fn lemma_points_commute(
    fb: FramebufferView,
    x: int,
    y: int,
    color: Color,
    depth: Scalar,
    x2: int,
    y2: int,
    color2: Color,
    depth2: Scalar,
)
    requires
        fb.wf(),
        x != x2 || y != y2,
    ensures
        fb.point(x, y, color, depth).point(x2, y2, color2, depth2) == fb.point(
            x2,
            y2,
            color2,
            depth2,
        ).point(x, y, color, depth),
{
    if fb.in_bounds(x, y) {
        lemma_offset(fb.width, fb.height, x, y, x, y);
    }
    if fb.in_bounds(x2, y2) {
        lemma_offset(fb.width, fb.height, x2, y2, x2, y2);
    }
    if fb.in_bounds(x, y) && fb.in_bounds(x2, y2) {
        lemma_offset(fb.width, fb.height, x, y, x2, y2);
    }
    assert(fb.point(x, y, color, depth).point(x2, y2, color2, depth2) =~= fb.point(
        x2,
        y2,
        color2,
        depth2,
    ).point(x, y, color, depth));
}

/// After `clear` and before anything is drawn, every pixel holds the
/// background colour and every depth is positive infinity; the size and
/// the two colours are as before.
pub proof fn lemma_cleared(fb: FramebufferView)
    requires
        fb.wf(),
    ensures
        fb.cleared().wf(),
        fb.cleared().width == fb.width,
        fb.cleared().height == fb.height,
        fb.cleared().background_color == fb.background_color,
        fb.cleared().current_color == fb.current_color,
        forall|i: int|
            0 <= i < fb.width * fb.height ==> #[trigger] fb.cleared().pixels[i]
                == fb.background_color.packed(),
        forall|i: int|
            0 <= i < fb.width * fb.height ==> (#[trigger] fb.cleared().depths[i]).bits
                == INFINITY_BITS,
        fb.cleared().cleared() == fb.cleared(),
{
    assert(fb.cleared().cleared() =~= fb.cleared());
}

/// A pixel buffer with its depth buffer.
#[derive(Debug)]
pub struct Framebuffer {
    width: usize,
    height: usize,
    buffer: Vec<u32>,
    zbuffer: Vec<Scalar>,
    background_color: Color,
    current_color: Color,
}

impl View for Framebuffer {
    type V = FramebufferView;

    closed spec fn view(&self) -> FramebufferView {
        FramebufferView {
            width: self.width as nat,
            height: self.height as nat,
            pixels: self.buffer@,
            depths: self.zbuffer@,
            background_color: self.background_color,
            current_color: self.current_color,
        }
    }
}

impl Framebuffer {
    #[verifier::type_invariant]
    spec fn sound(&self) -> bool {
        self@.wf()
    }

    /// A framebuffer of `width` columns and `height` rows with nothing
    /// drawn: see `FramebufferView::blank`.
    pub fn new(width: usize, height: usize) -> (fb: Framebuffer)
        requires
            width * height <= usize::MAX,
        ensures
            fb@ == FramebufferView::blank(width as nat, height as nat),
            fb@.wf(),
    {
        let n = width * height;
        let fb = Framebuffer {
            width,
            height,
            buffer: vec![0u32; n],
            zbuffer: vec![Scalar { bits: INFINITY_BITS }; n],
            background_color: Color { r: 0, g: 0, b: 0 },
            current_color: Color { r: 255, g: 255, b: 255 },
        };
        assert(fb@ =~= FramebufferView::blank(width as nat, height as nat));
        fb
    }

    /// Sets every pixel to the background colour and every depth to
    /// positive infinity.
    pub fn clear(&mut self)
        ensures
            final(self)@ == old(self)@.cleared(),
            final(self)@.wf(),
    {
        proof {
            use_type_invariant(&*self);
        }
        let color = self.background_color.to_u32();
        let n = self.buffer.len();
        let mut i: usize = 0;
        while i < n
            invariant
                i <= n,
                n == self.buffer.len(),
                n == self.zbuffer.len(),
                self.width == old(self).width,
                self.height == old(self).height,
                self.background_color == old(self).background_color,
                self.current_color == old(self).current_color,
                n == old(self).buffer.len(),
                n == self.width * self.height,
                color == self.background_color.packed(),
                forall|k: int| 0 <= k < i ==> self.buffer@[k] == color,
                forall|k: int| 0 <= k < i ==> self.zbuffer@[k] == (Scalar { bits: INFINITY_BITS }),
            decreases n - i,
        {
            self.buffer[i] = color;
            self.zbuffer[i] = Scalar { bits: INFINITY_BITS };
            i += 1;
        }
        assert(self@ =~= old(self)@.cleared());
    }

    /// Draws a fragment: where the pixel in column `x` of row `y` exists
    /// and `depth` is less than the depth that it holds, the pixel takes
    /// the colour and the depth. A fragment outside the framebuffer, one no
    /// closer than what is there, and one whose depth is a NaN change
    /// nothing.
    pub fn point(&mut self, x: usize, y: usize, color: Color, depth: Scalar)
        ensures
            final(self)@ == old(self)@.point(x as int, y as int, color, depth),
            final(self)@.wf(),
    {
        proof {
            use_type_invariant(&*self);
        }
        let n = self.buffer.len();
        if x < self.width && y < self.height {
            proof {
                assert(0 <= y * self.width <= y * self.width + x < self.width * self.height) by (nonlinear_arith)
                    requires
                        0 <= x < self.width,
                        0 <= y < self.height,
                ;
                assert(n == self.width * self.height);
            }
            let index = y * self.width + x;
            if depth.is_less_than(self.zbuffer[index]) {
                self.buffer[index] = color.to_u32();
                self.zbuffer[index] = depth;
            }
        }
        assert(self@ =~= old(self)@.point(x as int, y as int, color, depth));
    }

    /// Sets the colour that `clear` fills with.
    pub fn set_background_color(&mut self, color: Color)
        ensures
            final(self)@ == (FramebufferView { background_color: color, ..old(self)@ }),
    {
        proof {
            use_type_invariant(&*self);
        }
        self.background_color = color;
    }

    /// Sets the pen colour.
    pub fn set_current_color(&mut self, color: Color)
        ensures
            final(self)@ == (FramebufferView { current_color: color, ..old(self)@ }),
    {
        proof {
            use_type_invariant(&*self);
        }
        self.current_color = color;
    }

    /// Whether the framebuffer has a pixel in column `x` of row `y`.
    pub fn contains(&self, x: i32, y: i32) -> (r: bool)
        ensures
            r == self@.in_bounds(x as int, y as int),
    {
        x >= 0 && y >= 0 && (x as usize) < self.width && (y as usize) < self.height
    }

    /// The number of columns.
    pub fn width(&self) -> (w: usize)
        ensures
            w == self@.width,
    {
        self.width
    }

    /// The number of rows.
    pub fn height(&self) -> (h: usize)
        ensures
            h == self@.height,
    {
        self.height
    }

    /// The packed colours of the pixels, row by row.
    pub fn buffer(&self) -> (pixels: &Vec<u32>)
        ensures
            pixels@ == self@.pixels,
            self@.wf(),
    {
        proof {
            use_type_invariant(self);
        }
        &self.buffer
    }

    /// The depths of the pixels, row by row.
    pub fn zbuffer(&self) -> (depths: &Vec<Scalar>)
        ensures
            depths@ == self@.depths,
            self@.wf(),
    {
        proof {
            use_type_invariant(self);
        }
        &self.zbuffer
    }

    /// The colour that `clear` fills with.
    pub fn background_color(&self) -> (c: Color)
        ensures
            c == self@.background_color,
    {
        self.background_color
    }

    /// The pen colour.
    pub fn current_color(&self) -> (c: Color)
        ensures
            c == self@.current_color,
    {
        self.current_color
    }
}

} // verus!
