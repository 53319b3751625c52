//! The pixel sink: a color buffer and a depth buffer with a
//! nearest-wins depth test.

use vstd::prelude::*;

verus! {

/// The depth stored at a pixel nothing has been written to.
pub const DEPTH_EMPTY: i64 = 0x7fffffffffffffff;

/// A fixed-size pixel buffer with per-pixel depth. A write lands only
/// when its depth is strictly nearer than what the pixel already holds,
/// so draw calls composite correctly in any order.
pub struct Framebuffer {
    pub width: usize,
    pub height: usize,
    pub buffer: Vec<u32>,
    pub zbuffer: Vec<i64>,
    pub background_color: u32,
    pub current_color: u32,
}

/// Both buffers cover exactly width times height pixels.
pub open spec fn framebuffer_wf(fb: Framebuffer) -> bool {
    fb.buffer.len() == fb.width * fb.height
        && fb.zbuffer.len() == fb.width * fb.height
}

/// Fill a fresh vector with `n` copies of one value.
fn filled_u32(n: usize, value: u32) -> (v: Vec<u32>)
    ensures
        v@.len() == n,
        forall|i: int| 0 <= i < n ==> v@[i] == value,
{
    let mut v: Vec<u32> = Vec::new();
    let mut i: usize = 0;
    while i < n
        invariant
            i <= n,
            v@.len() == i,
            forall|j: int| 0 <= j < i ==> v@[j] == value,
        decreases n - i,
    {
        v.push(value);
        i = i + 1;
    }
    v
}

/// Fill a fresh vector with `n` copies of one value.
fn filled_i64(n: usize, value: i64) -> (v: Vec<i64>)
    ensures
        v@.len() == n,
        forall|i: int| 0 <= i < n ==> v@[i] == value,
{
    let mut v: Vec<i64> = Vec::new();
    let mut i: usize = 0;
    while i < n
        invariant
            i <= n,
            v@.len() == i,
            forall|j: int| 0 <= j < i ==> v@[j] == value,
        decreases n - i,
    {
        v.push(value);
        i = i + 1;
    }
    v
}

impl Framebuffer {
    /// A black buffer of the given dimensions, with every depth empty.
    pub fn new(width: usize, height: usize) -> (fb: Framebuffer)
        requires
            width * height <= usize::MAX,
        ensures
            framebuffer_wf(fb),
            fb.width == width,
            fb.height == height,
            fb.background_color == 0,
            fb.current_color == 0,
            forall|i: int| 0 <= i < fb.buffer@.len() ==> fb.buffer@[i] == 0,
            forall|i: int| 0 <= i < fb.zbuffer@.len() ==> fb.zbuffer@[i] == DEPTH_EMPTY,
    {
        let n: usize = width * height;
        Framebuffer {
            width,
            height,
            buffer: filled_u32(n, 0),
            zbuffer: filled_i64(n, DEPTH_EMPTY),
            background_color: 0,
            current_color: 0,
        }
    }

    /// Choose the color that `clear` paints with.
    pub fn set_background_color(&mut self, color: u32)
        ensures
            *final(self) == (Framebuffer { background_color: color, ..*old(self) }),
    {
        self.background_color = color;
    }

    /// Choose the color that the next `point` writes.
    pub fn set_current_color(&mut self, color: u32)
        ensures
            *final(self) == (Framebuffer { current_color: color, ..*old(self) }),
    {
        self.current_color = color;
    }

    /// Reset every pixel to the background color and every depth to empty.
    pub fn clear(&mut self)
        requires
            framebuffer_wf(*old(self)),
        ensures
            framebuffer_wf(*final(self)),
            final(self).width == old(self).width,
            final(self).height == old(self).height,
            final(self).background_color == old(self).background_color,
            final(self).current_color == old(self).current_color,
            final(self).buffer@.len() == old(self).buffer@.len(),
            final(self).zbuffer@.len() == old(self).zbuffer@.len(),
            forall|i: int| 0 <= i < final(self).buffer@.len()
                ==> final(self).buffer@[i] == old(self).background_color,
            forall|i: int| 0 <= i < final(self).zbuffer@.len()
                ==> final(self).zbuffer@[i] == DEPTH_EMPTY,
    {
        let n: usize = self.buffer.len();
        let mut i: usize = 0;
        while i < n
            invariant
                i <= n,
                framebuffer_wf(*self),
                self.width == old(self).width,
                self.height == old(self).height,
                self.background_color == old(self).background_color,
                self.current_color == old(self).current_color,
                self.buffer@.len() == n,
                self.zbuffer@.len() == n,
                forall|j: int| 0 <= j < i ==> self.buffer@[j] == old(self).background_color,
                forall|j: int| 0 <= j < i ==> self.zbuffer@[j] == DEPTH_EMPTY,
            decreases n - i,
        {
            let bg: u32 = self.background_color;
            self.buffer[i] = bg;
            self.zbuffer[i] = DEPTH_EMPTY;
            i = i + 1;
        }
    }

    /// What `point` leaves in the two buffers: the current color and the
    /// new depth when the write wins the depth test, everything unchanged
    /// when a strictly nearer value is already there.
    pub open spec fn point_wins(self, x: int, y: int, depth: int) -> bool {
        depth < self.zbuffer@[y * self.width + x]
    }

    /// Write the current draw color at `(x, y)` with the given depth,
    /// under the nearest-wins depth test.
    pub fn point(&mut self, x: usize, y: usize, depth: i64)
        requires
            framebuffer_wf(*old(self)),
            x < old(self).width,
            y < old(self).height,
        ensures
            framebuffer_wf(*final(self)),
            final(self).width == old(self).width,
            final(self).height == old(self).height,
            final(self).background_color == old(self).background_color,
            final(self).current_color == old(self).current_color,
            old(self).point_wins(x as int, y as int, depth as int) ==> {
                &&& final(self).buffer@ == old(self).buffer@.update(
                    y as int * old(self).width + x as int, old(self).current_color)
                &&& final(self).zbuffer@ == old(self).zbuffer@.update(
                    y as int * old(self).width + x as int, depth)
            },
            !old(self).point_wins(x as int, y as int, depth as int) ==> {
                &&& final(self).buffer@ == old(self).buffer@
                &&& final(self).zbuffer@ == old(self).zbuffer@
            },
    {
        proof {
            let w = self.width as int;
            let h = self.height as int;
            assert((y as int) * w + (x as int) < w * h)
                by (nonlinear_arith)
                requires
                    (x as int) < w,
                    (y as int) < h,
            ;
        }
        let idx: usize = y * self.width + x;
        if depth < self.zbuffer[idx] {
            let color: u32 = self.current_color;
            self.buffer[idx] = color;
            self.zbuffer[idx] = depth;
        }
    }
}

/// At one pixel, the write with the strictly smaller depth wins whatever
/// the order of the two writes: after a winning write at depth `d`, any
/// later write at a greater or equal depth leaves the pixel as it is.
pub proof fn lemma_depth_test_nearest_wins(
    fb0: Framebuffer, fb1: Framebuffer, x: int, y: int, d_near: int, d_far: int)
    requires
        framebuffer_wf(fb0),
        0 <= x < fb0.width,
        0 <= y < fb0.height,
        d_near < d_far,
        fb0.point_wins(x, y, d_near),
        fb1.width == fb0.width,
        fb1.zbuffer@ == fb0.zbuffer@.update(y * fb0.width + x, d_near as i64),
        -0x8000000000000000 <= d_near <= 0x7fffffffffffffff,
    ensures
        !fb1.point_wins(x, y, d_far),
{
    let w = fb0.width as int;
    let h = fb0.height as int;
    assert(y * w + x < w * h)
        by (nonlinear_arith)
        requires
            0 <= x,
            x < w,
            0 <= y,
            y < h,
    ;
}

} // verus!
