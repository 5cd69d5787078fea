use vstd::prelude::*;

verus! {

/// Largest window side the render context accepts: the animated viewports step by up to
/// five pixels past the window's side and must stay inside `i32`.
pub const MAX_WINDOW_SIDE: i32 = 0x7fff_fffb;

/// A viewport rectangle in window pixels.
#[derive(Debug, Clone, Copy, PartialEq, Eq, Structural)]
pub struct Viewport {
    pub x: i32,
    pub y: i32,
    pub width: i32,
    pub height: i32,
}

/// The viewport that covers the whole window.
pub fn full_viewport(width: i32, height: i32) -> (r: Viewport)
    ensures
        r == (Viewport { x: 0, y: 0, width, height }),
{
    Viewport { x: 0, y: 0, width, height }
}

/// Rotation step of the spinning demos: one step every 16 ms, wrapping at `u32::MAX`.
pub open spec fn rotation_step(elapsed_ms: u64) -> int {
    (elapsed_ms / 16) as int % (u32::MAX as int)
}

/// Rotation step of the spinning demos at `elapsed_ms` since the run started.
pub fn rotation_steps(elapsed_ms: u64) -> (r: u32)
    ensures
        r == rotation_step(elapsed_ms),
{
    ((elapsed_ms / 16) % (u32::MAX as u64)) as u32
}

/// Whether the shading demo draws with smooth interpolation: every third second, counting
/// from the start of the run; flat shading otherwise.
pub fn smooth_shading(elapsed_s: u64) -> (r: bool)
    ensures
        r == (elapsed_s % 3 == 0),
{
    elapsed_s % 3 == 0
}

/// Indices `0, 1, ..., n - 1` of a triangle fan over `n` vertices.
pub fn fan_indices(n: usize) -> (r: Vec<u16>)
    requires
        n <= u16::MAX as usize + 1,
    ensures
        r@.len() == n,
        forall|i: int| 0 <= i < n ==> #[trigger] r@[i] == i,
{
    let mut r: Vec<u16> = Vec::new();
    let mut i: usize = 0;
    while i < n
        invariant
            i <= n <= u16::MAX as usize + 1,
            r@.len() == i,
            forall|k: int| 0 <= k < i ==> #[trigger] r@[k] == k,
        decreases n - i,
    {
        r.push(i as u16);
        i = i + 1;
    }
    r
}

/// A viewport whose size grows by four pixels a frame until it reaches the window, then
/// shrinks by two a frame until it vanishes, and so on; it is drawn from half its size.
pub struct ViewportPulse {
    pub w: i32,
    pub h: i32,
    pub turn_small: bool,
}

/// The pulse after one frame in a window of `width` by `height`.
pub open spec fn pulse_next(p: ViewportPulse, width: int, height: int) -> ViewportPulse {
    let small = if p.w >= width || p.h >= height {
        true
    } else if p.w == 0 || p.h == 0 {
        false
    } else {
        p.turn_small
    };
    if small {
        ViewportPulse { w: (p.w - 2) as i32, h: (p.h - 2) as i32, turn_small: true }
    } else {
        ViewportPulse { w: (p.w + 4) as i32, h: (p.h + 4) as i32, turn_small: false }
    }
}

impl ViewportPulse {
    /// The states the pulse passes through: both sides equal, even, and between zero and
    /// three pixels past the window.
    pub open spec fn wf(&self, width: int, height: int) -> bool {
        &&& self.w == self.h
        &&& 0 <= self.w
        &&& self.w % 2 == 0
        &&& self.w < width + 4
        &&& self.w < height + 4
    }

    /// The pulse before the first frame.
    pub fn new() -> (r: ViewportPulse)
        ensures
            r.w == 0,
            r.h == 0,
            !r.turn_small,
    {
        ViewportPulse { w: 0, h: 0, turn_small: false }
    }

    /// Advances the pulse by one frame and returns the viewport to draw in.
    pub fn step(&mut self, width: i32, height: i32) -> (r: Viewport)
        requires
            0 < width <= MAX_WINDOW_SIDE,
            0 < height <= MAX_WINDOW_SIDE,
            old(self).wf(width as int, height as int),
        ensures
            *final(self) == pulse_next(*old(self), width as int, height as int),
            final(self).wf(width as int, height as int),
            r == (Viewport {
                x: (final(self).w / 2) as i32,
                y: (final(self).h / 2) as i32,
                width: final(self).w,
                height: final(self).h,
            }),
    {
        if self.w == 0 || self.h == 0 {
            self.turn_small = false;
        }
        if self.w >= width || self.h >= height {
            self.turn_small = true;
        }
        if self.turn_small {
            self.w = self.w - 2;
            self.h = self.h - 2;
        } else {
            self.w = self.w + 4;
            self.h = self.h + 4;
        }
        Viewport { x: self.w / 2, y: self.h / 2, width: self.w, height: self.h }
    }
}

/// A viewport corner that moves five pixels a frame along each axis and turns back at the
/// window's edges.
pub struct ViewportBounce {
    pub width: i32,
    pub width_step: i32,
    pub height: i32,
    pub height_step: i32,
}

/// One axis of the bounce: move by `step`, and when that leaves `[0, limit)`, turn and move
/// back instead. Gives the new position and step.
pub open spec fn bounce_axis(pos: int, step: int, limit: int) -> (int, int) {
    let moved = pos + step;
    if moved >= limit || moved < 0 {
        (moved - step, -step)
    } else {
        (moved, step)
    }
}

impl ViewportBounce {
    /// Each position inside the window and each step five pixels either way.
    pub open spec fn wf(&self, width: int, height: int) -> bool {
        &&& 0 <= self.width < width
        &&& 0 <= self.height < height
        &&& (self.width_step == 5 || self.width_step == -5)
        &&& (self.height_step == 5 || self.height_step == -5)
    }

    /// The bounce before the first frame: at the origin, moving up and right.
    pub fn new() -> (r: ViewportBounce)
        ensures
            r == (ViewportBounce { width: 0, width_step: 5, height: 0, height_step: 5 }),
    {
        ViewportBounce { width: 0, width_step: 5, height: 0, height_step: 5 }
    }

    /// Advances both axes by one frame and returns the viewport from the origin to the
    /// new corner.
    pub fn step(&mut self, width: i32, height: i32) -> (r: Viewport)
        requires
            0 < width <= MAX_WINDOW_SIDE,
            0 < height <= MAX_WINDOW_SIDE,
            old(self).wf(width as int, height as int),
        ensures
            (final(self).width as int, final(self).width_step as int) == bounce_axis(
                old(self).width as int,
                old(self).width_step as int,
                width as int,
            ),
            (final(self).height as int, final(self).height_step as int) == bounce_axis(
                old(self).height as int,
                old(self).height_step as int,
                height as int,
            ),
            final(self).wf(width as int, height as int),
            r == (Viewport { x: 0, y: 0, width: final(self).width, height: final(self).height }),
    {
        self.width = self.width + self.width_step;
        if self.width >= width || self.width < 0 {
            self.width_step = -self.width_step;
            self.width = self.width + self.width_step;
        }
        self.height = self.height + self.height_step;
        if self.height >= height || self.height < 0 {
            self.height_step = -self.height_step;
            self.height = self.height + self.height_step;
        }
        Viewport { x: 0, y: 0, width: self.width, height: self.height }
    }
}

} // verus!
