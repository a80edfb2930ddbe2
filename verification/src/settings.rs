use vstd::prelude::*;

verus! {

/// Fastest allowed tick rate, in generations per second.
pub const MAX_FPS: u64 = 240;

/// Slowest allowed tick rate, in generations per second.
pub const MIN_FPS: u64 = 1;

/// User-adjustable simulation parameters: the seeding density as a
/// percentage, and the tick rate in generations per second.
pub struct Settings {
    pub density: u64,
    pub fps: u64,
}

impl Settings {
    /// Both parameters are within their documented ranges.
    pub open spec fn wf(&self) -> bool {
        self.density <= 100 && MIN_FPS <= self.fps <= MAX_FPS
    }

    pub fn new(density: u64, fps: u64) -> (r: Settings)
        requires
            density <= 100,
            MIN_FPS <= fps <= MAX_FPS,
        ensures
            r.wf(),
            r.density == density,
            r.fps == fps,
    {
        Settings { density, fps }
    }

    /// Raise the tick rate by one generation per second, clamped to `MAX_FPS`.
    pub fn increase_fps(&mut self)
        requires
            old(self).wf(),
        ensures
            final(self).wf(),
            final(self).density == old(self).density,
            final(self).fps as int == if old(self).fps == MAX_FPS {
                MAX_FPS as int
            } else {
                old(self).fps + 1
            },
    {
        if self.fps < MAX_FPS {
            self.fps = self.fps + 1;
        }
    }

    /// Lower the tick rate by one generation per second, clamped to `MIN_FPS`.
    pub fn decrease_fps(&mut self)
        requires
            old(self).wf(),
        ensures
            final(self).wf(),
            final(self).density == old(self).density,
            final(self).fps as int == if old(self).fps == MIN_FPS {
                MIN_FPS as int
            } else {
                old(self).fps - 1
            },
    {
        if self.fps > MIN_FPS {
            self.fps = self.fps - 1;
        }
    }
}

} // verus!
