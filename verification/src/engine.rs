use vstd::prelude::*;

use crate::grid::Grid;
use crate::rules::{all_alive, all_dead, dead_grid, grid_wf, next_grid};
use crate::settings::{Settings, MAX_FPS, MIN_FPS};

verus! {

/// A discrete user event, as handed in by the input layer once it has mapped
/// raw input to grid terms.
pub enum Command {
    /// Paint the cell under the pointer alive; a coordinate just past the
    /// edge is absorbed without effect.
    Paint { x: usize, y: usize },
    /// Throw the current state away and reseed at the configured density.
    Reseed,
    /// Kill every cell.
    Clear,
    /// Stop or resume the simulation clock.
    TogglePause,
    /// Raise the tick rate by one generation per second.
    SpeedUp,
    /// Lower the tick rate by one generation per second.
    SlowDown,
}

/// The whole simulation state carried across frames: the current generation
/// of cells, the user-adjustable settings, the pause flag, and a generation
/// counter for the diagnostic overlay.
pub struct Engine {
    pub grid: Grid,
    pub settings: Settings,
    pub paused: bool,
    pub generation: u64,
}

impl Engine {
    pub open spec fn wf(&self) -> bool {
        self.grid.wf() && self.settings.wf()
    }

    /// A freshly seeded simulation of the given dimensions, running.
    pub fn new(width: usize, height: usize, settings: Settings) -> (r: Engine)
        requires
            1 <= width,
            1 <= height,
            settings.wf(),
        ensures
            r.wf(),
            r.grid.spec_width() == width,
            r.grid.spec_height() == height,
            grid_wf(r.grid@, width as int, height as int),
            r.settings == settings,
            !r.paused,
            r.generation == 0,
            settings.density == 0 ==> all_dead(r.grid@),
            settings.density == 100 ==> all_alive(r.grid@),
    {
        let grid = Grid::seed_random(width, height, settings.density);
        Engine { grid, settings, paused: false, generation: 0 }
    }

    /// Apply one user command to the simulation state. No command changes
    /// the grid's dimensions or the generation counter.
    pub fn apply(&mut self, cmd: Command)
        requires
            old(self).wf(),
        ensures
            final(self).wf(),
            final(self).grid.spec_width() == old(self).grid.spec_width(),
            final(self).grid.spec_height() == old(self).grid.spec_height(),
            final(self).generation == old(self).generation,
            match cmd {
                Command::Paint { x, y } => {
                    &&& final(self).settings == old(self).settings
                    &&& final(self).paused == old(self).paused
                    &&& (x < old(self).grid.spec_width() && y < old(self).grid.spec_height()
                        ==> final(self).grid@ == old(self).grid@.update(
                        y as int,
                        old(self).grid@[y as int].update(x as int, true),
                    ))
                    &&& (!(x < old(self).grid.spec_width() && y < old(self).grid.spec_height())
                        ==> final(self).grid@ == old(self).grid@)
                },
                Command::Reseed => {
                    &&& final(self).settings == old(self).settings
                    &&& final(self).paused == old(self).paused
                    &&& grid_wf(
                        final(self).grid@,
                        old(self).grid.spec_width(),
                        old(self).grid.spec_height(),
                    )
                    &&& (old(self).settings.density == 0 ==> all_dead(final(self).grid@))
                    &&& (old(self).settings.density == 100 ==> all_alive(final(self).grid@))
                },
                Command::Clear => {
                    &&& final(self).settings == old(self).settings
                    &&& final(self).paused == old(self).paused
                    &&& final(self).grid@ == dead_grid(
                        old(self).grid.spec_width(),
                        old(self).grid.spec_height(),
                    )
                },
                Command::TogglePause => {
                    &&& final(self).settings == old(self).settings
                    &&& final(self).paused == !old(self).paused
                    &&& final(self).grid == old(self).grid
                },
                Command::SpeedUp => {
                    &&& final(self).paused == old(self).paused
                    &&& final(self).grid == old(self).grid
                    &&& final(self).settings.density == old(self).settings.density
                    &&& final(self).settings.fps as int == if old(self).settings.fps == MAX_FPS {
                        MAX_FPS as int
                    } else {
                        old(self).settings.fps + 1
                    }
                },
                Command::SlowDown => {
                    &&& final(self).paused == old(self).paused
                    &&& final(self).grid == old(self).grid
                    &&& final(self).settings.density == old(self).settings.density
                    &&& final(self).settings.fps as int == if old(self).settings.fps == MIN_FPS {
                        MIN_FPS as int
                    } else {
                        old(self).settings.fps - 1
                    }
                },
            },
    {
        match cmd {
            Command::Paint { x, y } => {
                self.grid.set_cell(x, y, true);
            },
            Command::Reseed => {
                let width = self.grid.width();
                let height = self.grid.height();
                self.grid = Grid::seed_random(width, height, self.settings.density);
            },
            Command::Clear => {
                let width = self.grid.width();
                let height = self.grid.height();
                self.grid = Grid::clear(width, height);
            },
            Command::TogglePause => {
                self.paused = !self.paused;
            },
            Command::SpeedUp => {
                self.settings.increase_fps();
            },
            Command::SlowDown => {
                self.settings.decrease_fps();
            },
        }
    }

    /// Advance the simulation by one frame: when running, replace the grid
    /// by its next generation and count the generation, saturating at the
    /// counter's limit; when paused, leave everything as it is.
    pub fn tick(&mut self)
        requires
            old(self).wf(),
        ensures
            final(self).wf(),
            final(self).settings == old(self).settings,
            final(self).paused == old(self).paused,
            final(self).grid.spec_width() == old(self).grid.spec_width(),
            final(self).grid.spec_height() == old(self).grid.spec_height(),
            old(self).paused ==> final(self).grid == old(self).grid && final(self).generation
                == old(self).generation,
            !old(self).paused ==> final(self).grid@ == next_grid(
                old(self).grid@,
                old(self).grid.spec_width(),
                old(self).grid.spec_height(),
            ) && final(self).generation as int == if old(self).generation == u64::MAX {
                u64::MAX as int
            } else {
                old(self).generation + 1
            },
    {
        if !self.paused {
            self.grid = self.grid.step();
            if self.generation < u64::MAX {
                self.generation = self.generation + 1;
            }
        }
    }
}

} // verus!
