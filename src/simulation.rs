//! The simulation state a host drives frame by frame: settings, time,
//! particles and the accumulation raster, kept consistent with the canvas.
//!
//! Each frame the host reads the effective time, has the noise field
//! sampled at `grid_points` and `particle_points`, hands the samples back
//! (`field`, and `advance_and_paint` with the headings of
//! `grid::angles_of`), and presents the overlay above the raster.

use vstd::prelude::*;
use crate::accumulation::{raster_fits, AccumulationBuffer};
use crate::config::SimulationConfig;
use crate::field::{field_layer, heat_cell_spec, arrow_spec, FieldLayer};
use crate::grid::{cells_along, grid_fits, grid_points, cell_point, AngleGrid, NoisePoint, Region, scale_angle};
use crate::particles::{Direction, ParticleSystem, SimpleParticleSystem};
use crate::time::TimeController;

verus! {

/// Settings, time, particles and raster over one canvas.
pub struct Simulation {
    pub config: SimulationConfig,
    pub time: TimeController,
    pub particles: SimpleParticleSystem,
    pub buffer: AccumulationBuffer,
    pub canvas: Region,
}

impl Simulation {
    /// The particles' container and the raster match the canvas, and the
    /// running flag of the settings is the one of the time controller.
    pub open spec fn wf(&self) -> bool {
        &&& self.canvas.wf()
        &&& raster_fits(self.canvas)
        &&& self.config.step >= 1
        &&& self.particles.wf()
        &&& self.particles.container == self.canvas
        &&& self.buffer.wf()
        &&& self.buffer.matches(self.canvas)
        &&& self.time.running == self.config.running
    }

    /// A simulation over `canvas` with settings `config`: time at zero,
    /// freshly placed particles, a clear raster.
    pub fn new(canvas: Region, config: SimulationConfig) -> (r: Self)
        requires
            canvas.wf(),
            raster_fits(canvas),
            config.step >= 1,
        ensures
            r.wf(),
            r.canvas == canvas,
            r.config == config,
            r.time.reference == 0,
            r.particles.particles.len() == r.particles.count,
            forall|k: int| 0 <= k < r.buffer.pixels.len() ==> r.buffer.pixels[k] is None,
    {
        Simulation {
            config,
            time: TimeController::new(config.running),
            particles: SimpleParticleSystem::new(canvas),
            buffer: AccumulationBuffer::new(&canvas),
            canvas,
        }
    }

    /// The effective time coordinate at wall-clock time `wall` (ms).
    pub fn effective_time(&self, wall: i64) -> (r: i64)
        requires
            self.time.in_range(wall, self.config.speed),
        ensures
            r == self.time.effective(wall, self.config.speed),
    {
        self.time.effective_time(wall, self.config.speed)
    }

    /// Runs or pauses time at wall-clock time `wall`, without a jump of the
    /// effective time.
    pub fn set_running(&mut self, running: bool, wall: i64)
        requires
            old(self).wf(),
            old(self).time.in_range(wall, old(self).config.speed),
        ensures
            final(self).wf(),
            final(self).config == (SimulationConfig { running, ..old(self).config }),
            final(self).time.effective(wall, final(self).config.speed) == old(self).time.effective(
                wall,
                old(self).config.speed,
            ),
            final(self).particles == old(self).particles,
            final(self).buffer == old(self).buffer,
            final(self).canvas == old(self).canvas,
    {
        let speed = self.config.speed;
        self.time.set_running(running, wall, speed);
        self.config.running = running;
    }

    /// Replaces the settings; a change of the running flag goes through
    /// `set_running` at wall-clock time `wall`. A change of speed may move
    /// the effective time.
    pub fn set_config(&mut self, config: SimulationConfig, wall: i64)
        requires
            old(self).wf(),
            config.step >= 1,
            old(self).time.in_range(wall, old(self).config.speed),
        ensures
            final(self).wf(),
            final(self).config == config,
            final(self).time.effective(wall, old(self).config.speed) == old(self).time.effective(
                wall,
                old(self).config.speed,
            ),
            final(self).particles == old(self).particles,
            final(self).buffer == old(self).buffer,
            final(self).canvas == old(self).canvas,
    {
        self.set_running(config.running, wall);
        self.config = config;
    }

    /// Places the particles afresh and clears the raster.
    pub fn reset_particles(&mut self)
        requires
            old(self).wf(),
        ensures
            final(self).wf(),
            final(self).config == old(self).config,
            final(self).time == old(self).time,
            final(self).canvas == old(self).canvas,
            final(self).particles.config() == old(self).particles.config(),
            final(self).particles.particles.len() == old(self).particles.count,
            forall|k: int| 0 <= k < final(self).buffer.pixels.len() ==> final(self).buffer.pixels[k] is None,
    {
        self.particles.reset();
        self.buffer.reset(&self.canvas);
    }

    /// Moves to a new canvas: the particles' container follows it and the
    /// raster is replaced by a clear one of its size.
    pub fn resize(&mut self, canvas: Region)
        requires
            old(self).wf(),
            canvas.wf(),
            raster_fits(canvas),
        ensures
            final(self).wf(),
            final(self).canvas == canvas,
            final(self).config == old(self).config,
            final(self).time == old(self).time,
            final(self).particles.particles == old(self).particles.particles,
            final(self).particles.config() == old(self).particles.config(),
            forall|k: int| 0 <= k < final(self).buffer.pixels.len() ==> final(self).buffer.pixels[k] is None,
    {
        self.canvas = canvas;
        self.particles.container = canvas;
        self.buffer.reset(&canvas);
    }

    /// The noise points of the angle grid over the canvas at time `t`.
    pub fn grid_points(&self, t: i64) -> (r: Vec<NoisePoint>)
        requires
            self.wf(),
            grid_fits(self.canvas, self.config.step),
        ensures
            r.len() == cells_along(self.canvas.width as int, self.config.step as int) * cells_along(
                self.canvas.height as int,
                self.config.step as int,
            ),
            forall|k: int|
                0 <= k < r.len() ==> #[trigger] r[k] == cell_point(
                    self.canvas,
                    self.config.step,
                    self.config.frequency,
                    t,
                    k % cells_along(self.canvas.width as int, self.config.step as int),
                    k / cells_along(self.canvas.width as int, self.config.step as int),
                ),
    {
        grid_points(&self.canvas, self.config.step, self.config.frequency, t)
    }

    /// The overlay for the noise samples taken at `grid_points`, one per
    /// grid cell in the same order.
    pub fn field(&self, samples: &Vec<i32>) -> (r: FieldLayer)
        requires
            self.wf(),
            samples.len() == cells_along(self.canvas.width as int, self.config.step as int)
                * cells_along(self.canvas.height as int, self.config.step as int),
        ensures
            r.cells.len() == (if self.config.show_values { samples.len() as int } else { 0 }),
            r.arrows.len() == (if self.config.show_arrows { samples.len() as int } else { 0 }),
            forall|k: int|
                0 <= k < r.cells.len() ==> #[trigger] r.cells[k] == heat_cell_spec(
                    self.canvas,
                    self.config.step,
                    k % cells_along(self.canvas.width as int, self.config.step as int),
                    k / cells_along(self.canvas.width as int, self.config.step as int),
                    scale_angle(samples[k], self.config.max_angle) as i64,
                    self.config.color_mode,
                ),
            forall|k: int|
                0 <= k < r.arrows.len() ==> #[trigger] r.arrows[k] == arrow_spec(
                    self.canvas,
                    self.config.step,
                    k % cells_along(self.canvas.width as int, self.config.step as int),
                    k / cells_along(self.canvas.width as int, self.config.step as int),
                    scale_angle(samples[k], self.config.max_angle) as i64,
                ),
    {
        let grid = AngleGrid::from_samples(&self.canvas, self.config.step, samples, self.config.max_angle);
        field_layer(
            &self.canvas,
            self.config.step,
            &grid,
            self.config.show_values,
            self.config.show_arrows,
            self.config.color_mode,
        )
    }

    /// The noise point of each particle at time `t`.
    pub fn particle_points(&self, t: i64) -> (r: Vec<NoisePoint>)
        requires
            self.wf(),
        ensures
            r@ == self.particles.sample_points(self.config.frequency, t),
            r.len() == self.particles.particles.len(),
    {
        self.particles.noise_points(self.config.frequency, t)
    }

    /// Moves every particle one step along its heading and paints the
    /// particles onto the raster, over what it already holds.
    pub fn advance_and_paint(&mut self, headings: &Vec<Direction>)
        requires
            old(self).wf(),
            headings.len() == old(self).particles.particles.len(),
        ensures
            final(self).wf(),
            final(self).config == old(self).config,
            final(self).time == old(self).time,
            final(self).canvas == old(self).canvas,
            final(self).particles.particles@ == old(self).particles.moved(headings@),
            final(self).particles.config() == old(self).particles.config(),
            final(self).buffer.pixels@ == final(self).particles.painted(
                old(self).buffer.pixels@,
                old(self).buffer.width as int,
                old(self).buffer.origin_x as int,
                old(self).buffer.origin_y as int,
            ),
    {
        self.particles.advance(headings);
        self.particles.render(&mut self.buffer);
    }
}

} // verus!
