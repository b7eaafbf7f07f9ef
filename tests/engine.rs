use nannou::noise::{NoiseFn, Perlin};
use vector_field::accumulation::{AccumulationBuffer, Rgb};
use vector_field::config::{SimulationConfig, STEP_DEFAULT};
use vector_field::field::{arrow_length, field_layer, hue_of, ColorMode, Shade};
use vector_field::fixed::{floor_div, mul_fixed, UNIT};
use vector_field::grid::{angle_of, angles_of, cell_count, grid_points, point_at, AngleGrid, Region};
use vector_field::particles::{Direction, Particle, ParticleSystem, SimpleParticleSystem};
use vector_field::simulation::Simulation;
use vector_field::time::TimeController;

fn region() -> Region {
    Region { left: -100, bottom: -50, width: 200, height: 100 }
}

fn red() -> Rgb {
    Rgb { r: 255, g: 0, b: 0 }
}

#[test]
fn noise_sample_is_deterministic() {
    let noise = Perlin::new();
    let a = noise.get([0.3, 0.7, 1.25]);
    let b = noise.get([0.3, 0.7, 1.25]);
    assert_eq!(a.to_bits(), b.to_bits());
}

#[test]
fn pause_resume_keeps_effective_time() {
    let mut t = TimeController::new(true);
    let speed = 100_000;
    let before = t.effective_time(5_000, speed);
    t.toggle(5_000, speed);
    assert!(!t.running);
    assert_eq!(t.effective_time(9_000, speed), before);
    t.toggle(9_000, speed);
    assert!(t.running);
    assert_eq!(t.effective_time(9_000, speed), before);
    assert_eq!(t.effective_time(10_000, speed), before + 1_000 * speed);
}

#[test]
fn round_trip_at_one_instant_is_identity() {
    let mut t = TimeController::new(true);
    t.toggle(700, 3);
    t.toggle(700, 3);
    assert_eq!(t.reference, 0);
    assert_eq!(t.effective_time(700, 3), 2_100);
}

#[test]
fn set_running_to_same_state_changes_nothing() {
    let mut t = TimeController::new(false);
    t.set_running(false, 1_000, 100_000);
    assert_eq!(t.reference, 0);
    t.set_running(true, 1_000, 100_000);
    assert!(t.running);
    assert_eq!(t.reference, 100_000_000);
    assert_eq!(t.effective_time(1_000, 100_000), 0);
}

#[test]
fn grid_dimensions_200_by_100_step_50() {
    assert_eq!(cell_count(200, 50), 5);
    assert_eq!(cell_count(100, 50), 3);
    let pts = grid_points(&region(), 50, UNIT as i32, 0);
    assert_eq!(pts.len(), 15);
    let samples = vec![0i32; 15];
    let g = AngleGrid::from_samples(&region(), 50, &samples, 6_283_185);
    assert_eq!(g.columns, 5);
    assert_eq!(g.rows, 3);
    assert_eq!(g.angles.len(), 15);
}

#[test]
fn grid_points_are_normalized_by_edge_distance() {
    let pts = grid_points(&region(), 50, 2_000_000, 42);
    // cell (0, 0) is at the left/bottom edge: distance equals the extent.
    assert_eq!(pts[0].x, 2_000_000);
    assert_eq!(pts[0].y, 2_000_000);
    assert_eq!(pts[0].z, 42);
    // cell (1, 0): 150 of 200 units from the right edge.
    assert_eq!(pts[1].x, 1_500_000);
    // cell (4, 2) is on the right/top edge.
    assert_eq!(pts[14].x, 0);
    assert_eq!(pts[14].y, 0);
}

#[test]
fn particle_points_use_the_grid_convention() {
    let p = point_at(&region(), UNIT as i32, 7, -50 * UNIT, 0);
    assert_eq!(p.x, 750_000);
    assert_eq!(p.y, 500_000);
    // beyond the right edge the coordinate turns negative, rounded down
    let q = point_at(&region(), UNIT as i32, 7, 100 * UNIT + 1, 0);
    assert_eq!(q.x, -1);
}

#[test]
fn zero_max_angle_gives_flat_field() {
    let samples = vec![1_000_000, -1_000_000, 123_456, -7, 0];
    let angles = angles_of(&samples, 0);
    assert!(angles.iter().all(|a| *a == 0));
}

#[test]
fn angle_is_sample_times_max_angle() {
    assert_eq!(angle_of(500_000, 6_283_185), 3_141_592);
    assert_eq!(angle_of(-500_000, 6_283_185), -3_141_593);
    assert_eq!(angle_of(1_000_000, 2_000_000), 2_000_000);
}

#[test]
fn fixed_point_rounds_down() {
    assert_eq!(floor_div(7, 2), 3);
    assert_eq!(floor_div(-7, 2), -4);
    assert_eq!(floor_div(-6, 2), -3);
    assert_eq!(mul_fixed(-1, 1), -1);
    assert_eq!(mul_fixed(2_000_000, 1_500_000), 3_000_000);
}

#[test]
fn hue_wraps_into_a_turn() {
    assert_eq!(hue_of(0), 0);
    assert_eq!(hue_of(3_141_592), 179_999);
    assert_eq!(hue_of(6_283_185), 0);
    assert_eq!(hue_of(-1), 359_999);
}

#[test]
fn arrow_is_two_units_shorter_than_cell() {
    assert_eq!(arrow_length(50), 48 * UNIT);
    assert_eq!(arrow_length(2), 0);
    assert_eq!(arrow_length(1), 0);
}

#[test]
fn field_layer_places_cells_and_arrows() {
    let samples: Vec<i32> = (0..15).map(|k| k * 10_000).collect();
    let g = AngleGrid::from_samples(&region(), 50, &samples, 1_000_000);
    let layer = field_layer(&region(), 50, &g, true, true, ColorMode::Hue);
    assert_eq!(layer.cells.len(), 15);
    assert_eq!(layer.arrows.len(), 15);
    let a = layer.arrows[6];
    assert_eq!((a.center_x, a.center_y), (-50 * UNIT, 0));
    assert_eq!(a.length, 48 * UNIT);
    assert_eq!(a.angle, 60_000);
    let c = layer.cells[6];
    assert_eq!((c.center_x, c.center_y, c.size), (-25 * UNIT, 25 * UNIT, 50 * UNIT));
    assert_eq!(c.shade, Shade::Hue { millidegrees: hue_of(60_000) });
    let hidden = field_layer(&region(), 50, &g, false, false, ColorMode::Gray);
    assert!(hidden.cells.is_empty() && hidden.arrows.is_empty());
}

#[test]
fn particle_count_after_reset_and_reconfigure() {
    let mut ps = SimpleParticleSystem::new(region());
    ps.reconfigure(1000, 2_000_000, 1_500_000);
    ps.reset();
    assert_eq!(ps.particles.len(), 1000);
    ps.reconfigure(10, 2_000_000, 1_500_000);
    assert_eq!(ps.particles.len(), 10);
    ps.reconfigure(50, 2_000_000, 1_500_000);
    assert_eq!(ps.particles.len(), 10);
    ps.reset();
    assert_eq!(ps.particles.len(), 50);
}

#[test]
fn reset_places_particles_inside_and_spread() {
    let ps = SimpleParticleSystem::new(region());
    assert_eq!(ps.particles.len(), 1000);
    for p in &ps.particles {
        assert!(-100 * UNIT <= p.x && p.x < 100 * UNIT);
        assert!(-50 * UNIT <= p.y && p.y < 50 * UNIT);
    }
    let first = ps.particles[0];
    assert!(ps.particles.iter().any(|p| p.x != first.x));
    assert!(ps.particles.iter().any(|p| p.color != first.color));
}

fn fixed_system(points: &[(i64, i64)]) -> SimpleParticleSystem {
    let mut ps = SimpleParticleSystem::new(region());
    ps.particles = points.iter().map(|&(x, y)| Particle { x, y, color: red() }).collect();
    ps
}

#[test]
fn advance_moves_by_delta_along_heading() {
    let mut ps = fixed_system(&[(0, 0), (10 * UNIT, -3 * UNIT)]);
    let headings = vec![Direction { dx: 1_000_000, dy: 0 }, Direction { dx: -600_000, dy: 800_000 }];
    ps.advance(&headings);
    assert_eq!((ps.particles[0].x, ps.particles[0].y), (2 * UNIT, 0));
    assert_eq!((ps.particles[1].x, ps.particles[1].y), (10 * UNIT - 1_200_000, -3 * UNIT + 1_600_000));
}

#[test]
fn advance_is_deterministic() {
    let pts = [(1, 2), (-300, 4_000_000), (99 * UNIT, -49 * UNIT)];
    let mut a = fixed_system(&pts);
    let mut b = fixed_system(&pts);
    assert_eq!(a.noise_points(1_500_000, 77), b.noise_points(1_500_000, 77));
    let headings = vec![
        Direction { dx: 707_107, dy: 707_107 },
        Direction { dx: 0, dy: -1_000_000 },
        Direction { dx: -1_000_000, dy: 0 },
    ];
    a.advance(&headings);
    b.advance(&headings);
    assert_eq!(a.particles, b.particles);
}

#[test]
fn particles_drift_outside_container() {
    let mut ps = fixed_system(&[(99 * UNIT, 0)]);
    let east = vec![Direction { dx: 1_000_000, dy: 0 }];
    for _ in 0..5 {
        ps.advance(&east);
    }
    assert_eq!(ps.particles[0].x, 109 * UNIT);
}

#[test]
fn square_covers_overlapped_pixels() {
    let mut buf = AccumulationBuffer::new(&region());
    // a 1.5-unit square centred at (0.0, 0.0) spans [-0.75, 0.75)
    buf.fill_square(0, 0, 1_500_000, red());
    assert_eq!(buf.pixel(99, 49), Some(red()));
    assert_eq!(buf.pixel(100, 50), Some(red()));
    assert_eq!(buf.pixel(98, 49), None);
    assert_eq!(buf.pixel(101, 50), None);
    assert_eq!(buf.pixels.iter().filter(|p| p.is_some()).count(), 4);
    // a square off the raster paints nothing
    buf.fill_square(500 * UNIT, 0, 1_500_000, red());
    assert_eq!(buf.pixels.iter().filter(|p| p.is_some()).count(), 4);
}

#[test]
fn accumulation_keeps_first_frame() {
    let mut buf = AccumulationBuffer::new(&region());
    let mut ps = fixed_system(&[(10 * UNIT + 500_000, 5 * UNIT + 500_000)]);
    ps.reconfigure(1, 2_000_000, 1_000_000);
    ps.render(&mut buf);
    assert_eq!(buf.pixel(110, 55), Some(red()));
    ps.advance(&vec![Direction { dx: 1_000_000, dy: 0 }]);
    ps.render(&mut buf);
    assert_eq!(buf.pixel(110, 55), Some(red()));
    assert_eq!(buf.pixel(112, 55), Some(red()));
    assert_eq!(buf.pixels.iter().filter(|p| p.is_some()).count(), 2);
    buf.reset(&region());
    assert!(buf.pixels.iter().all(|p| p.is_none()));
}

#[test]
fn defaults_match_documented_values() {
    let c = SimulationConfig::default();
    assert_eq!(c.step, STEP_DEFAULT);
    assert_eq!(c.step, 50);
    assert_eq!(c.speed, 100);
    assert_eq!(c.frequency, 1_000_000);
    assert_eq!(c.max_angle, 6_283_185);
    assert!(c.show_arrows && !c.show_values && !c.running);
    assert_eq!(c.color_mode, ColorMode::Gray);
}

#[test]
fn simulation_commands_keep_raster_matched() {
    let mut sim = Simulation::new(region(), SimulationConfig::default());
    assert_eq!(sim.particles.particles.len(), 1000);
    assert_eq!(sim.effective_time(10_000), 0);
    sim.set_running(true, 10_000);
    assert_eq!(sim.effective_time(10_000), 0);
    assert_eq!(sim.effective_time(11_000), 100_000);
    sim.set_running(false, 11_000);
    assert_eq!(sim.effective_time(20_000), 100_000);
    let n = sim.particles.particles.len();
    let headings = vec![Direction { dx: 0, dy: 0 }; n];
    sim.advance_and_paint(&headings);
    assert!(sim.buffer.pixels.iter().any(|p| p.is_some()));
    sim.resize(Region { left: -20, bottom: -10, width: 40, height: 20 });
    assert_eq!((sim.buffer.width, sim.buffer.height), (40, 20));
    assert!(sim.buffer.pixels.iter().all(|p| p.is_none()));
    sim.reset_particles();
    assert!(sim.particles.particles.iter().all(|p| -20 * UNIT <= p.x && p.x < 20 * UNIT));
    let pts = sim.grid_points(5);
    assert_eq!(pts.len(), 1);
    let layer = sim.field(&vec![250_000]);
    assert_eq!(layer.arrows.len(), 1);
    assert!(layer.cells.is_empty());
}
