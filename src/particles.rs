//! Particles advected through the noise field and painted onto the
//! accumulation raster.
//!
//! Positions, the move delta and the square size are in millionths of a
//! canvas unit. Particles are not kept inside their container once placed.
//! Advancing one step takes the particles' noise points (`noise_points`),
//! the noise samples there, their heading angles (`grid::angles_of`), and
//! finally the unit heading vectors `(cos, sin)` of those angles, in
//! millionths, which `advance` scales by the move delta.

use vstd::prelude::*;
use crate::accumulation::{paint_square, square_span, AccumulationBuffer, Rgb};
use crate::fixed::{clamp_i64, fixed_product, mul_fixed, saturate_i64, UNIT};
use crate::grid::{point_at, sample_point, NoisePoint, Region};
use crate::random::{random_between, random_byte};

verus! {

/// Number of particles a new system holds.
pub const PARTICLE_COUNT_DEFAULT: usize = 1_000;

/// Edge of a particle's square: 1.5 canvas units.
pub const PARTICLE_SIZE_DEFAULT: i32 = 1_500_000;

/// Distance a particle moves per step: 2 canvas units.
pub const PARTICLE_MOVE_DELTA: i32 = 2_000_000;

/// A particle: its position and colour.
#[derive(Clone, Copy, PartialEq, Eq, Debug)]
pub struct Particle {
    pub x: i64,
    pub y: i64,
    pub color: Rgb,
}

/// The live settings of a particle system.
#[derive(Clone, Copy, PartialEq, Eq, Debug)]
pub struct ParticleConfig {
    pub count: usize,
    pub move_delta: i32,
    pub size: i32,
}

/// Whether `p` lies inside `region`.
pub open spec fn inside(region: Region, p: Particle) -> bool {
    &&& region.left * UNIT <= p.x < region.right() * UNIT
    &&& region.bottom * UNIT <= p.y < region.top() * UNIT
}

/// A unit heading vector `(cos, sin)` in millionths.
#[derive(Clone, Copy, PartialEq, Eq, Debug)]
pub struct Direction {
    pub dx: i32,
    pub dy: i32,
}

/// The pixels after painting each particle of `ps` in turn as a square of
/// edge `size`.
pub open spec fn paint_all(
    pixels: Seq<Option<Rgb>>,
    width: int,
    origin_x: int,
    origin_y: int,
    ps: Seq<Particle>,
    size: int,
) -> Seq<Option<Rgb>>
    decreases ps.len(),
{
    if ps.len() == 0 {
        pixels
    } else {
        let p = ps.last();
        paint_square(
            paint_all(pixels, width, origin_x, origin_y, ps.drop_last(), size),
            width,
            origin_x,
            origin_y,
            p.x as int,
            p.y as int,
            size,
            p.color,
        )
    }
}

/// One coordinate moved by `delta` along the unit component `unit`,
/// saturating at the ends of the `i64` range.
pub open spec fn moved_coord(v: i64, delta: i32, unit: i32) -> int {
    clamp_i64(v + fixed_product(delta, unit))
}

/// A particle moved by `delta` along heading `d`.
pub open spec fn step_particle(p: Particle, d: Direction, delta: i32) -> Particle {
    Particle { x: moved_coord(p.x, delta, d.dx) as i64, y: moved_coord(p.y, delta, d.dy) as i64, color: p.color }
}

/// The operations every particle strategy offers to its host.
pub trait ParticleSystem {
    /// The system's own consistency condition.
    spec fn wf(&self) -> bool;

    /// The particles, oldest first.
    spec fn population(&self) -> Seq<Particle>;

    /// The live settings: how many particles a reset creates, how far a
    /// step moves them, and how large they are painted.
    spec fn config(&self) -> ParticleConfig;

    /// The rectangle that resets place particles in.
    spec fn container(&self) -> Region;

    /// The noise points that the particles sample at time `t`.
    spec fn sample_points(&self, frequency: i32, t: i64) -> Seq<NoisePoint>;

    /// The particles after a step along `headings`, one per particle.
    spec fn moved(&self, headings: Seq<Direction>) -> Seq<Particle>;

    /// A raster's pixels after the particles are painted onto it.
    spec fn painted(&self, pixels: Seq<Option<Rgb>>, width: int, origin_x: int, origin_y: int) -> Seq<
        Option<Rgb>,
    >;

    /// Replaces the particles with `config().count` freshly placed ones,
    /// each inside the container.
    fn reset(&mut self)
        requires
            old(self).wf(),
        ensures
            final(self).wf(),
            final(self).config() == old(self).config(),
            final(self).container() == old(self).container(),
            final(self).population().len() == final(self).config().count,
            forall|i: int|
                0 <= i < final(self).population().len() ==> inside(
                    final(self).container(),
                    #[trigger] final(self).population()[i],
                ),
    ;

    /// The noise point of each particle at time `t`, in order.
    fn noise_points(&self, frequency: i32, t: i64) -> (r: Vec<NoisePoint>)
        requires
            self.wf(),
        ensures
            r@ == self.sample_points(frequency, t),
            r.len() == self.population().len(),
    ;

    /// Moves every particle one step along its heading.
    fn advance(&mut self, headings: &Vec<Direction>)
        requires
            old(self).wf(),
            headings.len() == old(self).population().len(),
        ensures
            final(self).wf(),
            final(self).population() == old(self).moved(headings@),
            final(self).population().len() == old(self).population().len(),
            final(self).config() == old(self).config(),
            final(self).container() == old(self).container(),
    ;

    /// Paints the particles onto `target` over what it already holds.
    fn render(&self, target: &mut AccumulationBuffer)
        requires
            self.wf(),
            old(target).wf(),
        ensures
            final(target).wf(),
            final(target).width == old(target).width,
            final(target).height == old(target).height,
            final(target).origin_x == old(target).origin_x,
            final(target).origin_y == old(target).origin_y,
            final(target).pixels@ == self.painted(
                old(target).pixels@,
                old(target).width as int,
                old(target).origin_x as int,
                old(target).origin_y as int,
            ),
    ;

    /// Sets the count, move delta and size; a smaller count drops the
    /// newest particles at once, a larger one waits for the next reset.
    fn reconfigure(&mut self, count: usize, move_delta: i32, size: i32)
        requires
            old(self).wf(),
        ensures
            final(self).wf(),
            final(self).config() == (ParticleConfig { count, move_delta, size }),
            final(self).container() == old(self).container(),
            count < old(self).population().len() ==> final(self).population() == old(
                self,
            ).population().take(count as int),
            count >= old(self).population().len() ==> final(self).population() == old(
                self,
            ).population(),
    ;
}

/// Particles placed uniformly in a container, moving freely afterwards.
pub struct SimpleParticleSystem {
    pub particles: Vec<Particle>,
    pub container: Region,
    pub count: usize,
    pub move_delta: i32,
    pub size: i32,
}

impl SimpleParticleSystem {
    /// A system over `container` with the default configuration, populated
    /// by a reset.
    pub fn new(container: Region) -> (r: Self)
        requires
            container.wf(),
        ensures
            r.wf(),
            r.container == container,
            r.count == PARTICLE_COUNT_DEFAULT,
            r.move_delta == PARTICLE_MOVE_DELTA,
            r.size == PARTICLE_SIZE_DEFAULT,
            r.particles.len() == PARTICLE_COUNT_DEFAULT,
            forall|i: int| 0 <= i < r.particles.len() ==> inside(container, #[trigger] r.particles[i]),
    {
        let mut s = SimpleParticleSystem {
            particles: Vec::new(),
            container,
            count: PARTICLE_COUNT_DEFAULT,
            move_delta: PARTICLE_MOVE_DELTA,
            size: PARTICLE_SIZE_DEFAULT,
        };
        s.reset();
        s
    }
}

impl ParticleSystem for SimpleParticleSystem {
    open spec fn wf(&self) -> bool {
        self.container.wf()
    }

    open spec fn population(&self) -> Seq<Particle> {
        self.particles@
    }

    open spec fn config(&self) -> ParticleConfig {
        ParticleConfig { count: self.count, move_delta: self.move_delta, size: self.size }
    }

    open spec fn container(&self) -> Region {
        self.container
    }

    open spec fn sample_points(&self, frequency: i32, t: i64) -> Seq<NoisePoint> {
        self.particles@.map_values(
            |p: Particle| sample_point(self.container, frequency, t, p.x as int, p.y as int),
        )
    }

    open spec fn moved(&self, headings: Seq<Direction>) -> Seq<Particle> {
        Seq::new(self.particles@.len(), |i: int| step_particle(self.particles@[i], headings[i], self.move_delta))
    }

    open spec fn painted(&self, pixels: Seq<Option<Rgb>>, width: int, origin_x: int, origin_y: int) -> Seq<
        Option<Rgb>,
    > {
        paint_all(pixels, width, origin_x, origin_y, self.particles@, self.size as int)
    }

    fn reset(&mut self) {
        let c = self.container;
        let x0: i64 = c.left as i64 * UNIT;
        let x1: i64 = (c.left as i64 + c.width as i64) * UNIT;
        let y0: i64 = c.bottom as i64 * UNIT;
        let y1: i64 = (c.bottom as i64 + c.height as i64) * UNIT;
        let mut particles: Vec<Particle> = Vec::new();
        let mut k: usize = 0;
        while k < self.count
            invariant
                self.container == c,
                self.count == old(self).count,
                self.move_delta == old(self).move_delta,
                self.size == old(self).size,
                c.wf(),
                x0 == c.left * UNIT,
                x1 == c.right() * UNIT,
                y0 == c.bottom * UNIT,
                y1 == c.top() * UNIT,
                k <= self.count,
                particles.len() == k,
                forall|i: int| 0 <= i < k ==> inside(c, #[trigger] particles[i]),
            decreases self.count - k,
        {
            let x = random_between(x0, x1);
            let y = random_between(y0, y1);
            let color = Rgb { r: random_byte(), g: random_byte(), b: random_byte() };
            particles.push(Particle { x, y, color });
            k = k + 1;
        }
        self.particles = particles;
    }

    fn noise_points(&self, frequency: i32, t: i64) -> (r: Vec<NoisePoint>) {
        let mut r: Vec<NoisePoint> = Vec::new();
        let mut k: usize = 0;
        while k < self.particles.len()
            invariant
                self.wf(),
                k <= self.particles.len(),
                r.len() == k,
                forall|i: int|
                    0 <= i < k ==> #[trigger] r[i] == sample_point(
                        self.container,
                        frequency,
                        t,
                        self.particles[i].x as int,
                        self.particles[i].y as int,
                    ),
            decreases self.particles.len() - k,
        {
            let p = self.particles[k];
            r.push(point_at(&self.container, frequency, t, p.x, p.y));
            k = k + 1;
        }
        assert(r@ =~= self.sample_points(frequency, t));
        r
    }

    fn advance(&mut self, headings: &Vec<Direction>) {
        let ghost before = self.particles@;
        let delta = self.move_delta;
        let mut k: usize = 0;
        while k < self.particles.len()
            invariant
                self.wf(),
                self.move_delta == delta,
                delta == old(self).move_delta,
                self.size == old(self).size,
                self.count == old(self).count,
                self.container == old(self).container,
                before == old(self).particles@,
                headings.len() == before.len(),
                self.particles.len() == before.len(),
                k <= before.len(),
                forall|i: int| 0 <= i < k ==> #[trigger] self.particles[i] == step_particle(before[i], headings[i], delta),
                forall|i: int| k <= i < before.len() ==> #[trigger] self.particles[i] == before[i],
            decreases before.len() - k,
        {
            let p = self.particles[k];
            let d = headings[k];
            let x = saturate_i64(p.x as i128 + mul_fixed(delta, d.dx) as i128);
            let y = saturate_i64(p.y as i128 + mul_fixed(delta, d.dy) as i128);
            self.particles.set(k, Particle { x, y, color: p.color });
            k = k + 1;
        }
        assert(self.particles@ =~= old(self).moved(headings@));
    }

    fn render(&self, target: &mut AccumulationBuffer) {
        let ghost before = target.pixels@;
        let mut k: usize = 0;
        while k < self.particles.len()
            invariant
                target.wf(),
                target.width == old(target).width,
                target.height == old(target).height,
                target.origin_x == old(target).origin_x,
                target.origin_y == old(target).origin_y,
                before == old(target).pixels@,
                k <= self.particles.len(),
                target.pixels@ == paint_all(
                    before,
                    target.width as int,
                    target.origin_x as int,
                    target.origin_y as int,
                    self.particles@.take(k as int),
                    self.size as int,
                ),
            decreases self.particles.len() - k,
        {
            let p = self.particles[k];
            target.fill_square(p.x, p.y, self.size, p.color);
            assert(self.particles@.take(k + 1).drop_last() =~= self.particles@.take(k as int));
            k = k + 1;
        }
        assert(self.particles@.take(k as int) =~= self.particles@);
    }

    fn reconfigure(&mut self, count: usize, move_delta: i32, size: i32) {
        self.count = count;
        self.move_delta = move_delta;
        self.size = size;
        self.particles.truncate(count);
    }
}

/// Painting particles never clears a pixel: whatever was painted before
/// stays painted.
pub proof fn lemma_paint_all_keeps_marks(
    pixels: Seq<Option<Rgb>>,
    width: int,
    origin_x: int,
    origin_y: int,
    ps: Seq<Particle>,
    size: int,
)
    ensures
        paint_all(pixels, width, origin_x, origin_y, ps, size).len() == pixels.len(),
        forall|k: int|
            0 <= k < pixels.len() && (#[trigger] pixels[k]) is Some ==> paint_all(
                pixels,
                width,
                origin_x,
                origin_y,
                ps,
                size,
            )[k] is Some,
    decreases ps.len(),
{
    if ps.len() > 0 {
        lemma_paint_all_keeps_marks(pixels, width, origin_x, origin_y, ps.drop_last(), size);
    }
}

/// Whether pixel `k` of a raster with rows of `width` lies under the square
/// of edge `size` painted for `p`.
pub open spec fn covered(width: int, origin_x: int, origin_y: int, p: Particle, size: int, k: int) -> bool {
    let (c0, c1) = square_span(p.x as int, size, origin_x);
    let (r0, r1) = square_span(p.y as int, size, origin_y);
    c0 <= k % width < c1 && r0 <= k / width < r1
}

/// After painting particles, every pixel under the square of any of them
/// is painted.
pub proof fn lemma_paint_all_marks_squares(
    pixels: Seq<Option<Rgb>>,
    width: int,
    origin_x: int,
    origin_y: int,
    ps: Seq<Particle>,
    size: int,
)
    ensures
        forall|i: int, k: int|
            0 <= i < ps.len() && 0 <= k < pixels.len() && covered(width, origin_x, origin_y, #[trigger] ps[i], size, k)
                ==> (#[trigger] paint_all(pixels, width, origin_x, origin_y, ps, size)[k]) is Some,
    decreases ps.len(),
{
    if ps.len() > 0 {
        let init = ps.drop_last();
        lemma_paint_all_marks_squares(pixels, width, origin_x, origin_y, init, size);
        lemma_paint_all_keeps_marks(pixels, width, origin_x, origin_y, init, size);
        assert forall|i: int, k: int|
            0 <= i < ps.len() && 0 <= k < pixels.len() && covered(width, origin_x, origin_y, #[trigger] ps[i], size, k)
                implies (#[trigger] paint_all(pixels, width, origin_x, origin_y, ps, size)[k]) is Some by {
            if i < ps.len() - 1 {
                assert(init[i] == ps[i]);
                assert(paint_all(pixels, width, origin_x, origin_y, init, size)[k] is Some);
            }
        }
    }
}

/// Two frames painted one after the other onto the same raster, with no
/// reset between them, leave the marks of both frames visible: no pixel
/// painted by the first frame is clear after the second, and every pixel
/// under a particle of either frame is painted.
pub proof fn lemma_accumulation_keeps_first_frame(
    pixels: Seq<Option<Rgb>>,
    width: int,
    origin_x: int,
    origin_y: int,
    first: Seq<Particle>,
    first_size: int,
    second: Seq<Particle>,
    second_size: int,
)
    ensures
        ({
            let after_first = paint_all(pixels, width, origin_x, origin_y, first, first_size);
            let after_second = paint_all(after_first, width, origin_x, origin_y, second, second_size);
            &&& after_second.len() == pixels.len()
            &&& forall|k: int|
                0 <= k < pixels.len() && (#[trigger] after_first[k]) is Some ==> after_second[k] is Some
            &&& forall|i: int, k: int|
                0 <= i < first.len() && 0 <= k < pixels.len() && covered(
                    width,
                    origin_x,
                    origin_y,
                    #[trigger] first[i],
                    first_size,
                    k,
                ) ==> (#[trigger] after_second[k]) is Some
            &&& forall|i: int, k: int|
                0 <= i < second.len() && 0 <= k < pixels.len() && covered(
                    width,
                    origin_x,
                    origin_y,
                    #[trigger] second[i],
                    second_size,
                    k,
                ) ==> (#[trigger] after_second[k]) is Some
        }),
{
    lemma_paint_all_keeps_marks(pixels, width, origin_x, origin_y, first, first_size);
    let after_first = paint_all(pixels, width, origin_x, origin_y, first, first_size);
    lemma_paint_all_keeps_marks(after_first, width, origin_x, origin_y, second, second_size);
    lemma_paint_all_marks_squares(pixels, width, origin_x, origin_y, first, first_size);
    lemma_paint_all_marks_squares(after_first, width, origin_x, origin_y, second, second_size);
    let after_second = paint_all(after_first, width, origin_x, origin_y, second, second_size);
    assert forall|i: int, k: int|
        0 <= i < first.len() && 0 <= k < pixels.len() && covered(
            width,
            origin_x,
            origin_y,
            #[trigger] first[i],
            first_size,
            k,
        ) implies (#[trigger] after_second[k]) is Some by {
        assert(after_first[k] is Some);
    }
}

/// Advection hides no randomness: two systems with the same particles,
/// container and move delta sample the same noise points at the same time
/// and frequency, and move to the same positions along the same headings.
pub proof fn lemma_advance_deterministic(
    a: SimpleParticleSystem,
    b: SimpleParticleSystem,
    frequency: i32,
    t: i64,
    headings: Seq<Direction>,
)
    requires
        a.particles@ == b.particles@,
        a.container == b.container,
        a.move_delta == b.move_delta,
    ensures
        a.sample_points(frequency, t) == b.sample_points(frequency, t),
        a.moved(headings) == b.moved(headings),
{
}

} // verus!
