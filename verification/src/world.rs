//! The live set: the particles that exist, oldest first.

use crate::particle::Particle;
use crate::scalar::{Scalar, SCALE};
use vstd::prelude::*;

verus! {

/// How many particles the first batch holds.
pub const INITIAL_PARTICLES: usize = 100;

/// Every particle of `live` moved on by `dt` seconds.
pub open spec fn advanced_all(live: Seq<Particle>, dt: Scalar) -> Seq<Particle> {
    live.map_values(|p: Particle| p.advanced(dt))
}

/// What is left of `live` after `dt` seconds: every particle moved on, and
/// those whose lifetime has run out by then taken away. The rest keep their
/// order.
pub open spec fn survivors(live: Seq<Particle>, dt: Scalar) -> Seq<Particle> {
    advanced_all(live, dt).filter(|p: Particle| !p.expired())
}

/// The first batch for the given shares: one scattered particle per pair.
pub open spec fn first_batch(shares: Seq<(Scalar, Scalar)>) -> Seq<Particle> {
    shares.map_values(|s: (Scalar, Scalar)| Particle::scattered(s.0, s.1))
}

/// Whether `share` is a fraction from zero up to, but not including, one.
pub open spec fn is_share(share: Scalar) -> bool {
    0 <= share@ < SCALE
}

/// Whether `shares` can be what a first batch is drawn from: as many pairs as
/// the batch has particles, each of two shares.
pub open spec fn drawn(shares: Seq<(Scalar, Scalar)>) -> bool {
    &&& shares.len() == INITIAL_PARTICLES
    &&& forall|i: int|
        0 <= i < shares.len() ==> is_share((#[trigger] shares[i]).0) && is_share(shares[i].1)
}

/// The particles that exist at one moment.
pub struct World {
    particles: Vec<Particle>,
}

impl View for World {
    type V = Seq<Particle>;

    /// The live particles, oldest first.
    closed spec fn view(&self) -> Seq<Particle> {
        self.particles@
    }
}

impl World {
    /// A world without particles.
    pub fn new() -> (r: World)
        ensures
            r@ == Seq::<Particle>::empty(),
    {
        World { particles: Vec::new() }
    }

    /// A world with one scattered particle for each pair of shares, in their
    /// order.
    pub fn from_shares(shares: &Vec<(Scalar, Scalar)>) -> (r: World)
        ensures
            r@ == first_batch(shares@),
    {
        let mut particles: Vec<Particle> = Vec::new();
        let mut i: usize = 0;
        while i < shares.len()
            invariant
                i <= shares.len(),
                particles@ == first_batch(shares@.take(i as int)),
            decreases shares.len() - i,
        {
            let (share_x, share_y) = shares[i];
            proof {
                assert(shares@.take(i + 1) == shares@.take(i as int).push(shares@[i as int]));
                assert(first_batch(shares@.take(i + 1)) == first_batch(
                    shares@.take(i as int),
                ).push(Particle::scattered(share_x, share_y)));
            }
            particles.push(Particle::scattered(share_x, share_y));
            i += 1;
        }
        proof {
            assert(shares@.take(i as int) == shares@);
        }
        World { particles }
    }

    /// The first batch: a world of `INITIAL_PARTICLES` scattered particles,
    /// each for a pair of shares drawn at random. Which shares were drawn is
    /// not known beforehand; whatever they are, the world is the one that
    /// `from_shares` makes of them.
    ///
    /// # Panics
    ///
    /// Each draw is a `Scalar::random_share` and panics as that does: if the
    /// operating system's source of randomness cannot be read.
    pub fn setup() -> (r: World)
        ensures
            r@.len() == INITIAL_PARTICLES,
            exists|shares: Seq<(Scalar, Scalar)>| drawn(shares) && r@ == first_batch(shares),
    {
        let mut shares: Vec<(Scalar, Scalar)> = Vec::new();
        while shares.len() < INITIAL_PARTICLES
            invariant
                shares.len() <= INITIAL_PARTICLES,
                forall|i: int|
                    0 <= i < shares.len() ==> is_share((#[trigger] shares@[i]).0) && is_share(
                        shares@[i].1,
                    ),
            decreases INITIAL_PARTICLES - shares.len(),
        {
            let share_x = Scalar::random_share();
            let share_y = Scalar::random_share();
            shares.push((share_x, share_y));
        }
        let world = World::from_shares(&shares);
        proof {
            assert(drawn(shares@));
        }
        world
    }

    /// How many particles are live.
    pub fn len(&self) -> (r: usize)
        ensures
            r == self@.len(),
    {
        self.particles.len()
    }

    /// Whether no particle is live.
    pub fn is_empty(&self) -> (r: bool)
        ensures
            r == (self@.len() == 0),
    {
        self.particles.len() == 0
    }

    /// The live particle at `index`, counted from the oldest, if there is one.
    pub fn get(&self, index: usize) -> (r: Option<Particle>)
        ensures
            r == if index < self@.len() {
                Some(self@[index as int])
            } else {
                None
            },
    {
        if index < self.particles.len() {
            Some(self.particles[index])
        } else {
            None
        }
    }

    /// Adds `particle` to the live set as its youngest.
    pub fn insert(&mut self, particle: Particle)
        ensures
            final(self)@ == old(self)@.push(particle),
    {
        self.particles.push(particle);
    }

    /// One tick of the spawner: adds exactly one particle, the radial one for
    /// the direction `(cos, sin)`, and leaves the others as they are.
    pub fn spawn(&mut self, cos: Scalar, sin: Scalar)
        ensures
            final(self)@ == old(self)@.push(Particle::radial(cos, sin)),
    {
        self.particles.push(Particle::radial(cos, sin));
    }

    /// One frame of the updater: moves every particle on by `dt` seconds and
    /// drops those whose lifetime has run out by then.
    pub fn update(&mut self, dt: Scalar)
        ensures
            final(self)@ == survivors(old(self)@, dt),
    {
        let mut kept: Vec<Particle> = Vec::new();
        let mut i: usize = 0;
        while i < self.particles.len()
            invariant
                i <= self.particles.len(),
                self.particles@ == old(self).particles@,
                kept@ == survivors(self.particles@.take(i as int), dt),
            decreases self.particles.len() - i,
        {
            let mut particle = self.particles[i];
            let expired = particle.advance(dt);
            proof {
                let before = self.particles@.take(i as int);
                assert(self.particles@.take(i + 1) == before.push(self.particles@[i as int]));
                assert(advanced_all(before.push(self.particles@[i as int]), dt) == advanced_all(
                    before,
                    dt,
                ).push(particle));
                advanced_all(before, dt).lemma_filter_push(particle, |p: Particle| !p.expired());
            }
            if !expired {
                kept.push(particle);
            }
            i += 1;
        }
        proof {
            assert(self.particles@.take(i as int) == self.particles@);
        }
        self.particles = kept;
    }
}

} // verus!
