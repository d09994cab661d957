//! A single particle and the rule that moves it.

use crate::scalar::Scalar;
use crate::vector::Vector3;
use vstd::prelude::*;

verus! {

/// Downward acceleration of a new particle, in raw units: none.
pub const GRAVITY: i64 = 0;

/// Damping coefficient of a new particle, in raw units: one hundredth.
pub const DAMPING: i64 = 10_000_000;

/// Lifetime of a new particle, in raw units: two seconds.
pub const TIME_TO_LIVE: i64 = 2_000_000_000;

/// Speed of a particle spawned on the ring, in raw units: two hundred.
pub const SPAWN_SPEED: i64 = 200_000_000_000;

/// Upper end of each velocity component of a particle of the first batch, in
/// raw units: one hundred.
pub const SCATTER_SPEED: i64 = 100_000_000_000;

/// A moving point with a limited lifetime.
#[derive(Clone, Copy, Debug, PartialEq, Eq, Structural)]
pub struct Particle {
    /// Where the particle is.
    pub position: Vector3,
    /// Displacement per second.
    pub velocity: Vector3,
    /// Seconds left; the particle has expired once this is zero or less.
    pub time_to_live: Scalar,
    /// Downward acceleration, taken from the vertical velocity.
    pub gravity: Scalar,
    /// Share of the velocity lost per second.
    pub damping: Scalar,
}

impl Particle {
    /// A fresh particle at the origin that moves with `velocity`.
    pub open spec fn spec_new(velocity: Vector3) -> Particle {
        Particle {
            position: Vector3::zero(),
            velocity,
            time_to_live: Scalar { raw: TIME_TO_LIVE },
            gravity: Scalar { raw: GRAVITY },
            damping: Scalar { raw: DAMPING },
        }
    }

    /// A fresh particle at the origin that moves with `velocity`: no gravity,
    /// damping of one hundredth, two seconds to live.
    #[verifier::when_used_as_spec(spec_new)]
    pub fn new(velocity: Vector3) -> (r: Particle)
        ensures
            r == Particle::spec_new(velocity),
    {
        Particle {
            position: Vector3::zero(),
            velocity,
            time_to_live: Scalar { raw: TIME_TO_LIVE },
            gravity: Scalar { raw: GRAVITY },
            damping: Scalar { raw: DAMPING },
        }
    }

    /// The fresh particle that leaves the origin in the plane at
    /// `SPAWN_SPEED` along the direction `(cos, sin)`.
    pub open spec fn spec_radial(cos: Scalar, sin: Scalar) -> Particle {
        Particle::new(
            Vector3 {
                x: Scalar { raw: SPAWN_SPEED }.times(cos),
                y: Scalar { raw: SPAWN_SPEED }.times(sin),
                z: Scalar::zero(),
            },
        )
    }

    /// The fresh particle that leaves the origin in the plane at
    /// `SPAWN_SPEED` along the direction `(cos, sin)`, the cosine and sine of
    /// the angle it is sent out at.
    #[verifier::when_used_as_spec(spec_radial)]
    pub fn radial(cos: Scalar, sin: Scalar) -> (r: Particle)
        ensures
            r == Particle::spec_radial(cos, sin),
    {
        let speed = Scalar { raw: SPAWN_SPEED };
        Particle::new(Vector3::new(speed.times(cos), speed.times(sin), Scalar::zero()))
    }

    /// The fresh particle of the first batch whose velocity in the plane is
    /// `SCATTER_SPEED` times `(share_x, share_y)`.
    pub open spec fn spec_scattered(share_x: Scalar, share_y: Scalar) -> Particle {
        Particle::new(
            Vector3 {
                x: Scalar { raw: SCATTER_SPEED }.times(share_x),
                y: Scalar { raw: SCATTER_SPEED }.times(share_y),
                z: Scalar::zero(),
            },
        )
    }

    /// The fresh particle of the first batch whose velocity in the plane is
    /// `SCATTER_SPEED` times `(share_x, share_y)`, two shares drawn between
    /// zero and one.
    #[verifier::when_used_as_spec(spec_scattered)]
    pub fn scattered(share_x: Scalar, share_y: Scalar) -> (r: Particle)
        ensures
            r == Particle::spec_scattered(share_x, share_y),
    {
        let speed = Scalar { raw: SCATTER_SPEED };
        Particle::new(Vector3::new(speed.times(share_x), speed.times(share_y), Scalar::zero()))
    }

    /// Whether the lifetime has run out.
    pub open spec fn spec_expired(&self) -> bool {
        self.time_to_live@ <= 0
    }

    /// Whether the lifetime has run out.
    #[verifier::when_used_as_spec(spec_expired)]
    pub fn expired(&self) -> (r: bool)
        ensures
            r == self.spec_expired(),
    {
        self.time_to_live.raw <= 0
    }

    /// The velocity after `dt` seconds: gravity is taken from the vertical
    /// component, then all of it is multiplied by `1 - damping * dt`.
    pub open spec fn next_velocity(self, dt: Scalar) -> Vector3 {
        Vector3 {
            x: self.velocity.x,
            y: self.velocity.y.minus(self.gravity.times(dt)),
            z: self.velocity.z,
        }.scaled(Scalar::one().minus(self.damping.times(dt)))
    }

    /// The particle after `dt` seconds: the lifetime is shortened by `dt` and
    /// the velocity becomes `next_velocity`. A particle that has lifetime left
    /// after that moves by the new velocity times `dt`; one whose lifetime has
    /// run out stays where it was.
    pub open spec fn advanced(self, dt: Scalar) -> Particle {
        let left = self.time_to_live.minus(dt);
        Particle {
            position: if left@ <= 0 {
                self.position
            } else {
                self.position.plus(self.next_velocity(dt).scaled(dt))
            },
            velocity: self.next_velocity(dt),
            time_to_live: left,
            gravity: self.gravity,
            damping: self.damping,
        }
    }

    /// Moves the particle on by `dt` seconds and says whether its lifetime
    /// has run out by then. A particle that expires in this step still slows
    /// down and falls, but keeps its position; it is for the owner to drop it.
    pub fn advance(&mut self, dt: Scalar) -> (expired: bool)
        ensures
            *final(self) == old(self).advanced(dt),
            expired == final(self).expired(),
    {
        self.time_to_live = self.time_to_live.minus(dt);
        let expired = self.expired();
        self.velocity.y = self.velocity.y.minus(self.gravity.times(dt));
        self.velocity = self.velocity.scaled(Scalar::one().minus(self.damping.times(dt)));
        if !expired {
            self.position = self.position.plus(self.velocity.scaled(dt));
        }
        expired
    }
}

} // verus!
