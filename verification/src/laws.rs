//! What holds of every step, every spawn and every frame, proved once for
//! all inputs.

use crate::particle::{Particle, SCATTER_SPEED, SPAWN_SPEED};
use crate::scalar::{representable, rescale, Scalar, SCALE};
use crate::vector::Vector3;
use crate::world::{advanced_all, drawn, first_batch, is_share, survivors, INITIAL_PARTICLES};
use vstd::prelude::*;

verus! {

/// A sum is the sum of the raw values wherever that sum is representable.
pub proof fn law_plus_exact(a: Scalar, b: Scalar)
    requires
        representable(a@ + b@),
    ensures
        a.plus(b)@ == a@ + b@,
{
}

/// A difference is the difference of the raw values wherever that difference
/// is representable.
pub proof fn law_minus_exact(a: Scalar, b: Scalar)
    requires
        representable(a@ - b@),
    ensures
        a.minus(b)@ == a@ - b@,
{
}

/// A product is within one raw unit of the true product, and never larger in
/// size, wherever the rounded product is representable.
pub proof fn law_times_rounds_toward_zero(a: Scalar, b: Scalar)
    requires
        representable(rescale(a@ * b@)),
    ensures
        a.times(b)@ == rescale(a@ * b@),
        a@ * b@ >= 0 ==> a.times(b)@ * SCALE <= a@ * b@ < (a.times(b)@ + 1) * SCALE,
        a@ * b@ <= 0 ==> (a.times(b)@ - 1) * SCALE < a@ * b@ <= a.times(b)@ * SCALE,
{
    let n = a@ * b@;
    let s = SCALE as int;
    if n >= 0 {
        assert((n / s) * s <= n < (n / s + 1) * s) by (nonlinear_arith)
            requires
                n >= 0,
                s > 0,
        ;
    }
    if n <= 0 {
        let m = -n;
        assert((m / s) * s <= m < (m / s + 1) * s) by (nonlinear_arith)
            requires
                m >= 0,
                s > 0,
        ;
        assert((-(m / s) - 1) * s == -((m / s + 1) * s)) by (nonlinear_arith);
        assert((-(m / s)) * s == -((m / s) * s)) by (nonlinear_arith);
        assert(0int / s == 0);
    }
}

/// Multiplying by a whole number of units loses nothing: the product of
/// `whole` units and `b` is `whole` times `b` wherever that is representable.
pub proof fn law_times_whole_exact(whole: int, b: Scalar)
    requires
        representable(whole * SCALE),
        representable(whole * b@),
    ensures
        (Scalar { raw: (whole * SCALE) as i64 }).times(b)@ == whole * b@,
{
    let s = SCALE as int;
    let k = whole * b@;
    assert((whole * s) * b@ == k * s) by (nonlinear_arith)
        requires
            k == whole * b@,
    ;
    if k >= 0 {
        assert(k * s >= 0) by (nonlinear_arith)
            requires
                k >= 0,
                s > 0,
        ;
        assert((k * s) / s == k) by (nonlinear_arith)
            requires
                s > 0,
        ;
    } else {
        assert(k * s < 0) by (nonlinear_arith)
            requires
                k < 0,
                s > 0,
        ;
        assert(-(k * s) == (-k) * s) by (nonlinear_arith);
        assert(((-k) * s) / s == -k) by (nonlinear_arith)
            requires
                s > 0,
        ;
    }
}

/// One step shortens the lifetime by `dt`.
pub proof fn law_step_lifetime(p: Particle, dt: Scalar)
    ensures
        p.advanced(dt).time_to_live == p.time_to_live.minus(dt),
        representable(p.time_to_live@ - dt@) ==> p.advanced(dt).time_to_live@ == p.time_to_live@
            - dt@,
{
}

/// While time runs forward the lifetime never grows.
pub proof fn law_lifetime_never_grows(p: Particle, dt: Scalar)
    requires
        dt@ >= 0,
    ensures
        p.advanced(dt).time_to_live@ <= p.time_to_live@,
{
}

/// A particle whose lifetime is no longer than `dt` has expired after the
/// step; one that has more than `dt` left has not.
pub proof fn law_step_expiry(p: Particle, dt: Scalar)
    ensures
        p.time_to_live@ <= dt@ ==> p.advanced(dt).expired(),
        p.time_to_live@ > dt@ ==> !p.advanced(dt).expired(),
{
}

/// One step turns the velocity `v` into `(v - (0, g, 0) * dt) * (1 - d * dt)`,
/// where `g` is the gravity and `d` the damping.
pub proof fn law_step_velocity(p: Particle, dt: Scalar)
    ensures
        p.advanced(dt).velocity == p.velocity.minus(
            Vector3 { x: Scalar::zero(), y: p.gravity, z: Scalar::zero() }.scaled(dt),
        ).scaled(Scalar::one().minus(p.damping.times(dt))),
{
    assert(rescale(0 * dt@) == 0) by {
        assert(0 * dt@ == 0);
        assert(0int / (SCALE as int) == 0);
    }
}

/// One step moves a particle that has lifetime left after it by the new
/// velocity times `dt`: the velocity is updated first.
pub proof fn law_step_position(p: Particle, dt: Scalar)
    requires
        !p.advanced(dt).expired(),
    ensures
        p.advanced(dt).position == p.position.plus(p.advanced(dt).velocity.scaled(dt)),
{
}

/// A particle whose lifetime runs out in the step keeps its position: one
/// with no more than `dt` left is where it was, whatever its velocity.
pub proof fn law_step_expiring_keeps_position(p: Particle, dt: Scalar)
    ensures
        p.advanced(dt).expired() ==> p.advanced(dt).position == p.position,
        p.time_to_live@ <= dt@ ==> p.advanced(dt).position == p.position,
{
}

/// Whether the step of `p` by `dt` stays within the range: no difference, sum
/// or rounded product on the way leaves it. The sums and products for the
/// position count only where the particle has more than `dt` left, since
/// only then is it moved.
pub open spec fn steps_within_range(p: Particle, dt: Scalar) -> bool {
    let pull = rescale(p.gravity@ * dt@);
    let keep = SCALE - rescale(p.damping@ * dt@);
    let vx = rescale(p.velocity.x@ * keep);
    let vy = rescale((p.velocity.y@ - pull) * keep);
    let vz = rescale(p.velocity.z@ * keep);
    &&& representable(p.time_to_live@ - dt@)
    &&& representable(pull)
    &&& representable(p.velocity.y@ - pull)
    &&& representable(rescale(p.damping@ * dt@))
    &&& representable(keep)
    &&& representable(vx) && representable(vy) && representable(vz)
    &&& p.time_to_live@ > dt@ ==> {
        &&& representable(rescale(vx * dt@))
        &&& representable(rescale(vy * dt@))
        &&& representable(rescale(vz * dt@))
        &&& representable(p.position.x@ + rescale(vx * dt@))
        &&& representable(p.position.y@ + rescale(vy * dt@))
        &&& representable(p.position.z@ + rescale(vz * dt@))
    }
}

/// A step that stays within the range, in whole numbers of raw units: the
/// lifetime falls by `dt`, the velocity `v` becomes
/// `(v - (0, g, 0) * dt) * (1 - d * dt)`, and the position of a particle that
/// has lifetime left after the step moves by the new velocity times `dt`,
/// each product rounded toward zero to a raw unit.
pub proof fn law_step_within_range(p: Particle, dt: Scalar)
    requires
        steps_within_range(p, dt),
    ensures
        p.advanced(dt).time_to_live@ == p.time_to_live@ - dt@,
        p.advanced(dt).velocity.x@ == rescale(
            p.velocity.x@ * (SCALE - rescale(p.damping@ * dt@)),
        ),
        p.advanced(dt).velocity.y@ == rescale(
            (p.velocity.y@ - rescale(p.gravity@ * dt@)) * (SCALE - rescale(p.damping@ * dt@)),
        ),
        p.advanced(dt).velocity.z@ == rescale(
            p.velocity.z@ * (SCALE - rescale(p.damping@ * dt@)),
        ),
        !p.advanced(dt).expired() ==> p.advanced(dt).position.x@ == p.position.x@ + rescale(
            p.advanced(dt).velocity.x@ * dt@,
        ),
        !p.advanced(dt).expired() ==> p.advanced(dt).position.y@ == p.position.y@ + rescale(
            p.advanced(dt).velocity.y@ * dt@,
        ),
        !p.advanced(dt).expired() ==> p.advanced(dt).position.z@ == p.position.z@ + rescale(
            p.advanced(dt).velocity.z@ * dt@,
        ),
{
}

/// One step leaves gravity and damping as they were.
pub proof fn law_step_keeps_coefficients(p: Particle, dt: Scalar)
    ensures
        p.advanced(dt).gravity == p.gravity,
        p.advanced(dt).damping == p.damping,
{
}

/// Whether `(cos, sin)` is a direction of length exactly one.
pub open spec fn is_unit(cos: Scalar, sin: Scalar) -> bool {
    cos@ * cos@ + sin@ * sin@ == SCALE * SCALE
}

/// A radial particle starts at the origin with the usual coefficients, stays
/// in the plane, and moves two hundred times as fast as its direction is
/// long, wherever two hundred times the direction is representable.
pub proof fn law_radial_velocity(cos: Scalar, sin: Scalar)
    requires
        representable(200 * cos@),
        representable(200 * sin@),
    ensures
        Particle::radial(cos, sin) == Particle::new(Particle::radial(cos, sin).velocity),
        Particle::radial(cos, sin).position == Vector3::zero(),
        Particle::radial(cos, sin).velocity.x@ == 200 * cos@,
        Particle::radial(cos, sin).velocity.y@ == 200 * sin@,
        Particle::radial(cos, sin).velocity.z@ == 0,
        Particle::radial(cos, sin).velocity.norm_squared() == 40_000 * (cos@ * cos@ + sin@
            * sin@),
{
    let c = cos@;
    let s = sin@;
    law_times_whole_exact(200, cos);
    law_times_whole_exact(200, sin);
    assert((200 * c) * (200 * c) + (200 * s) * (200 * s) + 0 * 0 == 40_000 * (c * c + s * s))
        by (nonlinear_arith);
}

/// Along a direction of length one a radial particle moves at `SPAWN_SPEED`.
pub proof fn law_radial_unit_speed(cos: Scalar, sin: Scalar)
    requires
        is_unit(cos, sin),
    ensures
        Particle::radial(cos, sin).velocity.norm_squared() == SPAWN_SPEED * SPAWN_SPEED,
{
    let c = cos@;
    let s = sin@;
    assert(-SCALE <= c <= SCALE && -SCALE <= s <= SCALE) by (nonlinear_arith)
        requires
            c * c + s * s == SCALE * SCALE,
            SCALE == 1_000_000_000,
    ;
    law_radial_velocity(cos, sin);
}

/// Whether the length of `(cos, sin)` is within `slack` raw units of one.
pub open spec fn is_nearly_unit(cos: Scalar, sin: Scalar, slack: int) -> bool {
    (SCALE - slack) * (SCALE - slack) <= cos@ * cos@ + sin@ * sin@ <= (SCALE + slack) * (SCALE
        + slack)
}

/// Along a direction whose length is within `slack` of one, as a rounded
/// cosine and sine are, a radial particle moves at `SPAWN_SPEED` to within
/// two hundred times `slack`.
pub proof fn law_radial_speed_within_tolerance(cos: Scalar, sin: Scalar, slack: int)
    requires
        0 <= slack <= SCALE,
        is_nearly_unit(cos, sin, slack),
    ensures
        (SPAWN_SPEED - 200 * slack) * (SPAWN_SPEED - 200 * slack) <= Particle::radial(
            cos,
            sin,
        ).velocity.norm_squared() <= (SPAWN_SPEED + 200 * slack) * (SPAWN_SPEED + 200 * slack),
{
    let c = cos@;
    let s = sin@;
    assert(-2 * SCALE <= c <= 2 * SCALE && -2 * SCALE <= s <= 2 * SCALE) by (nonlinear_arith)
        requires
            c * c + s * s <= (SCALE + slack) * (SCALE + slack),
            0 <= slack <= SCALE,
            SCALE == 1_000_000_000,
    ;
    law_radial_velocity(cos, sin);
    assert((SPAWN_SPEED - 200 * slack) * (SPAWN_SPEED - 200 * slack) == 40_000 * ((SCALE - slack)
        * (SCALE - slack))) by (nonlinear_arith)
        requires
            SPAWN_SPEED == 200 * SCALE,
    ;
    assert((SPAWN_SPEED + 200 * slack) * (SPAWN_SPEED + 200 * slack) == 40_000 * ((SCALE + slack)
        * (SCALE + slack))) by (nonlinear_arith)
        requires
            SPAWN_SPEED == 200 * SCALE,
    ;
}

/// A scattered particle starts at the origin with the usual coefficients and
/// stays in the plane; each share between zero and one gives a velocity
/// component of a hundred times the share, from zero up to `SCATTER_SPEED`.
pub proof fn law_scattered_velocity(share_x: Scalar, share_y: Scalar)
    requires
        0 <= share_x@ < SCALE,
        0 <= share_y@ < SCALE,
    ensures
        Particle::scattered(share_x, share_y) == Particle::new(
            Particle::scattered(share_x, share_y).velocity,
        ),
        Particle::scattered(share_x, share_y).position == Vector3::zero(),
        Particle::scattered(share_x, share_y).velocity.x@ == 100 * share_x@,
        Particle::scattered(share_x, share_y).velocity.y@ == 100 * share_y@,
        Particle::scattered(share_x, share_y).velocity.z@ == 0,
        0 <= Particle::scattered(share_x, share_y).velocity.x@ < SCATTER_SPEED,
        0 <= Particle::scattered(share_x, share_y).velocity.y@ < SCATTER_SPEED,
{
    law_times_whole_exact(100, share_x);
    law_times_whole_exact(100, share_y);
}

/// The live set after one tick of the spawner for each of `directions`, in
/// their order.
pub open spec fn spawned(live: Seq<Particle>, directions: Seq<(Scalar, Scalar)>) -> Seq<Particle>
    decreases directions.len(),
{
    if directions.len() == 0 {
        live
    } else {
        spawned(live, directions.drop_last()).push(
            Particle::radial(directions.last().0, directions.last().1),
        )
    }
}

/// As many ticks of the spawner add exactly as many particles: those that
/// were live stay as they were, and behind them stands one radial particle
/// per direction, each at the origin, and each at `SPAWN_SPEED` where its
/// direction has length one.
pub proof fn law_spawn_count(live: Seq<Particle>, directions: Seq<(Scalar, Scalar)>)
    ensures
        spawned(live, directions).len() == live.len() + directions.len(),
        forall|i: int| 0 <= i < live.len() ==> spawned(live, directions)[i] == live[i],
        forall|i: int|
            0 <= i < directions.len() ==> #[trigger] spawned(live, directions)[live.len() + i]
                == Particle::radial(directions[i].0, directions[i].1),
        forall|i: int|
            0 <= i < directions.len() ==> (#[trigger] spawned(
                live,
                directions,
            )[live.len() + i]).position == Vector3::zero(),
        forall|i: int|
            0 <= i < directions.len() && is_unit(directions[i].0, directions[i].1) ==> (
            #[trigger] spawned(live, directions)[live.len() + i]).velocity.norm_squared()
                == SPAWN_SPEED * SPAWN_SPEED,
    decreases directions.len(),
{
    if directions.len() > 0 {
        law_spawn_count(live, directions.drop_last());
    }
    assert forall|i: int|
        0 <= i < directions.len() && is_unit(directions[i].0, directions[i].1) implies (
    #[trigger] spawned(live, directions)[live.len() + i]).velocity.norm_squared() == SPAWN_SPEED
        * SPAWN_SPEED by {
        law_radial_unit_speed(directions[i].0, directions[i].1);
    }
}

/// After as many ticks of the spawner, every particle sent out along a
/// direction whose length is within `slack` of one moves at `SPAWN_SPEED` to
/// within two hundred times `slack`.
pub proof fn law_spawn_speed_within_tolerance(
    live: Seq<Particle>,
    directions: Seq<(Scalar, Scalar)>,
    slack: int,
)
    requires
        0 <= slack <= SCALE,
    ensures
        forall|i: int|
            0 <= i < directions.len() && is_nearly_unit(directions[i].0, directions[i].1, slack)
                ==> (SPAWN_SPEED - 200 * slack) * (SPAWN_SPEED - 200 * slack) <= (
            #[trigger] spawned(live, directions)[live.len() + i]).velocity.norm_squared() <= (
            SPAWN_SPEED + 200 * slack) * (SPAWN_SPEED + 200 * slack),
{
    law_spawn_count(live, directions);
    assert forall|i: int|
        0 <= i < directions.len() && is_nearly_unit(
            directions[i].0,
            directions[i].1,
            slack,
        ) implies (SPAWN_SPEED - 200 * slack) * (SPAWN_SPEED - 200 * slack) <= (
    #[trigger] spawned(live, directions)[live.len() + i]).velocity.norm_squared() <= (SPAWN_SPEED
        + 200 * slack) * (SPAWN_SPEED + 200 * slack) by {
        law_radial_speed_within_tolerance(directions[i].0, directions[i].1, slack);
    }
}

/// The first batch holds one particle per pair of shares, each the scattered
/// particle of its pair.
pub proof fn law_first_batch(shares: Seq<(Scalar, Scalar)>)
    ensures
        first_batch(shares).len() == shares.len(),
        forall|i: int|
            0 <= i < shares.len() ==> #[trigger] first_batch(shares)[i] == Particle::scattered(
                shares[i].0,
                shares[i].1,
            ),
{
}

/// A first batch drawn from shares holds `INITIAL_PARTICLES` particles, each
/// at the origin with the usual coefficients, each with a velocity in the
/// plane whose components lie from zero up to `SCATTER_SPEED`.
pub proof fn law_first_batch_drawn(shares: Seq<(Scalar, Scalar)>)
    requires
        drawn(shares),
    ensures
        first_batch(shares).len() == INITIAL_PARTICLES,
        forall|i: int|
            0 <= i < first_batch(shares).len() ==> {
                let p = #[trigger] first_batch(shares)[i];
                &&& p == Particle::new(p.velocity)
                &&& 0 <= p.velocity.x@ < SCATTER_SPEED
                &&& 0 <= p.velocity.y@ < SCATTER_SPEED
                &&& p.velocity.z@ == 0
            },
{
    assert forall|i: int| 0 <= i < first_batch(shares).len() implies {
        let p = #[trigger] first_batch(shares)[i];
        &&& p == Particle::new(p.velocity)
        &&& 0 <= p.velocity.x@ < SCATTER_SPEED
        &&& 0 <= p.velocity.y@ < SCATTER_SPEED
        &&& p.velocity.z@ == 0
    } by {
        assert(is_share(shares[i].0) && is_share(shares[i].1));
        law_scattered_velocity(shares[i].0, shares[i].1);
    }
}

/// Whether `particle` is the form that some particle of `live` has after `dt`
/// seconds.
pub open spec fn moved_from(live: Seq<Particle>, dt: Scalar, particle: Particle) -> bool {
    exists|i: int| 0 <= i < live.len() && #[trigger] live[i].advanced(dt) == particle
}

/// A frame never adds a particle, and every particle it leaves is the moved
/// form of one that was live and has lifetime left.
pub proof fn law_frame_survivors(live: Seq<Particle>, dt: Scalar)
    ensures
        survivors(live, dt).len() <= live.len(),
        forall|j: int|
            0 <= j < survivors(live, dt).len() ==> !(#[trigger] survivors(live, dt)[j]).expired(),
        forall|j: int|
            0 <= j < survivors(live, dt).len() ==> moved_from(
                live,
                dt,
                #[trigger] survivors(live, dt)[j],
            ),
{
    let moved = advanced_all(live, dt);
    let alive = |p: Particle| !p.expired();
    moved.lemma_filter_len(alive);
    assert forall|j: int| 0 <= j < survivors(live, dt).len() implies !(#[trigger] survivors(
        live,
        dt,
    )[j]).expired() by {
        moved.lemma_filter_pred(alive, j);
    }
    assert forall|j: int| 0 <= j < survivors(live, dt).len() implies moved_from(
        live,
        dt,
        #[trigger] survivors(live, dt)[j],
    ) by {
        let left = survivors(live, dt)[j];
        assert(moved.filter(alive).contains(left));
        moved.lemma_filter_contains_rev(alive, left);
        let i = choose|i: int| 0 <= i < moved.len() && moved[i] == left;
        assert(live[i].advanced(dt) == left);
    }
}

/// A frame leaves exactly as many particles as had more than `dt` left.
pub proof fn law_frame_count(live: Seq<Particle>, dt: Scalar)
    ensures
        survivors(live, dt).len() == live.filter(|p: Particle| p.time_to_live@ > dt@).len(),
    decreases live.len(),
{
    let alive = |p: Particle| !p.expired();
    let outlasts = |p: Particle| p.time_to_live@ > dt@;
    if live.len() == 0 {
        advanced_all(live, dt).lemma_filter_len(alive);
        live.lemma_filter_len(outlasts);
    } else {
        let front = live.drop_last();
        let last = live.last();
        law_frame_count(front, dt);
        assert(live == front.push(last));
        assert(advanced_all(live, dt) == advanced_all(front, dt).push(last.advanced(dt)));
        advanced_all(front, dt).lemma_filter_push(last.advanced(dt), alive);
        front.lemma_filter_push(last, outlasts);
    }
}

/// A particle whose lifetime is no longer than `dt` is gone after the frame:
/// its moved form has expired, and no expired particle is left live.
pub proof fn law_frame_removes_expired(live: Seq<Particle>, dt: Scalar, i: int)
    requires
        0 <= i < live.len(),
        live[i].time_to_live@ <= dt@,
    ensures
        live[i].advanced(dt).expired(),
        !survivors(live, dt).contains(live[i].advanced(dt)),
{
    law_frame_survivors(live, dt);
}

/// A particle that has more than `dt` left is still live after the frame, in
/// its moved form.
pub proof fn law_frame_keeps_living(live: Seq<Particle>, dt: Scalar, i: int)
    requires
        0 <= i < live.len(),
        live[i].time_to_live@ > dt@,
    ensures
        survivors(live, dt).contains(live[i].advanced(dt)),
{
    let moved = advanced_all(live, dt);
    let alive = |p: Particle| !p.expired();
    assert(moved[i] == live[i].advanced(dt));
    moved.lemma_filter_contains(alive, i);
}

} // verus!
