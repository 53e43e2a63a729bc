use vstd::prelude::*;
use crate::player::{after_movement, Player, MAX_COOLDOWN};
use crate::tear::{
    advanced, combined_direction, cooldown_after, spawned_tear, Tear, COOLDOWN_CONST,
    TEAR_SPEED,
};
use crate::units::{Keys, Vec2, DIRECTION_SCALE, SECOND, X_BOUND, Y_BOUND};

verus! {

/// At a window edge, movement further out leaves that coordinate where it
/// is, while movement back in from the edge is applied in full: the
/// coordinate moves by `speed * dt`.
pub proof fn boundary_clamp(p: Player, keys: Keys, dt: u32)
    ensures
        ({
            let q = after_movement(p, keys, dt as int);
            let step = p.speed * dt;
            &&& p.position.x <= -X_BOUND && keys.dx() < 0 ==> q.position.x == p.position.x
            &&& p.position.x >= X_BOUND && keys.dx() > 0 ==> q.position.x == p.position.x
            &&& p.position.y <= -Y_BOUND && keys.dy() < 0 ==> q.position.y == p.position.y
            &&& p.position.y >= Y_BOUND && keys.dy() > 0 ==> q.position.y == p.position.y
            &&& p.position.x == -X_BOUND && keys.dx() > 0 ==> q.position.x == p.position.x + step
            &&& p.position.x == X_BOUND && keys.dx() < 0 ==> q.position.x == p.position.x - step
            &&& p.position.y == -Y_BOUND && keys.dy() > 0 ==> q.position.y == p.position.y + step
            &&& p.position.y == Y_BOUND && keys.dy() < 0 ==> q.position.y == p.position.y - step
        }),
{
    let step = p.speed * dt;
    assert(0 <= step <= 300_000_000_000_000) by (nonlinear_arith)
        requires
            0 <= p.speed <= 65535,
            0 <= dt <= 4294967295,
            step == p.speed * dt,
    ;
    assert(1 * p.speed * dt == step);
    assert((-1) * p.speed * dt == -step) by (nonlinear_arith)
        requires
            step == p.speed * dt,
    ;
}

/// The spawn step keeps the cooldown within `[0, MAX_COOLDOWN]`, and a
/// positive cooldown never goes up.
pub proof fn cooldown_monotone(p: Player, aim: Keys, dt: u32)
    requires
        p.wf(),
    ensures
        0 <= cooldown_after(p, aim, dt as int) <= MAX_COOLDOWN,
        p.tear_cooldown > 0 ==> cooldown_after(p, aim, dt as int) <= p.tear_cooldown,
{
    assert(COOLDOWN_CONST * dt >= 0) by (nonlinear_arith)
        requires
            COOLDOWN_CONST >= 0,
            dt >= 0,
    ;
}

/// While the cooldown runs, holding aim keys fires nothing.
pub proof fn spawn_gating(p: Player, aim: Keys)
    requires
        p.tear_cooldown > 0,
        aim.any(),
    ensures
        spawned_tear(p, aim) is None,
{
}

/// A shot sets the cooldown to exactly `COOLDOWN_CONST * 0.2` seconds.
pub proof fn spawn_reset(p: Player, aim: Keys, dt: u32)
    requires
        spawned_tear(p, aim) is Some,
    ensures
        5 * cooldown_after(p, aim, dt as int) == COOLDOWN_CONST * SECOND,
{
}

/// With no direction to travel in nothing is fired, whatever the cooldown;
/// the combined direction is zero when no aim key is held and the player
/// stands still.
pub proof fn zero_direction_suppression(p: Player, aim: Keys)
    requires
        combined_direction(p, aim) == (Vec2 { x: 0, y: 0 }),
    ensures
        spawned_tear(p, aim) is None,
{
}

/// With no aim key held and the player standing still, the combined
/// direction is zero.
pub proof fn idle_direction_is_zero(p: Player, aim: Keys)
    requires
        !aim.any(),
        p.direction == (Vec2 { x: 0, y: 0 }),
    ensures
        combined_direction(p, aim) == (Vec2 { x: 0, y: 0 }),
{
}

/// Sum of the frame times in `dts`.
pub open spec fn total(dts: Seq<u32>) -> int
    decreases dts.len(),
{
    if dts.len() == 0 {
        0
    } else {
        total(dts.drop_last()) + dts.last()
    }
}

/// The tear `t` after one frame for each of the frame times in `dts`, in
/// order.
pub open spec fn advanced_through(t: Tear, dts: Seq<u32>) -> Tear
    decreases dts.len(),
{
    if dts.len() == 0 {
        t
    } else {
        advanced(advanced_through(t, dts.drop_last()), dts.last() as int)
    }
}

/// A tear heading along `(1, 0)` keeps its direction, moves `TEAR_SPEED`
/// times the frame time in x and nothing in y in every frame, so that after
/// any run of frames x has grown by `TEAR_SPEED` times their total time.
/// This holds for as long as x stays within the range of `i64`, where
/// positions saturate.
pub proof fn projectile_integration(t: Tear, dts: Seq<u32>)
    requires
        t.direction == (Vec2 { x: DIRECTION_SCALE, y: 0 }),
        t.position.x + TEAR_SPEED * total(dts) <= i64::MAX,
    ensures
        forall|k: int|
            0 <= k <= dts.len() ==> {
                let u = #[trigger] advanced_through(t, dts.take(k));
                &&& u.direction == t.direction
                &&& u.position.x == t.position.x + TEAR_SPEED * total(dts.take(k))
                &&& u.position.y == t.position.y
            },
    decreases dts.len(),
{
    assert(dts.take(dts.len() as int) =~= dts);
    if dts.len() == 0 {
        assert(dts.take(0) =~= dts);
    } else {
        let rest = dts.drop_last();
        let dt = dts.last();
        assert(TEAR_SPEED * total(rest) + TEAR_SPEED * dt == TEAR_SPEED * total(dts)) by (nonlinear_arith)
            requires
                total(dts) == total(rest) + dt,
        ;
        assert(TEAR_SPEED * dt >= 0);
        projectile_integration(t, rest);
        assert forall|k: int| 0 <= k <= rest.len() implies dts.take(k) == #[trigger] rest.take(k) by {
            assert(dts.take(k) =~= rest.take(k));
        }
        assert(rest.take(rest.len() as int) =~= rest);
        let prev = advanced_through(t, rest);
        assert(DIRECTION_SCALE * crate::tear::TEAR_RATE * dt == TEAR_SPEED * dt);
        assert(0 * crate::tear::TEAR_RATE * dt == 0);
        assert(advanced_through(t, dts) == advanced(prev, dt as int));
        assert(prev.position.x == t.position.x + TEAR_SPEED * total(rest));
        assert(prev.position.x + TEAR_SPEED * dt <= i64::MAX);
        let u = advanced(prev, dt as int);
        assert(u.position.x == t.position.x + TEAR_SPEED * total(dts));
        assert(u.position.y == t.position.y);
        assert forall|k: int| 0 <= k <= dts.len() implies {
            let v = #[trigger] advanced_through(t, dts.take(k));
            &&& v.direction == t.direction
            &&& v.position.x == t.position.x + TEAR_SPEED * total(dts.take(k))
            &&& v.position.y == t.position.y
        } by {
            if k == dts.len() {
                assert(dts.take(k) == dts);
            } else {
                assert(dts.take(k) == rest.take(k));
            }
        }
    }
}

} // verus!
