use vstd::prelude::*;
use crate::player::{Player, MAX_COOLDOWN, PLAYER_SPEED};
use crate::units::{saturate, saturate_i128, Keys, Vec2, DIRECTION_SCALE, SECOND, UNIT};

verus! {

/// Travel rate of a tear whose direction has length one, in world units per
/// second.
pub const TEAR_SPEED: i64 = 200;

/// Scales how fast the cooldown runs down and how long it is after a shot.
pub const COOLDOWN_CONST: u64 = 1;

/// The cooldown set by a shot: `COOLDOWN_CONST * 0.2` seconds, in
/// nanoseconds.
pub const TEAR_DELAY: u64 = COOLDOWN_CONST * 200_000_000;

/// Share of the player's movement direction added to a tear's direction, in
/// direction units: `DIRECTION_SCALE * PLAYER_SPEED / TEAR_SPEED`.
pub const PLAYER_BIAS: i64 = 1;

/// Length units a tear covers per nanosecond for each direction unit:
/// `TEAR_SPEED / DIRECTION_SCALE`.
pub const TEAR_RATE: i64 = 100;

/// `PLAYER_BIAS` is the player-to-tear speed ratio in direction units,
/// `TEAR_RATE` is the tear speed per direction unit, and `TEAR_DELAY` is a
/// fifth of `COOLDOWN_CONST` seconds.
pub proof fn tear_constants_agree()
    ensures
        PLAYER_BIAS * TEAR_SPEED == DIRECTION_SCALE * PLAYER_SPEED,
        TEAR_RATE * DIRECTION_SCALE == TEAR_SPEED,
        SECOND == UNIT,
        TEAR_DELAY * 5 == COOLDOWN_CONST * SECOND,
{
}

/// A projectile. Its direction is fixed when it is fired.
#[derive(Clone, Copy, Debug, PartialEq, Eq, Structural)]
pub struct Tear {
    /// Travel direction, in direction units; not normalised.
    pub direction: Vec2,
    /// Position, in length units.
    pub position: Vec2,
}

/// Distance a tear covers on one axis in `dt` nanoseconds when its
/// direction has component `dir` there: `dir / DIRECTION_SCALE` times
/// `TEAR_SPEED * dt` length units.
pub open spec fn tear_distance(dir: int, dt: int) -> int {
    dir * TEAR_RATE * dt
}

/// The tear `t` after one frame of `dt` nanoseconds.
pub open spec fn advanced(t: Tear, dt: int) -> Tear {
    Tear {
        direction: t.direction,
        position: Vec2 {
            x: saturate(t.position.x + tear_distance(t.direction.x as int, dt)) as i64,
            y: saturate(t.position.y + tear_distance(t.direction.y as int, dt)) as i64,
        },
    }
}

fn advance_coordinate(pos: i64, dir: i64, dt: u32) -> (r: i64)
    ensures
        r == saturate(pos + tear_distance(dir as int, dt as int)),
{
    proof {
        assert(-9_300_000_000_000_000_000 * 100 * 4_294_967_295 <= dir * 100 * dt
            <= 9_300_000_000_000_000_000 * 100 * 4_294_967_295) by (nonlinear_arith)
            requires
                i64::MIN <= dir <= i64::MAX,
                0 <= dt <= u32::MAX,
        ;
    }
    let d: i128 = (dir as i128) * (TEAR_RATE as i128) * (dt as i128);
    saturate_i128(pos as i128 + d)
}

/// The projectile step: every tear moves by its direction, counted in
/// world units, times `TEAR_SPEED * dt`, held to the range of `i64`.
pub fn tear_movement_system(tears: &mut Vec<Tear>, dt: u32)
    ensures
        final(tears)@.len() == old(tears)@.len(),
        forall|i: int|
            0 <= i < old(tears)@.len() ==> #[trigger] final(tears)@[i] == advanced(
                old(tears)@[i],
                dt as int,
            ),
{
    let n = tears.len();
    let mut i: usize = 0;
    while i < n
        invariant
            n == old(tears)@.len(),
            tears@.len() == n,
            0 <= i <= n,
            forall|j: int| 0 <= j < i ==> #[trigger] tears@[j] == advanced(old(tears)@[j], dt as int),
            forall|j: int| i <= j < n ==> #[trigger] tears@[j] == old(tears)@[j],
        decreases n - i,
    {
        let t = tears[i];
        let x = advance_coordinate(t.position.x, t.direction.x, dt);
        let y = advance_coordinate(t.position.y, t.direction.y, dt);
        tears.set(i, Tear { direction: t.direction, position: Vec2 { x, y } });
        i = i + 1;
    }
}

/// The cooldown after the decay of one frame: while positive it goes down
/// by `COOLDOWN_CONST * dt`, held to `[0, MAX_COOLDOWN]`.
pub open spec fn decayed_cooldown(cooldown: int, dt: int) -> int {
    if cooldown > 0 {
        let c = cooldown - COOLDOWN_CONST * dt;
        if c < 0 {
            0
        } else if c > MAX_COOLDOWN {
            MAX_COOLDOWN as int
        } else {
            c
        }
    } else {
        cooldown
    }
}

/// The direction a tear fired by `p` with aim keys `aim` would take: the
/// aim keys' unit contributions plus the player's direction scaled by
/// `PLAYER_SPEED / TEAR_SPEED`.
pub open spec fn combined_direction(p: Player, aim: Keys) -> Vec2 {
    Vec2 {
        x: (aim.dx() * DIRECTION_SCALE + p.direction.x * PLAYER_BIAS) as i64,
        y: (aim.dy() * DIRECTION_SCALE + p.direction.y * PLAYER_BIAS) as i64,
    }
}

/// Whether the spawn step fires: an aim key is held, the cooldown is over,
/// and the combined direction is not zero.
pub open spec fn spawns(p: Player, aim: Keys) -> bool {
    &&& aim.any()
    &&& p.tear_cooldown == 0
    &&& combined_direction(p, aim) != Vec2 { x: 0, y: 0 }
}

/// What the spawn step creates for `p`: a tear at the player's position in
/// the combined direction, or nothing.
pub open spec fn spawned_tear(p: Player, aim: Keys) -> Option<Tear> {
    if spawns(p, aim) {
        Some(Tear { direction: combined_direction(p, aim), position: p.position })
    } else {
        None
    }
}

/// The player's cooldown after the spawn step.
pub open spec fn cooldown_after(p: Player, aim: Keys, dt: int) -> int {
    if spawns(p, aim) {
        TEAR_DELAY as int
    } else {
        decayed_cooldown(p.tear_cooldown as int, dt)
    }
}

/// The player `p` after the spawn step of one frame.
pub open spec fn after_spawn(p: Player, aim: Keys, dt: int) -> Player {
    Player { tear_cooldown: cooldown_after(p, aim, dt) as u64, ..p }
}

/// The spawn step for one frame of `dt` nanoseconds: runs the cooldown
/// down, and fires a tear when an aim key is held, the cooldown was over
/// and the combined direction is not zero; a shot sets the cooldown to
/// `TEAR_DELAY`.
pub fn tear_spawn_system(player: &mut Player, aim: &Keys, dt: u32) -> (r: Option<Tear>)
    requires
        old(player).wf(),
    ensures
        r == spawned_tear(*old(player), *aim),
        *final(player) == after_spawn(*old(player), *aim, dt as int),
        final(player).tear_cooldown == cooldown_after(*old(player), *aim, dt as int),
        final(player).wf(),
        final(player).speed == old(player).speed,
        final(player).name == old(player).name,
        final(player).level == old(player).level,
        final(player).health == old(player).health,
        final(player).direction == old(player).direction,
        final(player).position == old(player).position,
{
    let mut spawn = aim.any_held();
    let aim_x = aim.horizontal() * DIRECTION_SCALE;
    let aim_y = aim.vertical() * DIRECTION_SCALE;
    if player.tear_cooldown > 0 {
        proof {
            let (k, t) = (COOLDOWN_CONST as int, dt as int);
            assert(0 <= k * t <= 1 * u32::MAX) by (nonlinear_arith)
                requires
                    k == 1,
                    0 <= t <= u32::MAX,
            ;
        }
        let decrement: u64 = COOLDOWN_CONST * (dt as u64);
        let c: u64 = player.tear_cooldown.saturating_sub(decrement);
        player.tear_cooldown = if c > MAX_COOLDOWN {
            MAX_COOLDOWN
        } else {
            c
        };
        spawn = false;
    }
    let direction = Vec2::new(
        aim_x + player.direction.x * PLAYER_BIAS,
        aim_y + player.direction.y * PLAYER_BIAS,
    );
    if direction.x == 0 && direction.y == 0 {
        spawn = false;
    }
    if spawn {
        player.tear_cooldown = TEAR_DELAY;
        Some(Tear { direction, position: player.position })
    } else {
        None
    }
}

} // verus!
