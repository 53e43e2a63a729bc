use vstd::prelude::*;
use crate::units::{Keys, Vec2, SECOND, X_BOUND, Y_BOUND};

verus! {

/// Movement rate of a new player, in world units per second.
pub const PLAYER_SPEED: u16 = 100;

/// The largest cooldown a player may hold: one hundred seconds.
pub const MAX_COOLDOWN: u64 = 100 * SECOND;

/// The controllable entity.
#[derive(Clone, Debug)]
pub struct Player {
    /// Movement rate, in world units per second.
    pub speed: u16,
    pub name: String,
    pub level: i32,
    pub health: i32,
    /// Time left before the next tear may be fired, in nanoseconds.
    pub tear_cooldown: u64,
    /// Movement direction of the last frame: each component is the sum of
    /// the unit contributions of the held movement keys.
    pub direction: Vec2,
    /// Position, in length units.
    pub position: Vec2,
}

impl Player {
    /// The cooldown stays within `[0, MAX_COOLDOWN]` and the direction is a
    /// sum of at most two orthogonal unit steps.
    pub open spec fn wf(&self) -> bool {
        &&& self.tear_cooldown <= MAX_COOLDOWN
        &&& -1 <= self.direction.x <= 1
        &&& -1 <= self.direction.y <= 1
    }

    /// A player at the origin, standing still, ready to fire.
    pub fn new(name: String, level: i32, health: i32) -> (r: Player)
        ensures
            r.wf(),
            r.speed == PLAYER_SPEED,
            r.name@ == name@,
            r.level == level,
            r.health == health,
            r.tear_cooldown == 0,
            r.direction == (Vec2 { x: 0, y: 0 }),
            r.position == (Vec2 { x: 0, y: 0 }),
    {
        Player {
            speed: PLAYER_SPEED,
            name,
            level,
            health,
            tear_cooldown: 0,
            direction: Vec2::zero(),
            position: Vec2::zero(),
        }
    }
}

/// Distance covered on one axis in `dt` nanoseconds by a player with the
/// given speed whose held keys sum to `dir` on that axis. Since `UNIT`
/// equals `SECOND`, this is `dir * speed * dt` length units.
pub open spec fn frame_distance(dir: int, speed: int, dt: int) -> int {
    dir * speed * dt
}

/// The displacement `d` as applied at `pos`: zeroed when the player already
/// stands at or beyond the boundary `bound` (in either sign) and `d` points
/// further out. Inward displacement is never blocked.
pub open spec fn edge_step(pos: int, d: int, bound: int) -> int {
    if (pos <= -bound && d < 0) || (pos >= bound && d > 0) {
        0
    } else {
        d
    }
}

/// Where one coordinate of the player lands after one frame.
pub open spec fn moved(pos: int, dir: int, speed: int, dt: int, bound: int) -> int {
    pos + edge_step(pos, frame_distance(dir, speed, dt), bound)
}

proof fn lemma_distance_bound(dir: int, speed: int, dt: int)
    requires
        -1 <= dir <= 1,
        0 <= speed <= u16::MAX,
        0 <= dt <= u32::MAX,
    ensures
        0 <= speed * dt <= 65535 * 4294967295,
        dir * speed * dt == dir * (speed * dt),
        -300_000_000_000_000 <= frame_distance(dir, speed, dt) <= 300_000_000_000_000,
{
    assert(0 <= speed * dt <= 65535 * 4294967295) by (nonlinear_arith)
        requires
            0 <= speed <= 65535,
            0 <= dt <= 4294967295,
    ;
    assert(-300_000_000_000_000 <= dir * (speed * dt) <= 300_000_000_000_000) by (nonlinear_arith)
        requires
            -1 <= dir <= 1,
            0 <= speed * dt <= 65535 * 4294967295,
    ;
    assert(dir * speed * dt == dir * (speed * dt)) by (nonlinear_arith);
}

/// The player `p` after the movement step of one frame.
pub open spec fn after_movement(p: Player, keys: Keys, dt: int) -> Player {
    Player {
        direction: Vec2 { x: keys.dx() as i64, y: keys.dy() as i64 },
        position: Vec2 {
            x: moved(p.position.x as int, keys.dx(), p.speed as int, dt, X_BOUND as int) as i64,
            y: moved(p.position.y as int, keys.dy(), p.speed as int, dt, Y_BOUND as int) as i64,
        },
        ..p
    }
}

/// One coordinate of the movement step: the displacement from `dir`,
/// clamped at the boundary and added to `pos`.
fn step_axis(pos: i64, dir: i64, speed: u16, dt: u32, bound: i64) -> (r: i64)
    requires
        -1 <= dir <= 1,
        0 < bound <= 1_000_000_000_000_000,
    ensures
        r == moved(pos as int, dir as int, speed as int, dt as int, bound as int),
        -300_000_000_000_000 <= r - pos <= 300_000_000_000_000,
{
    proof {
        lemma_distance_bound(dir as int, speed as int, dt as int);
    }
    let per_key: i64 = (speed as i64) * (dt as i64);
    let d: i64 = dir * per_key;
    if (pos <= -bound && d < 0) || (pos >= bound && d > 0) {
        pos
    } else {
        pos + d
    }
}

/// The movement step for one frame of `dt` nanoseconds: the held movement
/// keys set the player's direction and move it by `speed * dt` per key, each
/// axis stopped where it would push past the window edge. Returns the
/// displacement that was applied, so that a render transform kept beside
/// the position can follow it.
pub fn movement(player: &mut Player, keys: &Keys, dt: u32) -> (r: Vec2)
    ensures
        *final(player) == after_movement(*old(player), *keys, dt as int),
        final(player).direction.x == keys.dx(),
        final(player).direction.y == keys.dy(),
        final(player).position.x == moved(
            old(player).position.x as int,
            keys.dx(),
            old(player).speed as int,
            dt as int,
            X_BOUND as int,
        ),
        final(player).position.y == moved(
            old(player).position.y as int,
            keys.dy(),
            old(player).speed as int,
            dt as int,
            Y_BOUND as int,
        ),
        r.x == final(player).position.x - old(player).position.x,
        r.y == final(player).position.y - old(player).position.y,
        final(player).speed == old(player).speed,
        final(player).name == old(player).name,
        final(player).level == old(player).level,
        final(player).health == old(player).health,
        final(player).tear_cooldown == old(player).tear_cooldown,
        old(player).wf() ==> final(player).wf(),
{
    let dx = keys.horizontal();
    let dy = keys.vertical();
    player.direction = Vec2::new(dx, dy);
    let x = step_axis(player.position.x, dx, player.speed, dt, X_BOUND);
    let y = step_axis(player.position.y, dy, player.speed, dt, Y_BOUND);
    let applied = Vec2::new(x - player.position.x, y - player.position.y);
    player.position = Vec2::new(x, y);
    applied
}

} // verus!
