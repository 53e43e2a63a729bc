use vstd::prelude::*;
use crate::player::{after_movement, movement, Player};
use crate::tear::{
    advanced, after_spawn, spawned_tear, tear_movement_system, tear_spawn_system, Tear,
};
use crate::units::Keys;

verus! {

/// What the engine hands the simulation each frame.
#[derive(Clone, Copy, Debug, PartialEq, Eq, Structural)]
pub struct FrameInput {
    /// Time since the previous frame, in nanoseconds.
    pub dt: u32,
    /// Keys that move the player.
    pub movement: Keys,
    /// Keys that aim and fire tears.
    pub aim: Keys,
}

/// All live entities: one player and the tears fired so far. Tears are kept
/// in the order they were fired and are never removed.
#[derive(Clone, Debug)]
pub struct World {
    pub player: Player,
    pub tears: Vec<Tear>,
}

impl World {
    pub open spec fn wf(&self) -> bool {
        self.player.wf()
    }

    /// A world holding `player` and no tears.
    pub fn new(player: Player) -> (r: World)
        requires
            player.wf(),
        ensures
            r.wf(),
            r.player == player,
            r.tears@.len() == 0,
    {
        World { player, tears: Vec::new() }
    }

    /// One frame: the movement step, then the spawn step, then the
    /// projectile step over the tears that were live when the frame began.
    /// A tear fired in this frame joins the store at its end, at the
    /// player's position; it is returned too.
    pub fn frame(&mut self, input: &FrameInput) -> (r: Option<Tear>)
        requires
            old(self).wf(),
        ensures
            final(self).wf(),
            ({
                let moved = after_movement(old(self).player, input.movement, input.dt as int);
                &&& r == spawned_tear(moved, input.aim)
                &&& final(self).player == after_spawn(moved, input.aim, input.dt as int)
            }),
            final(self).tears@.len() == old(self).tears@.len() + (if r is Some {
                1int
            } else {
                0int
            }),
            forall|i: int|
                0 <= i < old(self).tears@.len() ==> #[trigger] final(self).tears@[i] == advanced(
                    old(self).tears@[i],
                    input.dt as int,
                ),
            r is Some ==> final(self).tears@[old(self).tears@.len() as int] == r->0,
    {
        movement(&mut self.player, &input.movement, input.dt);
        let fired = tear_spawn_system(&mut self.player, &input.aim, input.dt);
        tear_movement_system(&mut self.tears, input.dt);
        if let Some(t) = fired {
            self.tears.push(t);
        }
        fired
    }
}

} // verus!
