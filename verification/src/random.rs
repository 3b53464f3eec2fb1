//! A linear congruential generator and the wall positions drawn from it.

use vstd::prelude::*;
use crate::config::{DUNGEON_HEIGHT, DUNGEON_WIDTH, WALL_COUNT, WALL_HEIGHT, WALL_WIDTH};
use crate::geometry::WallPos;

verus! {

/// Multiplier of the generator.
pub const LCG_MULTIPLIER: u32 = 1103515245;

/// Increment of the generator.
pub const LCG_INCREMENT: u32 = 12345;

/// Linear congruential generator. The field is its whole state: the value
/// drawn last, or the seed before the first draw.
#[derive(Debug)]
pub struct Random(pub u32);

/// The state that follows `seed`: `LCG_MULTIPLIER * seed + LCG_INCREMENT`,
/// reduced modulo 2^32.
pub open spec fn lcg_step(seed: u32) -> u32 {
    ((LCG_MULTIPLIER as int * seed as int + LCG_INCREMENT as int) % 0x1_0000_0000) as u32
}

/// The state reached from `seed` by `draws` steps.
pub open spec fn lcg_iter(seed: u32, draws: nat) -> u32
    decreases draws,
{
    if draws == 0 {
        seed
    } else {
        lcg_step(lcg_iter(seed, (draws - 1) as nat))
    }
}

/// The wall that a generator in state `seed` places next: two draws, the
/// first reduced to the columns and the second to the rows in which a wall's
/// corner may lie.
pub open spec fn wall_from(seed: u32) -> WallPos {
    WallPos(
        (lcg_step(seed) % ((DUNGEON_WIDTH - WALL_WIDTH) as u32)) as u32,
        (lcg_step(lcg_step(seed)) % ((DUNGEON_HEIGHT - WALL_HEIGHT) as u32)) as u32,
    )
}

/// The wall at `wall` lies inside the dungeon, clear of its far borders.
pub open spec fn wall_in_dungeon(wall: WallPos) -> bool {
    wall.0 + WALL_WIDTH < DUNGEON_WIDTH && wall.1 + WALL_HEIGHT < DUNGEON_HEIGHT
}

/// The first `count` walls that a generator in state `seed` places, in the
/// order in which it draws them.
pub open spec fn batch_from(seed: u32, count: nat) -> Seq<WallPos> {
    Seq::new(count, |i: int| wall_from(lcg_iter(seed, (2 * i) as nat)))
}

/// Drawing `first` values and then `second` more is drawing `first + second`
/// values: the sequence goes on from the state it has reached.
pub proof fn lemma_lcg_iter_continues(seed: u32, first: nat, second: nat)
    ensures
        lcg_iter(lcg_iter(seed, first), second) == lcg_iter(seed, first + second),
    decreases second,
{
    if second > 0 {
        lemma_lcg_iter_continues(seed, first, (second - 1) as nat);
        assert((first + second - 1) as nat == first + (second - 1) as nat);
    }
}

/// Every wall that the generator places lies inside the dungeon, whatever
/// its state.
pub proof fn lemma_batch_in_dungeon(seed: u32, count: nat)
    ensures
        forall|i: int|
            0 <= i < count ==> wall_in_dungeon(#[trigger] batch_from(seed, count)[i]),
{
}

impl Default for Random {
    /// A generator with seed 0.
    fn default() -> (rng: Random)
        ensures
            rng.0 == 0,
    {
        Random(0)
    }
}

impl Random {
    /// Advances the generator by one step and returns its new state.
    pub fn next_u32(&mut self) -> (value: u32)
        ensures
            value == lcg_step(old(self).0),
            final(self).0 == value,
    {
        self.0 = LCG_MULTIPLIER.wrapping_mul(self.0).wrapping_add(LCG_INCREMENT);
        self.0
    }

    /// Draws the position of one wall, inside the dungeon.
    pub fn next_wall(&mut self) -> (wall: WallPos)
        ensures
            wall == wall_from(old(self).0),
            final(self).0 == lcg_iter(old(self).0, 2),
            wall_in_dungeon(wall),
    {
        let x: u32 = self.next_u32();
        let y: u32 = self.next_u32();
        proof {
            reveal_with_fuel(lcg_iter, 3);
        }
        WallPos(x % (DUNGEON_WIDTH - WALL_WIDTH), y % (DUNGEON_HEIGHT - WALL_HEIGHT))
    }

    /// Draws the positions of one batch of walls, in the order of the draws.
    pub fn next_walls(&mut self) -> (walls: Vec<WallPos>)
        ensures
            walls@ == batch_from(old(self).0, WALL_COUNT as nat),
            final(self).0 == lcg_iter(old(self).0, 2 * WALL_COUNT as nat),
            forall|i: int| 0 <= i < walls@.len() ==> wall_in_dungeon(#[trigger] walls@[i]),
    {
        let ghost start: u32 = self.0;
        let mut walls: Vec<WallPos> = Vec::new();
        let mut drawn: usize = 0;
        while drawn < WALL_COUNT
            invariant
                drawn <= WALL_COUNT,
                walls@ == batch_from(start, drawn as nat),
                self.0 == lcg_iter(start, 2 * drawn as nat),
            decreases WALL_COUNT - drawn,
        {
            let ghost state: u32 = self.0;
            let wall: WallPos = self.next_wall();
            walls.push(wall);
            proof {
                lemma_lcg_iter_continues(start, 2 * drawn as nat, 2);
                assert(walls@ =~= batch_from(start, (drawn + 1) as nat));
            }
            drawn += 1;
        }
        walls
    }
}

} // verus!
