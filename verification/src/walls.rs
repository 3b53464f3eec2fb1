//! The life cycle of a batch of walls: the walls that the player runs into
//! are removed and counted, and an emptied batch is replaced by the next
//! generation.

use vstd::prelude::*;
use crate::config::WALL_COUNT;
use crate::geometry::{is_player_touching_wall, touches, PlayerPos, WallPos};
use crate::random::{batch_from, lcg_iter, lemma_batch_in_dungeon, wall_in_dungeon, Random};

verus! {

/// The test that a wall passes when the player at `pos` has not run into it.
pub open spec fn misses(pos: PlayerPos) -> spec_fn((u64, WallPos)) -> bool {
    |entry: (u64, WallPos)| !touches(pos, entry.1)
}

/// The walls that are left when the player stands at `pos`, in the order
/// they had.
pub open spec fn survivors(walls: Seq<(u64, WallPos)>, pos: PlayerPos) -> Seq<(u64, WallPos)> {
    walls.filter(misses(pos))
}

/// The number of walls that the player at `pos` has run into.
pub open spec fn removed_count(walls: Seq<(u64, WallPos)>, pos: PlayerPos) -> nat {
    (walls.len() - survivors(walls, pos).len()) as nat
}

/// The player at `pos` clears the batch: no wall is left.
pub open spec fn respawns(walls: Seq<(u64, WallPos)>, pos: PlayerPos) -> bool {
    survivors(walls, pos).len() == 0
}

/// The generation that a wall's identifier encodes.
pub open spec fn entry_generation(entry: (u64, WallPos)) -> int {
    entry.0 as int / WALL_COUNT as int
}

/// The generation of a batch: that of its first wall.
pub open spec fn generation_of(walls: Seq<(u64, WallPos)>) -> int {
    entry_generation(walls[0])
}

/// The batch `batch` with its identifiers: the wall at index `i` of
/// generation `generation` is number `generation * WALL_COUNT + i`.
pub open spec fn tagged_batch(generation: int, batch: Seq<WallPos>) -> Seq<(u64, WallPos)> {
    Seq::new(batch.len(), |i: int| ((generation * WALL_COUNT + i) as u64, batch[i]))
}

/// Every identifier of generation `generation` is a `u64`.
pub open spec fn ids_fit(generation: int) -> bool {
    generation * WALL_COUNT + WALL_COUNT - 1 <= u64::MAX
}

/// The walls after the player has moved to `pos`, with a generator in state
/// `seed`: the survivors, or the next generation where there are none.
pub open spec fn walls_after(walls: Seq<(u64, WallPos)>, pos: PlayerPos, seed: u32) -> Seq<
    (u64, WallPos),
> {
    if respawns(walls, pos) {
        tagged_batch(generation_of(walls) + 1, batch_from(seed, WALL_COUNT as nat))
    } else {
        survivors(walls, pos)
    }
}

/// The generator's state after the player has moved to `pos`: advanced by
/// the draws of one batch where the batch was cleared, else as it was.
pub open spec fn seed_after(walls: Seq<(u64, WallPos)>, pos: PlayerPos, seed: u32) -> u32 {
    if respawns(walls, pos) {
        lcg_iter(seed, 2 * WALL_COUNT as nat)
    } else {
        seed
    }
}

/// Identifiers grow along the sequence.
pub open spec fn ids_increase(walls: Seq<(u64, WallPos)>) -> bool {
    forall|i: int, j: int|
        #![trigger walls[i], walls[j]]
        0 <= i < j < walls.len() ==> walls[i].0 < walls[j].0
}

/// What holds of the walls between two steps: there is at least one and at
/// most a full batch, all of one generation and inside the dungeon, with
/// growing identifiers.
pub open spec fn batch_wf(walls: Seq<(u64, WallPos)>) -> bool {
    &&& 0 < walls.len() <= WALL_COUNT
    &&& ids_increase(walls)
    &&& forall|i: int|
        0 <= i < walls.len() ==> entry_generation(#[trigger] walls[i]) == generation_of(walls)
    &&& forall|i: int| 0 <= i < walls.len() ==> wall_in_dungeon((#[trigger] walls[i]).1)
}

/// `after` can be what is left of `before`, or come from a later generation:
/// both are well formed, the generation has not gone back, and every wall of
/// `after` that is of `before`'s generation was already in `before`.
pub open spec fn succeeds(before: Seq<(u64, WallPos)>, after: Seq<(u64, WallPos)>) -> bool {
    &&& batch_wf(before)
    &&& batch_wf(after)
    &&& generation_of(before) <= generation_of(after)
    &&& forall|i: int|
        0 <= i < after.len() && entry_generation(#[trigger] after[i]) == generation_of(before)
            ==> before.contains(after[i])
}

/// A filter that drops nothing returns the sequence itself.
proof fn lemma_nothing_removed(walls: Seq<(u64, WallPos)>, pos: PlayerPos)
    requires
        removed_count(walls, pos) == 0,
    ensures
        survivors(walls, pos) == walls,
    decreases walls.len(),
{
    walls.lemma_filter_len(misses(pos));
    if walls.len() > 0 {
        let front = walls.drop_last();
        assert(walls =~= front.push(walls.last()));
        front.lemma_filter_push(walls.last(), misses(pos));
        front.lemma_filter_len(misses(pos));
        lemma_nothing_removed(front, pos);
    } else {
        assert(survivors(walls, pos) =~= walls);
    }
}

/// Survivors were walls before, and keep the order of their identifiers.
proof fn lemma_survivors_in_order(walls: Seq<(u64, WallPos)>, pos: PlayerPos)
    requires
        ids_increase(walls),
    ensures
        ids_increase(survivors(walls, pos)),
        forall|i: int|
            0 <= i < survivors(walls, pos).len() ==> walls.contains(
                #[trigger] survivors(walls, pos)[i],
            ),
    decreases walls.len(),
{
    walls.lemma_filter_len(misses(pos));
    if walls.len() > 0 {
        let front = walls.drop_last();
        let last = walls.last();
        let kept = survivors(walls, pos);
        let kept_front = survivors(front, pos);
        assert(walls =~= front.push(last));
        front.lemma_filter_push(last, misses(pos));
        assert(ids_increase(front)) by {
            assert forall|i: int, j: int| 0 <= i < j < front.len() implies front[i].0
                < front[j].0 by {
                assert(walls[i].0 < walls[j].0);
            }
        }
        lemma_survivors_in_order(front, pos);
        assert forall|i: int| 0 <= i < kept.len() implies walls.contains(#[trigger] kept[i]) by {
            if i < kept_front.len() {
                assert(front.contains(kept_front[i]));
                let k = choose|k: int| 0 <= k < front.len() && front[k] == kept_front[i];
                assert(walls[k] == kept[i]);
            } else {
                assert(walls[walls.len() - 1] == kept[i]);
            }
        }
        assert forall|i: int, j: int| 0 <= i < j < kept.len() implies kept[i].0 < kept[j].0 by {
            if j < kept_front.len() {
                assert(kept_front[i].0 < kept_front[j].0);
            } else {
                assert(front.contains(kept_front[i]));
                let k = choose|k: int| 0 <= k < front.len() && front[k] == kept_front[i];
                assert(walls[k].0 < walls[walls.len() - 1].0);
            }
        }
    }
}

/// What is left of a well-formed batch, if anything is left, succeeds it
/// and is of its generation.
pub proof fn lemma_survivors_succeed(walls: Seq<(u64, WallPos)>, pos: PlayerPos)
    requires
        batch_wf(walls),
        !respawns(walls, pos),
    ensures
        succeeds(walls, survivors(walls, pos)),
        generation_of(survivors(walls, pos)) == generation_of(walls),
{
    let kept = survivors(walls, pos);
    walls.lemma_filter_len(misses(pos));
    lemma_survivors_in_order(walls, pos);
    assert forall|i: int| 0 <= i < kept.len() implies entry_generation(#[trigger] kept[i])
        == generation_of(walls) by {
        assert(walls.contains(kept[i]));
        let k = choose|k: int| 0 <= k < walls.len() && walls[k] == kept[i];
        assert(entry_generation(walls[k]) == generation_of(walls));
    }
    assert(entry_generation(kept[0]) == generation_of(walls));
}

/// A full batch inside the dungeon, tagged with the next generation,
/// succeeds a well-formed batch.
pub proof fn lemma_next_generation_succeeds(walls: Seq<(u64, WallPos)>, batch: Seq<WallPos>)
    requires
        batch_wf(walls),
        batch.len() == WALL_COUNT,
        forall|i: int| 0 <= i < batch.len() ==> wall_in_dungeon(#[trigger] batch[i]),
        ids_fit(generation_of(walls) + 1),
    ensures
        succeeds(walls, tagged_batch(generation_of(walls) + 1, batch)),
        generation_of(tagged_batch(generation_of(walls) + 1, batch)) == generation_of(walls) + 1,
{
    let next = generation_of(walls) + 1;
    let fresh = tagged_batch(next, batch);
    assert forall|i: int| 0 <= i < fresh.len() implies entry_generation(#[trigger] fresh[i])
        == next by {
        assert(fresh[i].0 == next * WALL_COUNT + i);
    }
    assert(entry_generation(fresh[0]) == next);
}

/// A well-formed batch succeeds itself, as it does where no wall was hit.
pub proof fn lemma_succeeds_reflexive(walls: Seq<(u64, WallPos)>)
    requires
        batch_wf(walls),
    ensures
        succeeds(walls, walls),
{
}

/// Over any number of steps the walls still succeed those at the start.
pub proof fn lemma_succeeds_transitive(
    first: Seq<(u64, WallPos)>,
    second: Seq<(u64, WallPos)>,
    third: Seq<(u64, WallPos)>,
)
    requires
        succeeds(first, second),
        succeeds(second, third),
    ensures
        succeeds(first, third),
{
    assert forall|i: int|
        0 <= i < third.len() && entry_generation(#[trigger] third[i]) == generation_of(
            first,
        ) implies first.contains(third[i]) by {
        assert(entry_generation(third[i]) == generation_of(third));
        assert(second.contains(third[i]));
        let k = choose|k: int| 0 <= k < second.len() && second[k] == third[i];
        assert(entry_generation(second[k]) == generation_of(first));
    }
}

/// Identifiers never repeat and only grow: a wall seen later either is one
/// of the walls seen before, unchanged, or has an identifier above all of
/// theirs; and the walls seen together have identifiers that grow along the
/// sequence.
pub proof fn lemma_later_ids_are_fresh(before: Seq<(u64, WallPos)>, after: Seq<(u64, WallPos)>)
    requires
        succeeds(before, after),
    ensures
        ids_increase(before),
        ids_increase(after),
        forall|i: int, j: int|
            #![trigger after[i], before[j]]
            0 <= i < after.len() && 0 <= j < before.len() ==> before.contains(after[i])
                || before[j].0 < after[i].0,
{
    assert forall|i: int, j: int|
        #![trigger after[i], before[j]]
        0 <= i < after.len() && 0 <= j < before.len() implies before.contains(after[i])
        || before[j].0 < after[i].0 by {
        assert(entry_generation(after[i]) == generation_of(after));
        assert(entry_generation(before[j]) == generation_of(before));
    }
}

/// Pairs each wall of a batch with its identifier in generation
/// `generation`.
pub fn tag_walls(generation: u64, batch: Vec<WallPos>) -> (walls: Vec<(u64, WallPos)>)
    requires
        batch@.len() > 0 ==> generation * WALL_COUNT + batch@.len() - 1 <= u64::MAX,
    ensures
        walls@ == tagged_batch(generation as int, batch@),
{
    let mut walls: Vec<(u64, WallPos)> = Vec::new();
    let mut index: usize = 0;
    while index < batch.len()
        invariant
            index <= batch@.len(),
            batch@.len() > 0 ==> generation * WALL_COUNT + batch@.len() - 1 <= u64::MAX,
            walls@ == tagged_batch(generation as int, batch@.take(index as int)),
        decreases batch@.len() - index,
    {
        let id: u64 = generation * (WALL_COUNT as u64) + index as u64;
        walls.push((id, batch[index]));
        assert(walls@ =~= tagged_batch(generation as int, batch@.take(index + 1)));
        index += 1;
    }
    assert(batch@.take(index as int) =~= batch@);
    walls
}

/// Adds `delta` points to the score.
pub fn add_score(score: &mut u32, delta: u32)
    requires
        *old(score) + delta <= u32::MAX,
    ensures
        *final(score) == *old(score) + delta,
{
    *score = *score + delta;
}

/// Removes the walls that the player at `pos` has run into and adds their
/// number to the score. Where that clears the batch, the next generation is
/// drawn from `rng` and takes its place. Returns the number of walls removed
/// and whether a new batch was spawned.
pub fn update_walls_and_score(
    walls: &mut Vec<(u64, WallPos)>,
    score: &mut u32,
    pos: PlayerPos,
    rng: &mut Random,
) -> (outcome: (u32, bool))
    requires
        old(walls)@.len() > 0,
        *old(score) + removed_count(old(walls)@, pos) <= u32::MAX,
        respawns(old(walls)@, pos) ==> ids_fit(generation_of(old(walls)@) + 1),
    ensures
        outcome.0 == removed_count(old(walls)@, pos),
        outcome.1 == respawns(old(walls)@, pos),
        *final(score) == *old(score) + removed_count(old(walls)@, pos),
        final(walls)@ == walls_after(old(walls)@, pos, old(rng).0),
        final(rng).0 == seed_after(old(walls)@, pos, old(rng).0),
        outcome.0 == 0 ==> final(walls)@ == old(walls)@,
        final(walls)@.len() > 0,
        outcome.1 ==> final(walls)@.len() == WALL_COUNT,
        batch_wf(old(walls)@) ==> succeeds(old(walls)@, final(walls)@),
{
    let next_generation: u64 = walls[0].0 / (WALL_COUNT as u64) + 1;
    let len_before: usize = walls.len();
    let mut kept: Vec<(u64, WallPos)> = Vec::new();
    let mut index: usize = 0;
    while index < len_before
        invariant
            len_before == walls@.len(),
            index <= len_before,
            kept@ == survivors(walls@.take(index as int), pos),
        decreases len_before - index,
    {
        let entry: (u64, WallPos) = walls[index];
        if !is_player_touching_wall(pos, entry.1) {
            kept.push(entry);
        }
        proof {
            let seen = walls@.take(index as int);
            assert(walls@.take(index + 1) =~= seen.push(entry));
            seen.lemma_filter_push(entry, misses(pos));
        }
        index += 1;
    }
    proof {
        assert(walls@.take(index as int) =~= walls@);
        walls@.lemma_filter_len(misses(pos));
        if kept@.len() == walls@.len() {
            lemma_nothing_removed(walls@, pos);
        }
        if batch_wf(walls@) {
            if kept@.len() > 0 {
                lemma_survivors_succeed(walls@, pos);
            } else {
                lemma_batch_in_dungeon(rng.0, WALL_COUNT as nat);
                lemma_next_generation_succeeds(walls@, batch_from(rng.0, WALL_COUNT as nat));
            }
        }
    }
    let removed: u32 = (len_before - kept.len()) as u32;
    if removed == 0 {
        return (0, false);
    }
    add_score(score, removed);
    if kept.len() > 0 {
        *walls = kept;
        return (removed, false);
    }
    let batch: Vec<WallPos> = rng.next_walls();
    *walls = tag_walls(next_generation, batch);
    (removed, true)
}

} // verus!
