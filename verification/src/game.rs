//! One session of the game: the player, the walls, the score and the
//! generator, and the step that a key press makes.

use vstd::prelude::*;
use crate::config::{DUNGEON_HEIGHT, DUNGEON_WIDTH, PLAYER_HEIGHT, PLAYER_WIDTH, WALL_COUNT};
use crate::geometry::{PlayerPos, WallPos};
use crate::movement::{in_dungeon, position_after_key, update_position};
use crate::random::{batch_from, lcg_iter, lemma_batch_in_dungeon, Random};
use crate::walls::{
    batch_wf, generation_of, ids_fit, lemma_later_ids_are_fresh, lemma_next_generation_succeeds,
    lemma_succeeds_reflexive, lemma_succeeds_transitive, lemma_survivors_succeed, misses,
    removed_count, respawns, seed_after, succeeds, tag_walls, tagged_batch,
    update_walls_and_score, walls_after,
};

verus! {

/// The state of a session.
#[derive(Debug)]
pub struct Game {
    /// Where the player stands.
    pub player: PlayerPos,
    /// The walls that stand, each with its identifier.
    pub walls: Vec<(u64, WallPos)>,
    /// The number of walls removed so far.
    pub score: u32,
    /// The generator that places the walls.
    pub rng: Random,
}

/// A session as a mathematical value. The score is unbounded here.
pub struct GameView {
    pub player: PlayerPos,
    pub walls: Seq<(u64, WallPos)>,
    pub score: nat,
    pub seed: u32,
}

/// Where the player starts: in the middle of the dungeon.
pub open spec fn start_position() -> PlayerPos {
    PlayerPos(
        ((DUNGEON_WIDTH - PLAYER_WIDTH) / 2) as u32,
        ((DUNGEON_HEIGHT - PLAYER_HEIGHT) / 2) as u32,
    )
}

impl GameView {
    /// The session after the key `key` was pressed. A key that does not move
    /// the player changes nothing. One that does also removes the walls at
    /// the new position, counts them, and respawns a cleared batch.
    pub open spec fn after_key(self, key: Seq<char>) -> GameView {
        let pos = position_after_key(self.player, key);
        if pos == self.player {
            self
        } else {
            GameView {
                player: pos,
                walls: walls_after(self.walls, pos, self.seed),
                score: self.score + removed_count(self.walls, pos),
                seed: seed_after(self.walls, pos, self.seed),
            }
        }
    }

    /// The session after the keys `keys` were pressed, one after the other.
    pub open spec fn after_keys(self, keys: Seq<Seq<char>>) -> GameView
        decreases keys.len(),
    {
        if keys.len() == 0 {
            self
        } else {
            self.after_keys(keys.drop_last()).after_key(keys.last())
        }
    }

    /// The step that `key` asks for can be taken. A key that moves the
    /// player nowhere asks for nothing. For any other there must be walls,
    /// the score it leads to must be a `u32`, and every identifier of a
    /// batch that it spawns a `u64`.
    pub open spec fn can_take(self, key: Seq<char>) -> bool {
        let pos = position_after_key(self.player, key);
        pos != self.player ==> {
            &&& self.walls.len() > 0
            &&& self.score + removed_count(self.walls, pos) <= u32::MAX
            &&& respawns(self.walls, pos) ==> ids_fit(generation_of(self.walls) + 1)
        }
    }

    /// There are walls, and whatever the next key asks for can be taken.
    pub open spec fn ready(self) -> bool {
        &&& self.walls.len() > 0
        &&& self.score + self.walls.len() <= u32::MAX
        &&& ids_fit(generation_of(self.walls) + 1)
    }
}

impl View for Game {
    type V = GameView;

    open spec fn view(&self) -> GameView {
        GameView {
            player: self.player,
            walls: self.walls@,
            score: self.score as nat,
            seed: self.rng.0,
        }
    }
}

/// A session that is ready can take every key.
pub proof fn lemma_ready_takes_any_key(game: GameView, key: Seq<char>)
    requires
        game.ready(),
    ensures
        game.can_take(key),
{
    game.walls.lemma_filter_len(misses(position_after_key(game.player, key)));
}

/// One key press leaves walls that succeed those before it, of the same
/// generation or the next.
pub proof fn lemma_key_succeeds(game: GameView, key: Seq<char>)
    requires
        batch_wf(game.walls),
        ids_fit(generation_of(game.walls) + 1),
    ensures
        succeeds(game.walls, game.after_key(key).walls),
        generation_of(game.after_key(key).walls) <= generation_of(game.walls) + 1,
{
    let pos = position_after_key(game.player, key);
    if pos == game.player {
        lemma_succeeds_reflexive(game.walls);
    } else if respawns(game.walls, pos) {
        let batch = batch_from(game.seed, WALL_COUNT as nat);
        lemma_batch_in_dungeon(game.seed, WALL_COUNT as nat);
        lemma_next_generation_succeeds(game.walls, batch);
    } else {
        lemma_survivors_succeed(game.walls, pos);
    }
}

/// Whatever keys are pressed, and however many batches they clear, no
/// identifier comes twice and later ones are larger: a wall that stands
/// after the keys either stood before them, or has an identifier above
/// those of all the walls that stood then. Each key spawns at most one
/// batch, so the generation grows by no more than the number of keys.
pub proof fn lemma_wall_ids_never_repeat(game: GameView, keys: Seq<Seq<char>>)
    requires
        batch_wf(game.walls),
        ids_fit(generation_of(game.walls) + keys.len()),
    ensures
        succeeds(game.walls, game.after_keys(keys).walls),
        generation_of(game.after_keys(keys).walls) <= generation_of(game.walls) + keys.len(),
        forall|i: int, j: int|
            #![trigger game.after_keys(keys).walls[i], game.walls[j]]
            0 <= i < game.after_keys(keys).walls.len() && 0 <= j < game.walls.len()
                ==> game.walls.contains(game.after_keys(keys).walls[i]) || game.walls[j].0
                < game.after_keys(keys).walls[i].0,
    decreases keys.len(),
{
    if keys.len() == 0 {
        lemma_succeeds_reflexive(game.walls);
    } else {
        let earlier = game.after_keys(keys.drop_last());
        lemma_wall_ids_never_repeat(game, keys.drop_last());
        lemma_key_succeeds(earlier, keys.last());
        lemma_succeeds_transitive(game.walls, earlier.walls, earlier.after_key(keys.last()).walls);
    }
    lemma_later_ids_are_fresh(game.walls, game.after_keys(keys).walls);
}

/// A key that moves the player nowhere changes nothing in the session.
pub proof fn lemma_idle_key_changes_nothing(game: GameView, key: Seq<char>)
    requires
        position_after_key(game.player, key) == game.player,
    ensures
        game.after_key(key) == game,
{
}

impl Game {
    /// What holds of a session between two steps: the player is inside the
    /// dungeon and the walls are a well-formed batch.
    pub open spec fn wf(&self) -> bool {
        in_dungeon(self.player) && batch_wf(self.walls@)
    }

    /// A new session: the player in the middle of the dungeon, the first
    /// batch of walls drawn from a generator with seed 0, and no score.
    pub fn new() -> (game: Game)
        ensures
            game@ == (GameView {
                player: start_position(),
                walls: tagged_batch(0, batch_from(0, WALL_COUNT as nat)),
                score: 0,
                seed: lcg_iter(0, 2 * WALL_COUNT as nat),
            }),
            game.wf(),
            game@.ready(),
    {
        let mut rng: Random = Random::default();
        let batch: Vec<WallPos> = rng.next_walls();
        let walls: Vec<(u64, WallPos)> = tag_walls(0, batch);
        assert(walls@[0].0 == 0);
        Game {
            player: PlayerPos(
                (DUNGEON_WIDTH - PLAYER_WIDTH) / 2,
                (DUNGEON_HEIGHT - PLAYER_HEIGHT) / 2,
            ),
            walls,
            score: 0,
            rng,
        }
    }

    /// Says whether the next key press can be handled, whatever the key.
    pub fn is_ready(&self) -> (ready: bool)
        ensures
            ready == self@.ready(),
    {
        if self.walls.len() == 0 {
            return false;
        }
        let generation: u64 = self.walls[0].0 / (WALL_COUNT as u64);
        let last_generation: u64 = (u64::MAX - (WALL_COUNT as u64 - 1)) / (WALL_COUNT as u64);
        self.walls.len() as u64 <= (u32::MAX - self.score) as u64 && generation
            < last_generation
    }

    /// Handles one key press, and says whether the player has moved. A key
    /// that moves the player nowhere leaves the whole session as it was.
    pub fn handle_keypress(&mut self, key: &str) -> (moved: bool)
        requires
            old(self)@.can_take(key@),
        ensures
            final(self)@ == old(self)@.after_key(key@),
            moved == (position_after_key(old(self).player, key@) != old(self).player),
            !moved ==> *final(self) == *old(self),
            moved ==> final(self).walls@.len() > 0,
            final(self).score >= old(self).score,
            old(self).wf() ==> final(self).wf() && succeeds(old(self).walls@, final(self).walls@),
    {
        let next: PlayerPos = update_position(self.player, key);
        if next == self.player {
            proof {
                if self.wf() {
                    lemma_succeeds_reflexive(self.walls@);
                }
            }
            return false;
        }
        self.player = next;
        update_walls_and_score(&mut self.walls, &mut self.score, next, &mut self.rng);
        true
    }
}

} // verus!
