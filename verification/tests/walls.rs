use dungeon::{add_score, tag_walls, update_walls_and_score, PlayerPos, Random, WallPos};

const SECOND_BATCH: [(u32, u32); 20] = [
    (17, 14), (21, 22), (19, 16), (47, 26), (45, 26), (33, 0), (7, 12), (15, 28), (51, 10), (29, 14),
    (17, 2), (21, 14), (23, 6), (55, 4), (45, 10), (55, 24), (43, 28), (17, 14), (47, 8), (35, 22),
];

const STATE_AFTER_FIRST_BATCH: u32 = 1387182456;
const STATE_AFTER_SECOND_BATCH: u32 = 2490222064;

#[test]
fn tag_walls_numbers_generation_zero() {
    let walls = tag_walls(0, vec![WallPos(1, 2), WallPos(3, 4), WallPos(5, 6)]);
    assert_eq!(
        walls,
        vec![(0, WallPos(1, 2)), (1, WallPos(3, 4)), (2, WallPos(5, 6))]
    );
}

#[test]
fn tag_walls_numbers_later_generation() {
    let walls = tag_walls(3, vec![WallPos(1, 2), WallPos(3, 4)]);
    assert_eq!(walls, vec![(60, WallPos(1, 2)), (61, WallPos(3, 4))]);
}

#[test]
fn tag_walls_of_empty_batch() {
    assert_eq!(tag_walls(u64::MAX, Vec::new()), Vec::new());
}

#[test]
fn tag_walls_up_to_largest_identifier() {
    let generation = (u64::MAX - 19) / 20;
    let batch: Vec<WallPos> = (0..20).map(|i| WallPos(i, i)).collect();
    let walls = tag_walls(generation, batch);
    assert_eq!(walls.len(), 20);
    assert_eq!(walls[0].0, generation * 20);
    assert_eq!(walls[19].0, generation * 20 + 19);
}

#[test]
fn no_collision_changes_nothing() {
    let before = vec![(0, WallPos(10, 10)), (1, WallPos(20, 20)), (2, WallPos(30, 30))];
    let mut walls = before.clone();
    let mut score = 5;
    let mut rng = Random(77);
    let outcome = update_walls_and_score(&mut walls, &mut score, PlayerPos(0, 0), &mut rng);
    assert_eq!(outcome, (0, false));
    assert_eq!(walls, before);
    assert_eq!(score, 5);
    assert_eq!(rng.0, 77);
}

#[test]
fn touching_edge_removes_nothing() {
    let before = vec![(0, WallPos(10, 10))];
    let mut walls = before.clone();
    let mut score = 0;
    let mut rng = Random(0);
    let outcome = update_walls_and_score(&mut walls, &mut score, PlayerPos(8, 10), &mut rng);
    assert_eq!(outcome, (0, false));
    assert_eq!(walls, before);
    assert_eq!(score, 0);
    assert_eq!(rng.0, 0);
}

#[test]
fn collision_removes_the_wall_and_scores() {
    let mut walls = vec![(0, WallPos(10, 10)), (1, WallPos(20, 20)), (2, WallPos(30, 30))];
    let mut score = 5;
    let mut rng = Random(77);
    let outcome = update_walls_and_score(&mut walls, &mut score, PlayerPos(21, 19), &mut rng);
    assert_eq!(outcome, (1, false));
    assert_eq!(walls, vec![(0, WallPos(10, 10)), (2, WallPos(30, 30))]);
    assert_eq!(score, 6);
    assert_eq!(rng.0, 77);
}

#[test]
fn several_walls_fall_in_one_pass() {
    let mut walls = vec![
        (3, WallPos(5, 5)),
        (4, WallPos(20, 20)),
        (7, WallPos(21, 21)),
        (9, WallPos(40, 5)),
        (12, WallPos(19, 20)),
        (15, WallPos(23, 20)),
    ];
    let mut score = 0;
    let mut rng = Random(1);
    let outcome = update_walls_and_score(&mut walls, &mut score, PlayerPos(20, 20), &mut rng);
    assert_eq!(outcome, (3, false));
    assert_eq!(
        walls,
        vec![(3, WallPos(5, 5)), (9, WallPos(40, 5)), (15, WallPos(23, 20))]
    );
    assert_eq!(score, 3);
    assert_eq!(rng.0, 1);
}

#[test]
fn last_survivor_respawns_generation_one() {
    let mut walls = vec![(17, WallPos(27, 18))];
    let mut score = 19;
    let mut rng = Random(STATE_AFTER_FIRST_BATCH);
    let outcome = update_walls_and_score(&mut walls, &mut score, PlayerPos(28, 19), &mut rng);
    assert_eq!(outcome, (1, true));
    assert_eq!(score, 20);
    assert_eq!(walls.len(), 20);
    for (index, entry) in walls.iter().enumerate() {
        assert_eq!(entry.0, 20 + index as u64);
        assert_eq!((entry.1 .0, entry.1 .1), SECOND_BATCH[index]);
    }
    assert_eq!(rng.0, STATE_AFTER_SECOND_BATCH);
}

#[test]
fn respawn_takes_generation_from_first_wall() {
    let mut walls = vec![(45, WallPos(10, 10)), (46, WallPos(11, 11))];
    let mut score = 0;
    let mut rng = Random(0);
    let outcome = update_walls_and_score(&mut walls, &mut score, PlayerPos(10, 10), &mut rng);
    assert_eq!(outcome, (2, true));
    assert_eq!(score, 2);
    let ids: Vec<u64> = walls.iter().map(|entry| entry.0).collect();
    assert_eq!(ids, (60..80).collect::<Vec<u64>>());
    assert_eq!(walls[0].1, WallPos(49, 32));
    assert_eq!(walls[19].1, WallPos(43, 18));
    assert_eq!(rng.0, STATE_AFTER_FIRST_BATCH);
}

#[test]
fn respawn_draws_exactly_one_batch() {
    let mut walls = vec![(0, WallPos(10, 10))];
    let mut score = 0;
    let mut rng = Random(555);
    let mut reference = Random(555);
    let expected = reference.next_walls();
    update_walls_and_score(&mut walls, &mut score, PlayerPos(10, 10), &mut rng);
    let drawn: Vec<WallPos> = walls.iter().map(|entry| entry.1).collect();
    assert_eq!(drawn, expected);
    assert_eq!(rng.0, reference.0);
}

#[test]
fn new_walls_under_the_player_stay_until_the_next_move() {
    // The second batch holds a wall at (29, 14); a player standing there
    // when the batch appears does not clear it in the same pass.
    let mut walls = vec![(0, WallPos(29, 14))];
    let mut score = 0;
    let mut rng = Random(STATE_AFTER_FIRST_BATCH);
    let outcome = update_walls_and_score(&mut walls, &mut score, PlayerPos(29, 14), &mut rng);
    assert_eq!(outcome, (1, true));
    assert_eq!(walls.len(), 20);
    assert_eq!(walls[9], (29, WallPos(29, 14)));
    assert_eq!(score, 1);
}

#[test]
fn score_can_reach_its_maximum() {
    let mut walls = vec![(0, WallPos(10, 10)), (1, WallPos(30, 30))];
    let mut score = u32::MAX - 1;
    let mut rng = Random(0);
    let outcome = update_walls_and_score(&mut walls, &mut score, PlayerPos(10, 10), &mut rng);
    assert_eq!(outcome, (1, false));
    assert_eq!(score, u32::MAX);
}

#[test]
fn add_score_accumulates() {
    let mut score = 0;
    add_score(&mut score, 3);
    assert_eq!(score, 3);
    add_score(&mut score, 0);
    assert_eq!(score, 3);
    add_score(&mut score, u32::MAX - 3);
    assert_eq!(score, u32::MAX);
}

#[test]
fn fifty_generations_are_cleared_in_turn() {
    let mut walls = tag_walls(0, Random(0).next_walls());
    let mut score = 0;
    let mut rng = Random(4242);
    for round in 0..50u64 {
        let targets: Vec<WallPos> = walls.iter().map(|entry| entry.1).collect();
        for target in targets {
            if walls.iter().any(|entry| entry.1 == target && entry.0 / 20 == round) {
                update_walls_and_score(&mut walls, &mut score, PlayerPos(target.0, target.1), &mut rng);
            }
        }
        assert_eq!(walls.len(), 20);
        assert_eq!(walls[0].0, (round + 1) * 20);
        assert_eq!(score as u64, (round + 1) * 20);
        for entry in &walls {
            assert!(entry.1 .0 + 2 < 60 && entry.1 .1 + 2 < 40);
        }
    }
}
