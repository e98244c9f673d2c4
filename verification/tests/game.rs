use forklifts_vs_managers::constants::MOVE_INTERVAL_MICROS;
use forklifts_vs_managers::game::{tick_due, GameState};
use forklifts_vs_managers::schema::{Direction, Forklift, Manager, Position};

fn alive_at(x: i32, y: i32) -> Manager {
    Manager { position: Position { x, y }, direction: Direction::Right, time_of_death: None }
}

fn state_with(managers: Vec<Manager>) -> GameState {
    GameState { forklift: Forklift::default(), managers }
}

#[test]
fn new_seeds_one_living_manager_per_cell() {
    let s = GameState::new();
    assert_eq!(s.managers.len(), 72);
    assert_eq!(s.forklift.position, Position { x: 0, y: 0 });
    for (k, m) in s.managers.iter().enumerate() {
        assert!(m.time_of_death.is_none());
        assert!(matches!(m.direction, Direction::Right));
        assert_eq!(k as i32, m.position.x * 6 + m.position.y);
    }
    assert_eq!(s.managers[0].position, Position { x: 0, y: 0 });
    assert_eq!(s.managers[35].position, Position { x: 5, y: 5 });
    assert_eq!(s.managers[71].position, Position { x: 11, y: 5 });
}

#[test]
fn tick_due_only_strictly_after_the_interval() {
    assert!(!tick_due(0, MOVE_INTERVAL_MICROS));
    assert!(tick_due(0, MOVE_INTERVAL_MICROS + 1));
    assert!(!tick_due(500, 500));
}

#[test]
fn tick_moves_every_live_manager_one_step() {
    let mut s = state_with(vec![alive_at(5, 5), alive_at(11, 0)]);
    let kills = s.tick(1_000, &vec![0, 0]);
    assert_eq!(kills, 0);
    assert_eq!(s.managers.len(), 2);
    // Both axes viable, draw 0 picks y (up, toward the target's row).
    assert_eq!(s.managers[0].position, Position { x: 5, y: 4 });
    // Only the x axis is viable for a manager on the target's row.
    assert_eq!(s.managers[1].position, Position { x: 10, y: 0 });
}

#[test]
fn tick_uses_the_stale_snapshot_for_occupancy() {
    // B vacates (1,0) during the tick, but A still sees it occupied in
    // the tick-start snapshot and stays put.
    let a = alive_at(2, 0);
    let b = alive_at(1, 0);
    let mut s = state_with(vec![a, b]);
    let kills = s.tick(1_000, &vec![50, 50]);
    assert_eq!(s.managers[0].position, Position { x: 2, y: 0 });
    assert_eq!(s.managers[1].position, Position { x: 0, y: 0 });
    // B stepped onto the forklift and died for it.
    assert_eq!(kills, 1);
    assert_eq!(s.managers[1].time_of_death, Some(1_000));
}

#[test]
fn tick_counts_each_new_death_once() {
    // Both managers converge on the forklift's cell in the same tick:
    // the snapshot never contained (0,0), so neither move is rejected.
    let mut s = state_with(vec![alive_at(1, 0), alive_at(0, 1)]);
    let kills = s.tick(7, &vec![50, 0]);
    assert_eq!(kills, 2);
    assert_eq!(s.managers[0].time_of_death, Some(7));
    assert_eq!(s.managers[1].time_of_death, Some(7));
    // A dead manager stays on the board until the despawn threshold.
    let kills = s.tick(1_007, &vec![50, 0]);
    assert_eq!(kills, 0);
    assert_eq!(s.managers.len(), 2);
}

#[test]
fn player_move_is_clamped_and_kills_on_contact() {
    let mut s = state_with(vec![alive_at(1, 0), alive_at(3, 3)]);
    // Blocked move: the forklift is already on the left edge.
    let kills = s.handle_move(Direction::Left, 10);
    assert_eq!(kills, 0);
    assert_eq!(s.forklift.position, Position { x: 0, y: 0 });
    assert!(matches!(s.forklift.direction, Direction::Left));
    // Walking into a manager kills it immediately, outside any tick.
    let kills = s.handle_move(Direction::Right, 20);
    assert_eq!(kills, 1);
    assert_eq!(s.forklift.position, Position { x: 1, y: 0 });
    assert_eq!(s.managers[0].time_of_death, Some(20));
    assert_eq!(s.managers[1].time_of_death, None);
}

#[test]
fn pursuer_converges_is_killed_and_later_despawns() {
    // Grid 12x6, player fixed at (0,0), one pursuer at (5,5). With every
    // draw 0 the pursuer first walks its row down to y = 0, then its
    // column to x = 0: ten ticks to contact.
    let mut s = state_with(vec![alive_at(5, 5)]);
    let tick_gap: u64 = 260_000;
    let mut now: u64 = 0;
    let mut death_time: Option<u64> = None;
    for _ in 0..10 {
        now += tick_gap;
        let kills = s.tick(now, &vec![0]);
        if kills > 0 {
            assert!(death_time.is_none());
            death_time = Some(now);
        }
    }
    // Contact happened exactly on the tenth tick.
    assert_eq!(s.managers.len(), 1);
    assert_eq!(s.managers[0].position, Position { x: 0, y: 0 });
    let died = death_time.expect("the pursuer must reach the player");
    assert_eq!(died, 10 * tick_gap);
    assert_eq!(s.managers[0].time_of_death, Some(died));
    // One tick interval later the corpse is still on the board.
    now += tick_gap;
    let kills = s.tick(now, &vec![0]);
    assert_eq!(kills, 0);
    assert_eq!(s.managers.len(), 1);
    assert_eq!(s.managers[0].position, Position { x: 0, y: 0 });
    // Once the despawn threshold has elapsed past the death, it is gone.
    now = died + 3_000_100;
    let draws: Vec<u32> = vec![0];
    let kills = s.tick(now, &draws);
    assert_eq!(kills, 0);
    assert_eq!(s.managers.len(), 0);
}
