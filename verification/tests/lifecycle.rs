use forklifts_vs_managers::game::despawn_filter;
use forklifts_vs_managers::schema::{Direction, Manager, Position};

fn alive_at(x: i32, y: i32) -> Manager {
    Manager { position: Position { x, y }, direction: Direction::Right, time_of_death: None }
}

#[test]
fn contact_kills_a_live_manager() {
    let mut m = alive_at(2, 3);
    let killed = m.check_kill(Position { x: 2, y: 3 }, 42);
    assert!(killed);
    assert_eq!(m.time_of_death, Some(42));
    assert_eq!(m.position, Position { x: 2, y: 3 });
}

#[test]
fn no_contact_means_no_kill() {
    let mut m = alive_at(2, 3);
    let killed = m.check_kill(Position { x: 2, y: 4 }, 42);
    assert!(!killed);
    assert_eq!(m.time_of_death, None);
}

#[test]
fn kill_is_one_shot() {
    let mut m = alive_at(2, 3);
    assert!(m.check_kill(Position { x: 2, y: 3 }, 42));
    // Positions still coincide, but the timestamp never changes again.
    assert!(!m.check_kill(Position { x: 2, y: 3 }, 99));
    assert_eq!(m.time_of_death, Some(42));
}

#[test]
fn despawn_removes_only_the_long_dead() {
    let now: u64 = 10_000_000;
    // Dead for 3.0001 time units (microseconds of a 3-unit threshold):
    // past the threshold, removed.
    let mut over = alive_at(1, 1);
    over.time_of_death = Some(now - 3_000_100);
    // Dead for 2.9999 time units: not yet past the threshold, retained.
    let mut under = alive_at(2, 2);
    under.time_of_death = Some(now - 2_999_900);
    let kept = despawn_filter(&vec![over, under], now);
    assert_eq!(kept.len(), 1);
    assert_eq!(kept[0].position, Position { x: 2, y: 2 });
}

#[test]
fn despawn_at_exactly_the_threshold_retains() {
    let now: u64 = 10_000_000;
    let mut m = alive_at(1, 1);
    m.time_of_death = Some(now - 3_000_000);
    let kept = despawn_filter(&vec![m], now);
    assert_eq!(kept.len(), 1);
}

#[test]
fn despawn_keeps_the_living_and_preserves_order() {
    let now: u64 = 10_000_000;
    let a = alive_at(0, 0);
    let mut gone = alive_at(1, 0);
    gone.time_of_death = Some(now - 4_000_000);
    let mut fresh = alive_at(2, 0);
    fresh.time_of_death = Some(now - 1);
    let b = alive_at(3, 0);
    let kept = despawn_filter(&vec![a, gone, fresh, b], now);
    assert_eq!(kept.len(), 3);
    assert_eq!(kept[0].position, Position { x: 0, y: 0 });
    assert_eq!(kept[1].position, Position { x: 2, y: 0 });
    assert_eq!(kept[2].position, Position { x: 3, y: 0 });
}
