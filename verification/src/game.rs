//! The simulation state and its tick state machine: the snapshot-based
//! pursuit sweep, the kill sweep, the despawn filter, the initial dense
//! manager population, and the handling of a single accepted player move.

use vstd::prelude::*;

use crate::constants::{MANAGER_DESPAWN_MICROS, MOVE_INTERVAL_MICROS, X_CELL_COUNT, Y_CELL_COUNT};
use crate::schema::{
    hunt_direction_spec, hunt_spec, in_grid, kill_spec, step_spec, Direction, Forklift, Manager,
    Movement, Position,
};

verus! {

/// Every manager in the sequence stands on the grid.
pub open spec fn all_in_grid(managers: Seq<Manager>) -> bool {
    forall|i: int| 0 <= i < managers.len() ==> in_grid((#[trigger] managers[i]).position)
}

/// Every recorded time of death lies at or before `now`. The clock is
/// monotonic, so this holds of any state read at time `now`.
pub open spec fn all_death_times_le(managers: Seq<Manager>, now: u64) -> bool {
    forall|i: int|
        0 <= i < managers.len() ==> match (#[trigger] managers[i]).time_of_death {
            Some(t) => t <= now,
            None => true,
        }
}

/// Whether a manager has been dead for longer than the despawn threshold
/// at time `now`. A living manager never despawns.
pub open spec fn despawned(m: Manager, now: u64) -> bool {
    match m.time_of_death {
        Some(t) => now - t > MANAGER_DESPAWN_MICROS,
        None => false,
    }
}

/// The managers the despawn filter retains at time `now`, in their
/// original order.
pub open spec fn retained(managers: Seq<Manager>, now: u64) -> Seq<Manager> {
    managers.filter(|m: Manager| !despawned(m, now))
}

/// Removes every manager that has been dead for longer than the despawn
/// threshold; the order of the retained managers is preserved.
pub fn despawn_filter(managers: &Vec<Manager>, now: u64) -> (kept: Vec<Manager>)
    requires
        all_death_times_le(managers@, now),
    ensures
        kept@ == retained(managers@, now),
        all_in_grid(managers@) ==> all_in_grid(kept@),
        all_death_times_le(kept@, now),
{
    let mut kept: Vec<Manager> = Vec::new();
    let mut i: usize = 0;
    while i < managers.len()
        invariant
            i <= managers@.len(),
            all_death_times_le(managers@, now),
            kept@ == retained(managers@.take(i as int), now),
            all_in_grid(managers@) ==> all_in_grid(kept@),
            all_death_times_le(kept@, now),
        decreases managers@.len() - i,
    {
        let m = managers[i];
        let keep = match m.time_of_death {
            Some(t) => now - t <= MANAGER_DESPAWN_MICROS,
            None => true,
        };
        if keep {
            kept.push(m);
        }
        proof {
            reveal(Seq::filter);
            assert(managers@.take(i as int + 1).drop_last() =~= managers@.take(i as int));
        }
        i += 1;
    }
    proof {
        assert(managers@.take(managers@.len() as int) =~= managers@);
    }
    kept
}

/// The number of managers among the first `n` that are alive and stand
/// on `player_position`: exactly those a kill sweep fires for, and so the
/// number of kill notifications the sweep owes the feedback sink.
pub open spec fn kill_count_upto(managers: Seq<Manager>, player_position: Position, n: int) -> int
    decreases n,
{
    if n <= 0 {
        0
    } else {
        kill_count_upto(managers, player_position, n - 1) + (
        if managers[n - 1].time_of_death is None && managers[n - 1].position == player_position {
            1int
        } else {
            0int
        })
    }
}

/// A manager after its pursuit move this tick: the position `hunt`
/// resolves to, the facing it records, and an unchanged death state.
pub open spec fn hunted_manager(
    m: Manager,
    target: Position,
    snapshot: Seq<Manager>,
    random_value: u32,
) -> Manager {
    Manager {
        position: hunt_spec(m, target, snapshot, random_value),
        direction: hunt_direction_spec(m, target, random_value),
        time_of_death: m.time_of_death,
    }
}

/// Phase one of a tick: every manager's pursuit move, each computed
/// against the same snapshot of tick-start positions and consuming its
/// own uniform draw.
pub open spec fn hunted_all(
    managers: Seq<Manager>,
    target: Position,
    snapshot: Seq<Manager>,
    draws: Seq<u32>,
) -> Seq<Manager> {
    managers.map(|k: int, m: Manager| hunted_manager(m, target, snapshot, draws[k]))
}

/// A kill sweep: the kill transition applied to every manager.
pub open spec fn kill_all(managers: Seq<Manager>, player_position: Position, now: u64) -> Seq<
    Manager,
> {
    managers.map(|k: int, m: Manager| kill_spec(m, player_position, now))
}

/// One full simulation tick over the managers: pursuit moves against the
/// tick-start snapshot, then kill checks, then the despawn filter.
pub open spec fn tick_spec(managers: Seq<Manager>, target: Position, now: u64, draws: Seq<u32>) -> Seq<
    Manager,
> {
    retained(kill_all(hunted_all(managers, target, managers, draws), target, now), now)
}

/// A recorded time of death is never unset and never changed: the full
/// per-manager tick transition (pursuit move, then kill check) leaves an
/// already-dead manager's timestamp exactly as it was.
pub proof fn lemma_death_is_never_unset(
    m: Manager,
    target: Position,
    snapshot: Seq<Manager>,
    random_value: u32,
    now: u64,
)
    requires
        m.time_of_death is Some,
    ensures
        kill_spec(hunted_manager(m, target, snapshot, random_value), target, now).time_of_death
            == m.time_of_death,
{
}

/// A by-value copy of the managers: the snapshot of tick-start positions
/// that the pursuit sweep checks occupancy against.
fn copy_managers(managers: &Vec<Manager>) -> (snapshot: Vec<Manager>)
    ensures
        snapshot@ == managers@,
{
    let mut snapshot: Vec<Manager> = Vec::new();
    let mut i: usize = 0;
    while i < managers.len()
        invariant
            i <= managers@.len(),
            snapshot@ == managers@.take(i as int),
        decreases managers@.len() - i,
    {
        snapshot.push(managers[i]);
        proof {
            assert(managers@.take(i as int + 1) =~= managers@.take(i as int).push(
                managers@[i as int],
            ));
        }
        i += 1;
    }
    proof {
        assert(managers@.take(managers@.len() as int) =~= managers@);
    }
    snapshot
}

/// Whether a simulation tick is due: the elapsed time since the last
/// tick strictly exceeds the movement interval.
pub fn tick_due(last_tick: u64, now: u64) -> (due: bool)
    requires
        last_tick <= now,
    ensures
        due == (now - last_tick > MOVE_INTERVAL_MICROS),
{
    now - last_tick > MOVE_INTERVAL_MICROS
}

/// The whole simulation: the player entity and the ordered collection of
/// pursuer entities. Order is insertion order; it is preserved by the
/// despawn filter.
pub struct GameState {
    pub forklift: Forklift,
    pub managers: Vec<Manager>,
}

impl GameState {
    /// Well-formedness: every entity stands on the grid. Construction
    /// establishes this and every transition preserves it.
    pub open spec fn wf(&self) -> bool {
        &&& in_grid(self.forklift.position)
        &&& all_in_grid(self.managers@)
    }

    /// Every recorded death happened at or before `now`.
    pub open spec fn deaths_before(&self, now: u64) -> bool {
        all_death_times_le(self.managers@, now)
    }

    /// The initial state: the forklift at the origin facing right, and
    /// the intentional dense seed population of one living manager per
    /// grid cell, pushed column by column, so the manager whose position
    /// is `(x, y)` stands at index `x * Y_CELL_COUNT + y`.
    pub fn new() -> (s: GameState)
        ensures
            s.forklift == (Forklift {
                position: Position { x: 0, y: 0 },
                direction: Direction::Right,
            }),
            s.managers@.len() == X_CELL_COUNT * Y_CELL_COUNT,
            forall|k: int|
                0 <= k < s.managers@.len() ==> {
                    let m = #[trigger] s.managers@[k];
                    &&& m.direction == Direction::Right
                    &&& m.time_of_death is None
                    &&& in_grid(m.position)
                    &&& k == m.position.x * Y_CELL_COUNT + m.position.y
                },
            s.wf(),
            forall|now: u64| #[trigger] s.deaths_before(now),
    {
        let mut managers: Vec<Manager> = Vec::new();
        let mut i: i32 = 0;
        while i < X_CELL_COUNT
            invariant
                0 <= i <= X_CELL_COUNT,
                managers@.len() == i * Y_CELL_COUNT,
                forall|k: int|
                    0 <= k < managers@.len() ==> {
                        let m = #[trigger] managers@[k];
                        &&& m.direction == Direction::Right
                        &&& m.time_of_death is None
                        &&& in_grid(m.position)
                        &&& k == m.position.x * Y_CELL_COUNT + m.position.y
                    },
            decreases X_CELL_COUNT - i,
        {
            let mut j: i32 = 0;
            while j < Y_CELL_COUNT
                invariant
                    0 <= i < X_CELL_COUNT,
                    0 <= j <= Y_CELL_COUNT,
                    managers@.len() == i * Y_CELL_COUNT + j,
                    forall|k: int|
                        0 <= k < managers@.len() ==> {
                            let m = #[trigger] managers@[k];
                            &&& m.direction == Direction::Right
                            &&& m.time_of_death is None
                            &&& in_grid(m.position)
                            &&& k == m.position.x * Y_CELL_COUNT + m.position.y
                        },
                decreases Y_CELL_COUNT - j,
            {
                let position = Position { x: i, y: j };
                managers.push(
                    Manager { position, direction: Direction::Right, time_of_death: None },
                );
                j += 1;
            }
            i += 1;
        }
        GameState { forklift: Forklift::default(), managers }
    }

    /// One simulation tick at time `now`: snapshot the manager positions,
    /// replace every manager's position with its pursuit move against
    /// that snapshot (each consuming its own uniform draw from `draws`),
    /// run the kill check on every manager, and despawn the long-dead.
    /// Returns how many managers died this tick, so the caller can raise
    /// the kill feedback once per death.
    pub fn tick(&mut self, now: u64, draws: &Vec<u32>) -> (kills: usize)
        requires
            old(self).wf(),
            old(self).deaths_before(now),
            draws@.len() == old(self).managers@.len(),
        ensures
            final(self).forklift == old(self).forklift,
            final(self).managers@ == tick_spec(
                old(self).managers@,
                old(self).forklift.position,
                now,
                draws@,
            ),
            kills == kill_count_upto(
                hunted_all(
                    old(self).managers@,
                    old(self).forklift.position,
                    old(self).managers@,
                    draws@,
                ),
                old(self).forklift.position,
                old(self).managers@.len() as int,
            ),
            final(self).wf(),
            final(self).deaths_before(now),
    {
        let ghost orig: Seq<Manager> = self.managers@;
        let ghost orig_forklift: Forklift = self.forklift;
        let target = self.forklift.position;
        let snapshot = copy_managers(&self.managers);
        let n: usize = self.managers.len();
        let mut kills: usize = 0;
        let mut i: usize = 0;
        while i < n
            invariant
                i <= n,
                n == orig.len(),
                self.managers@.len() == n,
                snapshot@ == orig,
                draws@.len() == orig.len(),
                self.forklift == orig_forklift,
                target == orig_forklift.position,
                all_in_grid(orig),
                all_death_times_le(orig, now),
                forall|k: int| i <= k < n ==> #[trigger] self.managers@[k] == orig[k],
                forall|k: int|
                    0 <= k < i ==> #[trigger] self.managers@[k] == kill_spec(
                        hunted_manager(orig[k], target, orig, draws@[k]),
                        target,
                        now,
                    ),
                kills == kill_count_upto(
                    hunted_all(orig, target, orig, draws@),
                    target,
                    i as int,
                ),
                kills <= i,
                all_in_grid(self.managers@),
                all_death_times_le(self.managers@, now),
            decreases n - i,
        {
            let mut m = self.managers[i];
            let new_position = m.hunt(target, &snapshot, draws[i]);
            m.position = new_position;
            let killed = m.check_kill(target, now);
            self.managers.set(i, m);
            if killed {
                kills += 1;
            }
            proof {
                assert(hunted_all(orig, target, orig, draws@)[i as int] == hunted_manager(
                    orig[i as int],
                    target,
                    orig,
                    draws@[i as int],
                ));
            }
            i += 1;
        }
        proof {
            assert(self.managers@ =~= kill_all(
                hunted_all(orig, target, orig, draws@),
                target,
                now,
            ));
        }
        let kept = despawn_filter(&self.managers, now);
        self.managers = kept;
        kills
    }

    /// One accepted input event at time `now`: step the forklift along
    /// `direction` (clamped, facing always recorded), then run the kill
    /// check against every manager, so a player walking into a manager
    /// kills it exactly as a manager walking into the player would.
    /// Returns how many managers died from this move.
    pub fn handle_move(&mut self, direction: Direction, now: u64) -> (kills: usize)
        requires
            old(self).wf(),
        ensures
            final(self).forklift.position == step_spec(old(self).forklift.position, direction),
            final(self).forklift.direction == direction,
            final(self).managers@ == kill_all(
                old(self).managers@,
                step_spec(old(self).forklift.position, direction),
                now,
            ),
            kills == kill_count_upto(
                old(self).managers@,
                step_spec(old(self).forklift.position, direction),
                old(self).managers@.len() as int,
            ),
            final(self).wf(),
            old(self).deaths_before(now) ==> final(self).deaths_before(now),
    {
        let ghost orig: Seq<Manager> = self.managers@;
        let new_position = self.forklift.step(direction);
        self.forklift.position = new_position;
        let n: usize = self.managers.len();
        let mut kills: usize = 0;
        let mut i: usize = 0;
        while i < n
            invariant
                i <= n,
                n == orig.len(),
                self.managers@.len() == n,
                self.forklift.position == new_position,
                self.forklift.direction == direction,
                forall|k: int| i <= k < n ==> #[trigger] self.managers@[k] == orig[k],
                forall|k: int|
                    0 <= k < i ==> #[trigger] self.managers@[k] == kill_spec(
                        orig[k],
                        new_position,
                        now,
                    ),
                kills == kill_count_upto(orig, new_position, i as int),
                kills <= i,
                all_in_grid(orig) ==> all_in_grid(self.managers@),
                all_death_times_le(orig, now) ==> all_death_times_le(self.managers@, now),
            decreases n - i,
        {
            let mut m = self.managers[i];
            let killed = m.check_kill(new_position, now);
            self.managers.set(i, m);
            if killed {
                kills += 1;
            }
            i += 1;
        }
        proof {
            assert(self.managers@ =~= kill_all(orig, new_position, now));
        }
        kills
    }
}

} // verus!
