//! The entities of the simulation and their movement rules: grid
//! positions, facing directions, the shared clamped step primitive, the
//! managers that pursue the forklift, and the kill transition.

use vstd::prelude::*;

use crate::constants::{X_CELL_COUNT, Y_CELL_COUNT};

verus! {

/// A cell of the grid, addressed by its column `x` and row `y`.
#[derive(PartialEq, Eq, Structural, PartialOrd, Ord, Clone, Copy, Debug)]
pub struct Position {
    pub x: i32,
    pub y: i32,
}

/// The last direction an entity moved in; the renderer also reads it as
/// the entity's facing.
#[derive(PartialEq, Eq, Structural, Clone, Copy, Debug)]
pub enum Direction {
    Up,
    Down,
    Left,
    Right,
}

impl Default for Position {
    /// The grid origin, the top-left cell.
    fn default() -> (p: Position)
        ensures
            p == (Position { x: 0, y: 0 }),
    {
        Position { x: 0, y: 0 }
    }
}

impl Default for Direction {
    /// Entities start out facing right.
    fn default() -> (d: Direction)
        ensures
            d == Direction::Right,
    {
        Direction::Right
    }
}

/// Whether a position lies on the grid. Every entity position satisfies
/// this at all times: movement clamps at the edges and never wraps.
pub open spec fn in_grid(p: Position) -> bool {
    &&& 0 <= p.x < X_CELL_COUNT
    &&& 0 <= p.y < Y_CELL_COUNT
}

/// The position one cell away from `p` along `direction`, clamped to the
/// grid: stepping against a boundary leaves the position unchanged.
pub open spec fn step_spec(p: Position, direction: Direction) -> Position {
    match direction {
        Direction::Up => if p.y > 0 {
            Position { x: p.x, y: (p.y - 1) as i32 }
        } else {
            p
        },
        Direction::Down => if p.y < Y_CELL_COUNT - 1 {
            Position { x: p.x, y: (p.y + 1) as i32 }
        } else {
            p
        },
        Direction::Left => if p.x > 0 {
            Position { x: (p.x - 1) as i32, y: p.y }
        } else {
            p
        },
        Direction::Right => if p.x < X_CELL_COUNT - 1 {
            Position { x: (p.x + 1) as i32, y: p.y }
        } else {
            p
        },
    }
}

/// The shared movement capability of the player entity and the pursuer
/// entities: both report a position and record a facing, and both move
/// through the same clamped `step` primitive, so the bounds semantics are
/// identical for the two entity kinds.
pub trait Movement: Sized {
    /// The entity's current position, for contracts.
    spec fn spec_position(&self) -> Position;

    /// The same entity with only its facing replaced, for contracts.
    spec fn with_direction(&self, direction: Direction) -> Self;

    fn get_position(&self) -> (p: Position)
        ensures
            p == self.spec_position(),
    ;

    /// Records `direction` as the entity's facing, leaving everything
    /// else about the entity unchanged.
    fn set_direction(&mut self, direction: Direction)
        ensures
            *final(self) == old(self).with_direction(direction),
    ;

    /// Computes the entity's position one clamped step along `direction`
    /// and records `direction` as the new facing, whether or not the
    /// position actually changed (facing updates even when the move is
    /// blocked by a wall). The entity's own position is not updated; the
    /// caller decides what to do with the returned candidate.
    fn step(&mut self, direction: Direction) -> (p: Position)
        requires
            in_grid(old(self).spec_position()),
        ensures
            p == step_spec(old(self).spec_position(), direction),
            in_grid(p),
            *final(self) == old(self).with_direction(direction),
    {
        let mut new_position = self.get_position();
        match direction {
            Direction::Up => {
                if self.get_position().y > 0 {
                    new_position.y -= 1;
                }
            },
            Direction::Down => {
                if self.get_position().y < Y_CELL_COUNT - 1 {
                    new_position.y += 1;
                }
            },
            Direction::Left => {
                if self.get_position().x > 0 {
                    new_position.x -= 1;
                }
            },
            Direction::Right => {
                if self.get_position().x < X_CELL_COUNT - 1 {
                    new_position.x += 1;
                }
            },
        }
        self.set_direction(direction);
        new_position
    }
}

/// The player-controlled entity. It has no death state and is never
/// removed from the board.
#[derive(Clone, Copy, Debug)]
pub struct Forklift {
    pub position: Position,
    pub direction: Direction,
}

impl Default for Forklift {
    /// The forklift starts at the grid origin, facing right.
    fn default() -> (f: Forklift)
        ensures
            f.position == (Position { x: 0, y: 0 }),
            f.direction == Direction::Right,
    {
        Forklift { position: Position { x: 0, y: 0 }, direction: Direction::Right }
    }
}

impl Movement for Forklift {
    open spec fn spec_position(&self) -> Position {
        self.position
    }

    open spec fn with_direction(&self, direction: Direction) -> Forklift {
        Forklift { position: self.position, direction }
    }

    fn get_position(&self) -> Position {
        self.position
    }

    fn set_direction(&mut self, direction: Direction) {
        self.direction = direction;
    }
}

/// A pursuer entity. Alive while `time_of_death` is unset; once set, the
/// timestamp is never changed and the manager no longer moves.
#[derive(Clone, Copy, Debug)]
pub struct Manager {
    pub position: Position,
    pub direction: Direction,
    pub time_of_death: Option<u64>,
}

impl Movement for Manager {
    open spec fn spec_position(&self) -> Position {
        self.position
    }

    open spec fn with_direction(&self, direction: Direction) -> Manager {
        Manager { position: self.position, direction, time_of_death: self.time_of_death }
    }

    fn get_position(&self) -> Position {
        self.position
    }

    fn set_direction(&mut self, direction: Direction) {
        self.direction = direction;
    }
}

/// The direction that would move `pos` one cell closer to `target` along
/// the x axis, or `None` if the two already share a column.
pub open spec fn x_candidate(pos: Position, target: Position) -> Option<Direction> {
    if pos.x < target.x {
        Some(Direction::Right)
    } else if pos.x > target.x {
        Some(Direction::Left)
    } else {
        None
    }
}

/// The direction that would move `pos` one cell closer to `target` along
/// the y axis, or `None` if the two already share a row.
pub open spec fn y_candidate(pos: Position, target: Position) -> Option<Direction> {
    if pos.y < target.y {
        Some(Direction::Down)
    } else if pos.y > target.y {
        Some(Direction::Up)
    } else {
        None
    }
}

/// The tie-break policy: a uniform draw from `[0, 100)` below 50 (one
/// half of the range) picks the y candidate when both axes are viable.
pub open spec fn prefers_y(random_value: u32) -> bool {
    random_value % 100 < 50
}

/// The direction a live manager at `pos` chooses to chase `target`, given
/// the uniform draw `random_value`: the single viable axis candidate, the
/// tie-break between the two when both are viable, and `None` when the
/// manager is already co-located with the target.
pub open spec fn chosen_direction(pos: Position, target: Position, random_value: u32) -> Option<
    Direction,
> {
    match (x_candidate(pos, target), y_candidate(pos, target)) {
        (Some(x), Some(y)) => Some(if prefers_y(random_value) { y } else { x }),
        (Some(x), None) => Some(x),
        (None, Some(y)) => Some(y),
        (None, None) => None,
    }
}

/// Whether some manager in the snapshot occupies `p`.
pub open spec fn occupied(snapshot: Seq<Manager>, p: Position) -> bool {
    exists|i: int| 0 <= i < snapshot.len() && snapshot[i].position == p
}

/// The position a manager's pursuit move resolves to: its own position if
/// it is dead, co-located with the target, or its candidate step lands on
/// a cell occupied in the snapshot; the candidate step otherwise.
pub open spec fn hunt_spec(
    m: Manager,
    target: Position,
    snapshot: Seq<Manager>,
    random_value: u32,
) -> Position {
    if m.time_of_death is Some {
        m.position
    } else {
        match chosen_direction(m.position, target, random_value) {
            Some(d) => {
                let candidate = step_spec(m.position, d);
                if occupied(snapshot, candidate) {
                    m.position
                } else {
                    candidate
                }
            },
            None => m.position,
        }
    }
}

/// The facing a manager records during its pursuit move: the chosen
/// direction whenever one exists (even if the move itself is rejected),
/// and the old facing when the manager is dead or already at the target.
pub open spec fn hunt_direction_spec(m: Manager, target: Position, random_value: u32) -> Direction {
    if m.time_of_death is Some {
        m.direction
    } else {
        match chosen_direction(m.position, target, random_value) {
            Some(d) => d,
            None => m.direction,
        }
    }
}

/// Whether `managers` holds an entry whose position equals `p`.
fn contains_position(managers: &Vec<Manager>, p: Position) -> (r: bool)
    ensures
        r == occupied(managers@, p),
{
    let mut i: usize = 0;
    while i < managers.len()
        invariant
            i <= managers@.len(),
            forall|j: int| 0 <= j < i ==> managers@[j].position != p,
        decreases managers@.len() - i,
    {
        if managers[i].position == p {
            assert(occupied(managers@, p)) by {
                assert(managers@[i as int].position == p);
            }
            return true;
        }
        i += 1;
    }
    false
}

impl Manager {
    /// Computes this manager's pursuit move toward `target`: one greedy
    /// clamped step along a viable axis, with `random_value` breaking the
    /// tie when both axes are viable, rejected if the candidate cell was
    /// occupied in `old_managers`, the snapshot of all manager positions
    /// taken before any manager moved this tick. Dead managers never
    /// move. The chosen facing is recorded even for a rejected move; the
    /// manager's own position is left for the caller to update.
    pub fn hunt(
        &mut self,
        target: Position,
        old_managers: &Vec<Manager>,
        random_value: u32,
    ) -> (p: Position)
        requires
            in_grid(old(self).position),
        ensures
            p == hunt_spec(*old(self), target, old_managers@, random_value),
            in_grid(p),
            final(self).position == old(self).position,
            final(self).time_of_death == old(self).time_of_death,
            final(self).direction == hunt_direction_spec(*old(self), target, random_value),
    {
        // Dead managers stay at their position.
        if self.time_of_death.is_some() {
            return self.position;
        }
        let x_direction: Option<Direction> = if self.position.x < target.x {
            Some(Direction::Right)
        } else if self.position.x > target.x {
            Some(Direction::Left)
        } else {
            None
        };
        let y_direction: Option<Direction> = if self.position.y < target.y {
            Some(Direction::Down)
        } else if self.position.y > target.y {
            Some(Direction::Up)
        } else {
            None
        };
        let direction = match (x_direction, y_direction) {
            // Randomly choose between x or y direction when both are available.
            (Some(x), Some(y)) => if random_value % 100 < 50 {
                y
            } else {
                x
            },
            (Some(x), None) => x,
            (None, Some(y)) => y,
            (None, None) => return self.position,
        };
        let new_position = self.step(direction);
        // Only move if the cell was free at the start of the tick.
        if contains_position(old_managers, new_position) {
            self.position
        } else {
            new_position
        }
    }

    /// Marks this manager dead at `now` if it is alive and stands on the
    /// player's cell; a no-op otherwise. Returns whether the transition
    /// fired, so the caller can raise the kill feedback exactly once per
    /// manager. The check is symmetric in who walked into whom: it fires
    /// after a manager's pursuit move and after a player move alike.
    pub fn check_kill(&mut self, player_position: Position, now: u64) -> (killed: bool)
        ensures
            *final(self) == kill_spec(*old(self), player_position, now),
            killed == (old(self).time_of_death is None && old(self).position
                == player_position),
    {
        if self.time_of_death.is_none() && self.position == player_position {
            self.time_of_death = Some(now);
            true
        } else {
            false
        }
    }
}

/// The kill transition: a manager that is alive and co-located with the
/// player becomes dead with `time_of_death = now`; any other manager is
/// unchanged. Re-checking a dead manager never alters its timestamp.
pub open spec fn kill_spec(m: Manager, player_position: Position, now: u64) -> Manager {
    if m.time_of_death is None && m.position == player_position {
        Manager { position: m.position, direction: m.direction, time_of_death: Some(now) }
    } else {
        m
    }
}

/// The position reached by applying a sequence of clamped steps in order.
pub open spec fn run_steps(p: Position, directions: Seq<Direction>) -> Position
    decreases directions.len(),
{
    if directions.len() == 0 {
        p
    } else {
        step_spec(run_steps(p, directions.drop_last()), directions.last())
    }
}

/// Bounds invariant: any sequence of steps from an in-grid position ends
/// in-grid; movement is clamped and never leaves the board.
pub proof fn lemma_steps_stay_in_grid(p: Position, directions: Seq<Direction>)
    requires
        in_grid(p),
    ensures
        in_grid(run_steps(p, directions)),
    decreases directions.len(),
{
    if directions.len() > 0 {
        lemma_steps_stay_in_grid(p, directions.drop_last());
    }
}

/// Bounds invariant, edge half: stepping toward a boundary the position
/// already touches leaves the position unchanged.
pub proof fn lemma_step_blocked_at_edge(p: Position)
    ensures
        p.y == 0 ==> step_spec(p, Direction::Up) == p,
        p.y == Y_CELL_COUNT - 1 ==> step_spec(p, Direction::Down) == p,
        p.x == 0 ==> step_spec(p, Direction::Left) == p,
        p.x == X_CELL_COUNT - 1 ==> step_spec(p, Direction::Right) == p,
{
}

/// Dead pursuers are frozen: for any target, snapshot and draw, the
/// pursuit move of a manager whose `time_of_death` is set is its own
/// unchanged position.
pub proof fn lemma_dead_pursuers_are_frozen(
    m: Manager,
    target: Position,
    snapshot: Seq<Manager>,
    random_value: u32,
)
    requires
        m.time_of_death is Some,
    ensures
        hunt_spec(m, target, snapshot, random_value) == m.position,
{
}

/// Tie-break determinism: whenever both axis candidates exist, a draw
/// whose residue in `[0, 100)` is below 50 picks the y candidate and any
/// other draw picks the x candidate; in particular a draw of 0 picks y
/// and a draw of 99 picks x.
pub proof fn lemma_tie_break(pos: Position, target: Position, random_value: u32)
    requires
        x_candidate(pos, target) is Some,
        y_candidate(pos, target) is Some,
    ensures
        prefers_y(random_value) ==> chosen_direction(pos, target, random_value) == y_candidate(
            pos,
            target,
        ),
        !prefers_y(random_value) ==> chosen_direction(pos, target, random_value) == x_candidate(
            pos,
            target,
        ),
        prefers_y(0) && !prefers_y(99),
{
}

/// Occupancy rejection: a live manager whose chosen step lands on a cell
/// occupied in the snapshot does not move.
pub proof fn lemma_occupancy_rejection(
    m: Manager,
    target: Position,
    snapshot: Seq<Manager>,
    random_value: u32,
    d: Direction,
)
    requires
        m.time_of_death is None,
        chosen_direction(m.position, target, random_value) == Some(d),
        occupied(snapshot, step_spec(m.position, d)),
    ensures
        hunt_spec(m, target, snapshot, random_value) == m.position,
{
}

/// Whether some manager other than the one at index `who` occupies `p`
/// in the snapshot.
pub open spec fn occupied_by_other(snapshot: Seq<Manager>, p: Position, who: int) -> bool {
    exists|i: int| 0 <= i < snapshot.len() && i != who && snapshot[i].position == p
}

/// The occupancy check only ever rejects a move onto another pursuer's
/// cell: the pursuit move is the same whether or not the check skips the
/// pursuer's own snapshot entry. A candidate that differs from the
/// pursuer's position is never blocked by that entry, and a candidate
/// equal to it is a standstill that resolves to the unchanged position
/// either way.
pub proof fn lemma_own_snapshot_entry_never_decides(
    m: Manager,
    target: Position,
    snapshot: Seq<Manager>,
    random_value: u32,
    who: int,
    d: Direction,
)
    requires
        0 <= who < snapshot.len(),
        snapshot[who].position == m.position,
        chosen_direction(m.position, target, random_value) == Some(d),
    ensures
        hunt_spec(m, target, snapshot, random_value) == (if m.time_of_death is Some {
            m.position
        } else if occupied_by_other(snapshot, step_spec(m.position, d), who) {
            m.position
        } else {
            step_spec(m.position, d)
        }),
{
    let candidate = step_spec(m.position, d);
    if m.time_of_death is None {
        if occupied(snapshot, candidate) && !occupied_by_other(snapshot, candidate, who) {
            let i = choose|i: int| 0 <= i < snapshot.len() && snapshot[i].position == candidate;
            assert(i == who);
            assert(candidate == m.position);
        }
        if occupied_by_other(snapshot, candidate, who) {
            let i = choose|i: int|
                0 <= i < snapshot.len() && i != who && snapshot[i].position == candidate;
            assert(snapshot[i].position == candidate);
            assert(occupied(snapshot, candidate));
        }
    }
}

/// The kill transition is one-shot: once it has set a timestamp, no later
/// check changes the manager again, whatever the positions and times.
pub proof fn lemma_kill_is_one_shot(
    m: Manager,
    first_position: Position,
    first_time: u64,
    later_position: Position,
    later_time: u64,
)
    requires
        kill_spec(m, first_position, first_time).time_of_death is Some,
    ensures
        kill_spec(kill_spec(m, first_position, first_time), later_position, later_time)
            == kill_spec(m, first_position, first_time),
{
}

} // verus!
