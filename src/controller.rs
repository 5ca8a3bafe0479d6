use vstd::prelude::*;
use crate::input::InputSnapshot;

verus! {

/// Horizontal force applied to the player per unit of axis.
pub const MOVE_FORCE: i64 = 500;

/// Size of the impulse of a jump.
pub const JUMP_IMPULSE: i64 = 200;

/// The direction in which gravity pulls bodies, in world axes (y grows
/// downwards on screen). The ground probe is cast along it; this is its x part.
pub const GROUND_X: i64 = 0;

/// The y part of the direction of gravity.
pub const GROUND_Y: i64 = 1;

/// A 2D vector of integer world units, handed to the physics engine.
#[derive(Clone, Copy, Debug, PartialEq, Eq)]
pub struct Vec2i {
    pub x: i64,
    pub y: i64,
}

/// What the controller asks of the physics engine after the input of a frame.
#[derive(Clone, Copy, Debug, PartialEq, Eq)]
pub struct ControlPlan {
    /// Force to apply to the player this frame, whatever the jump does.
    pub force: Vec2i,
    /// Cast a ray from the player toward the ground, excluding its own
    /// collider, to decide whether the jump is granted.
    pub probe_ground: bool,
}

/// The ground probe's direction: the way gravity pulls.
pub fn ground_direction() -> (r: Vec2i)
    ensures
        r.x == GROUND_X,
        r.y == GROUND_Y,
{
    Vec2i { x: GROUND_X, y: GROUND_Y }
}

/// The force of a frame: `(MOVE_FORCE * axis, 0)`.
pub fn movement_force(snapshot: &InputSnapshot) -> (r: Vec2i)
    requires
        snapshot.wf(),
    ensures
        r.x == MOVE_FORCE * snapshot.axis,
        r.y == 0,
{
    Vec2i { x: MOVE_FORCE * (snapshot.axis as i64), y: 0 }
}

/// First half of the controller's update: the continuous force, and whether
/// a jump is attempted, which needs a ground probe.
pub fn plan(snapshot: &InputSnapshot) -> (r: ControlPlan)
    requires
        snapshot.wf(),
    ensures
        r.force.x == MOVE_FORCE * snapshot.axis,
        r.force.y == 0,
        r.probe_ground == snapshot.spec_rising_edge(),
{
    ControlPlan { force: movement_force(snapshot), probe_ground: snapshot.is_rising_edge() }
}

/// The impulse of a granted jump: `JUMP_IMPULSE` against gravity.
pub open spec fn spec_jump_impulse() -> Vec2i {
    Vec2i { x: (-JUMP_IMPULSE * GROUND_X) as i64, y: (-JUMP_IMPULSE * GROUND_Y) as i64 }
}

/// Second half of the update: `ground_hit` says whether the ground probe hit
/// something within its reach. A jump is granted only on a rising edge with a
/// hit; otherwise it is dropped, with nothing queued.
pub fn jump_impulse(snapshot: &InputSnapshot, ground_hit: bool) -> (r: Option<Vec2i>)
    ensures
        r == (if snapshot.spec_rising_edge() && ground_hit {
            Some(spec_jump_impulse())
        } else {
            None::<Vec2i>
        }),
{
    if snapshot.is_rising_edge() && ground_hit {
        Some(Vec2i { x: -JUMP_IMPULSE * GROUND_X, y: -JUMP_IMPULSE * GROUND_Y })
    } else {
        None
    }
}

/// Identity of a collider as the physics engine hands it out.
#[derive(Clone, Copy, Debug, PartialEq, Eq)]
pub struct ColliderId {
    pub index: usize,
    pub generation: u64,
}

/// The ground probe's filter: every collider but the player's own, which
/// would otherwise be hit at distance zero.
pub fn probe_accepts(candidate: ColliderId, player: ColliderId) -> (r: bool)
    ensures
        r == (candidate != player),
{
    !(candidate.index == player.index && candidate.generation == player.generation)
}

} // verus!
