use vstd::prelude::*;

use crate::models::{
    dirs_opposite, impact_result, impact_rotation, opposite_dir, thrust_direction, Direction, Rotation,
    Rune, Vessel,
};

verus! {

/// A Thrust rune that points along the current heading boosts: the heading
/// is kept and the velocity grows by one, with rotation `Straight`. The
/// velocity bound keeps the gain away from the machine limit, where it
/// saturates instead.
pub proof fn lemma_thrust_same_heading(v: Vessel, rune: Rune, d: Direction)
    requires
        thrust_direction(rune) == Some(d),
        v.direction == d,
        v.velocity < i32::MAX,
    ensures
        impact_result(v, rune).direction == v.direction,
        impact_result(v, rune).velocity == v.velocity + 1,
        impact_result(v, rune).x == v.x,
        impact_result(v, rune).y == v.y,
        impact_rotation(v, rune) == Rotation::Straight,
{
}

/// A Thrust rune that points against the current heading brakes: the
/// heading is kept and the velocity drops by one, and the rotation is
/// `Stopped` exactly when the resulting velocity is zero or below, else
/// `Straight`. The velocity bound keeps the loss away from the machine
/// limit, where it saturates instead.
pub proof fn lemma_thrust_opposite_heading(v: Vessel, rune: Rune, d: Direction)
    requires
        thrust_direction(rune) == Some(d),
        dirs_opposite(v.direction, d),
        v.velocity > i32::MIN,
    ensures
        impact_result(v, rune).direction == v.direction,
        impact_result(v, rune).velocity == v.velocity - 1,
        impact_result(v, rune).x == v.x,
        impact_result(v, rune).y == v.y,
        impact_rotation(v, rune) == if impact_result(v, rune).velocity > 0 {
            Rotation::Straight
        } else {
            Rotation::Stopped
        },
{
}

/// A Thrust rune perpendicular to the current heading turns: the heading
/// becomes the rune's direction, the velocity is untouched, and the
/// rotation follows the fixed table — `Up -> Left`, `Left -> Down`,
/// `Down -> Right` and `Right -> Up` are left turns, the four mirrored
/// pairs right turns.
pub proof fn lemma_thrust_perpendicular(v: Vessel, rune: Rune, d: Direction)
    requires
        thrust_direction(rune) == Some(d),
        v.direction != d,
        !dirs_opposite(v.direction, d),
        v.direction != Direction::Still,
    ensures
        impact_result(v, rune).direction == d,
        impact_result(v, rune).velocity == v.velocity,
        impact_result(v, rune).x == v.x,
        impact_result(v, rune).y == v.y,
        impact_rotation(v, rune) == Rotation::Left <==> (v.direction == Direction::Up && d
            == Direction::Left) || (v.direction == Direction::Left && d == Direction::Down) || (
        v.direction == Direction::Down && d == Direction::Right) || (v.direction
            == Direction::Right && d == Direction::Up),
        impact_rotation(v, rune) == Rotation::Right <==> (v.direction == Direction::Up && d
            == Direction::Right) || (v.direction == Direction::Right && d == Direction::Down) || (
        v.direction == Direction::Down && d == Direction::Left) || (v.direction
            == Direction::Left && d == Direction::Up),
{
}

/// The Star rune always reverses: the heading becomes its geometric
/// opposite, the velocity is untouched, and the rotation is `UTurn`.
pub proof fn lemma_rebound(v: Vessel)
    ensures
        impact_result(v, Rune::Star).direction == opposite_dir(v.direction),
        impact_result(v, Rune::Star).velocity == v.velocity,
        impact_result(v, Rune::Star).x == v.x,
        impact_result(v, Rune::Star).y == v.y,
        impact_rotation(v, Rune::Star) == Rotation::UTurn,
{
}

/// The Parking rune always resets the velocity to exactly one, whatever
/// its prior sign or magnitude, and keeps the heading; the rotation is
/// `Straight`.
pub proof fn lemma_parking(v: Vessel)
    ensures
        impact_result(v, Rune::Parking).velocity == 1,
        impact_result(v, Rune::Parking).direction == v.direction,
        impact_result(v, Rune::Parking).x == v.x,
        impact_result(v, Rune::Parking).y == v.y,
        impact_rotation(v, Rune::Parking) == Rotation::Straight,
{
}

} // verus!
