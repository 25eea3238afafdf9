use vstd::prelude::*;

verus! {

/// The fundamental elements in the Velo cosmos that affect the Vessel's movement.
#[derive(Debug, Clone, Copy, PartialEq, Eq, Structural)]
pub enum Rune {
    ThrustUp,    // '^'
    ThrustDown,  // 'v'
    ThrustLeft,  // '<'
    ThrustRight, // '>'
    Boost,       // '+'
    Brake,       // '-'
    Star,        // '*' - Reverses direction
    Parking,     // 'P' - Resets velocity to 1
    Void,        // Other characters - No effect
}

/// The Velo universe, represented as a grid of Runes.
pub type Cosmos = Vec<Vec<Rune>>;

/// The direction of the Vessel's travel. `Still` is the sentinel for a
/// vessel that has not yet been set in motion.
#[derive(Debug, Clone, Copy, PartialEq, Eq, Structural)]
pub enum Direction {
    Up,
    Down,
    Left,
    Right,
    Still,
}

/// Describes the rotational change of the Vessel after impacting a Rune.
#[derive(Debug, Clone, Copy, PartialEq, Eq, Structural)]
pub enum Rotation {
    Straight, // No change in direction
    Left,
    Right,
    UTurn,   // 180-degree reversal
    Stopped, // Velocity dropped to zero
}

/// The geometric opposite of a direction; `Still` has no opposite and maps
/// to itself.
pub open spec fn opposite_dir(d: Direction) -> Direction {
    match d {
        Direction::Up => Direction::Down,
        Direction::Down => Direction::Up,
        Direction::Left => Direction::Right,
        Direction::Right => Direction::Left,
        Direction::Still => Direction::Still,
    }
}

/// Whether two directions are geometric opposites (Up/Down or Left/Right).
pub open spec fn dirs_opposite(a: Direction, b: Direction) -> bool {
    match (a, b) {
        (Direction::Up, Direction::Down) => true,
        (Direction::Down, Direction::Up) => true,
        (Direction::Left, Direction::Right) => true,
        (Direction::Right, Direction::Left) => true,
        _ => false,
    }
}

/// The fixed rotation table for a heading change `from -> to`: same
/// direction is `Straight`, opposites are `UTurn`, the four left-hand
/// perpendicular pairs are `Left`, the four right-hand ones are `Right`,
/// and any pair involving `Still` falls through to `Stopped`.
pub open spec fn rotation_between(from: Direction, to: Direction) -> Rotation {
    match (from, to) {
        (Direction::Up, Direction::Up)
        | (Direction::Down, Direction::Down)
        | (Direction::Left, Direction::Left)
        | (Direction::Right, Direction::Right) => Rotation::Straight,
        (Direction::Up, Direction::Down)
        | (Direction::Down, Direction::Up)
        | (Direction::Left, Direction::Right)
        | (Direction::Right, Direction::Left) => Rotation::UTurn,
        (Direction::Up, Direction::Left)
        | (Direction::Left, Direction::Down)
        | (Direction::Down, Direction::Right)
        | (Direction::Right, Direction::Up) => Rotation::Left,
        (Direction::Up, Direction::Right)
        | (Direction::Right, Direction::Down)
        | (Direction::Down, Direction::Left)
        | (Direction::Left, Direction::Up) => Rotation::Right,
        _ => Rotation::Stopped,
    }
}

/// The direction a Thrust rune pushes toward; `None` for non-Thrust runes.
pub open spec fn thrust_direction(rune: Rune) -> Option<Direction> {
    match rune {
        Rune::ThrustUp => Some(Direction::Up),
        Rune::ThrustDown => Some(Direction::Down),
        Rune::ThrustLeft => Some(Direction::Left),
        Rune::ThrustRight => Some(Direction::Right),
        _ => None,
    }
}

impl Direction {
    fn consistent_with(self, other: Direction) -> (r: bool)
        ensures
            r == (self == other),
    {
        self == other
    }

    fn opposite_to(self, other: Direction) -> (r: bool)
        ensures
            r == dirs_opposite(self, other),
    {
        match (self, other) {
            (Direction::Up, Direction::Down) => true,
            (Direction::Down, Direction::Up) => true,
            (Direction::Left, Direction::Right) => true,
            (Direction::Right, Direction::Left) => true,
            (_, _) => false,
        }
    }

    fn opposite(self) -> (r: Direction)
        ensures
            r == opposite_dir(self),
    {
        match self {
            Direction::Up => Direction::Down,
            Direction::Down => Direction::Up,
            Direction::Left => Direction::Right,
            Direction::Right => Direction::Left,
            Direction::Still => Direction::Still,
        }
    }

    pub fn calculate_rotation(self, new_direction: Direction) -> (r: Rotation)
        ensures
            r == rotation_between(self, new_direction),
    {
        match (self, new_direction) {
            (Direction::Up, Direction::Up)
            | (Direction::Down, Direction::Down)
            | (Direction::Left, Direction::Left)
            | (Direction::Right, Direction::Right) => Rotation::Straight,
            (Direction::Up, Direction::Down)
            | (Direction::Down, Direction::Up)
            | (Direction::Left, Direction::Right)
            | (Direction::Right, Direction::Left) => Rotation::UTurn,
            (Direction::Up, Direction::Left)
            | (Direction::Left, Direction::Down)
            | (Direction::Down, Direction::Right)
            | (Direction::Right, Direction::Up) => Rotation::Left,
            (Direction::Up, Direction::Right)
            | (Direction::Right, Direction::Down)
            | (Direction::Down, Direction::Left)
            | (Direction::Left, Direction::Up) => Rotation::Right,
            _ => Rotation::Stopped,
        }
    }
}

/// The main execution entity, an exploration vessel moving through the Cosmos.
#[derive(Debug, Clone, Copy)]
pub struct Vessel {
    pub x: usize,
    pub y: usize,
    pub direction: Direction,
    pub velocity: i32,
}

/// The vessel after a velocity gain of one; the gain saturates at the
/// machine bound instead of overflowing.
pub open spec fn boosted(v: Vessel) -> Vessel {
    if v.velocity < i32::MAX {
        Vessel { velocity: (v.velocity + 1) as i32, ..v }
    } else {
        v
    }
}

/// The vessel after a velocity loss of one; the loss saturates at the
/// machine bound instead of overflowing.
pub open spec fn braked(v: Vessel) -> Vessel {
    if v.velocity > i32::MIN {
        Vessel { velocity: (v.velocity - 1) as i32, ..v }
    } else {
        v
    }
}

/// The rotation a brake reports: `Straight` while the vessel is still
/// moving, `Stopped` once the velocity has dropped to zero or below.
pub open spec fn brake_rotation(v: Vessel) -> Rotation {
    if braked(v).velocity > 0 {
        Rotation::Straight
    } else {
        Rotation::Stopped
    }
}

/// A Thrust rune's effect on the vessel: boost when it points along the
/// current heading, brake when it points against it, and otherwise a turn
/// onto the rune's direction.
pub open spec fn thrust_impact(v: Vessel, d: Direction) -> Vessel {
    if v.direction == d {
        boosted(v)
    } else if dirs_opposite(v.direction, d) {
        braked(v)
    } else {
        Vessel { direction: d, ..v }
    }
}

/// The rotation a Thrust rune reports, split the same way as
/// `thrust_impact`.
pub open spec fn thrust_rotation(v: Vessel, d: Direction) -> Rotation {
    if v.direction == d {
        Rotation::Straight
    } else if dirs_opposite(v.direction, d) {
        brake_rotation(v)
    } else {
        rotation_between(v.direction, d)
    }
}

/// The complete symbol-impact rule: the vessel state after landing on a
/// rune. Total: every (vessel, rune) pair has exactly one outcome.
pub open spec fn impact_result(v: Vessel, rune: Rune) -> Vessel {
    match rune {
        Rune::ThrustUp => thrust_impact(v, Direction::Up),
        Rune::ThrustDown => thrust_impact(v, Direction::Down),
        Rune::ThrustLeft => thrust_impact(v, Direction::Left),
        Rune::ThrustRight => thrust_impact(v, Direction::Right),
        Rune::Boost => boosted(v),
        Rune::Brake => braked(v),
        Rune::Star => Vessel { direction: opposite_dir(v.direction), ..v },
        Rune::Parking => Vessel { velocity: 1, ..v },
        Rune::Void => v,
    }
}

/// The rotation reported alongside `impact_result`.
pub open spec fn impact_rotation(v: Vessel, rune: Rune) -> Rotation {
    match rune {
        Rune::ThrustUp => thrust_rotation(v, Direction::Up),
        Rune::ThrustDown => thrust_rotation(v, Direction::Down),
        Rune::ThrustLeft => thrust_rotation(v, Direction::Left),
        Rune::ThrustRight => thrust_rotation(v, Direction::Right),
        Rune::Boost => Rotation::Straight,
        Rune::Brake => brake_rotation(v),
        Rune::Star => Rotation::UTurn,
        Rune::Parking => Rotation::Straight,
        Rune::Void => Rotation::Straight,
    }
}

/// The cell the vessel would occupy after one step along its heading, as
/// mathematical coordinates. `None` when the step would need a negative
/// coordinate or the vessel has no heading; crossing the positive-side
/// grid bound is not detected here but by the engine's bounds check.
pub open spec fn next_coordinate(v: Vessel) -> Option<(int, int)> {
    match v.direction {
        Direction::Up => if v.y >= 1 {
            Some((v.x as int, v.y - 1))
        } else {
            None
        },
        Direction::Down => Some((v.x as int, v.y + 1)),
        Direction::Left => if v.x >= 1 {
            Some((v.x - 1, v.y as int))
        } else {
            None
        },
        Direction::Right => Some((v.x + 1, v.y as int)),
        Direction::Still => None,
    }
}

impl Vessel {
    /// Creates a new Vessel at the starting coordinates, determining initial
    /// state based on the entry Rune: a Thrust rune sets its direction with
    /// velocity 1; any other rune leaves the vessel still with velocity 0.
    pub fn new(x: usize, y: usize, starting_rune: Rune) -> (v: Vessel)
        ensures
            v.x == x,
            v.y == y,
            match thrust_direction(starting_rune) {
                Some(d) => v.direction == d && v.velocity == 1,
                None => v.direction == Direction::Still && v.velocity == 0,
            },
    {
        let (direction, velocity) = match starting_rune {
            Rune::ThrustUp => (Direction::Up, 1),
            Rune::ThrustDown => (Direction::Down, 1),
            Rune::ThrustLeft => (Direction::Left, 1),
            Rune::ThrustRight => (Direction::Right, 1),
            _ => (Direction::Still, 0),
        };
        Vessel { x, y, direction, velocity }
    }

    /// The Vessel impacts a Rune, modifying its state (direction and
    /// velocity) exactly as `impact_result` says, and reports the rotation
    /// `impact_rotation` says. The position never changes here.
    pub fn impact_rune(&mut self, rune: Rune) -> (r: Rotation)
        ensures
            *final(self) == impact_result(*old(self), rune),
            r == impact_rotation(*old(self), rune),
    {
        match rune {
            Rune::ThrustUp => self.impact_thust_rune(Direction::Up),
            Rune::ThrustDown => self.impact_thust_rune(Direction::Down),
            Rune::ThrustLeft => self.impact_thust_rune(Direction::Left),
            Rune::ThrustRight => self.impact_thust_rune(Direction::Right),
            Rune::Boost => self.apply_boost(),
            Rune::Brake => self.apply_brake(),
            Rune::Star => self.apply_rebound(),
            Rune::Parking => self.apply_parking(),
            Rune::Void => Rotation::Straight,
        }
    }

    pub fn x(&self) -> (r: usize)
        ensures
            r == self.x,
    {
        self.x
    }

    pub fn y(&self) -> (r: usize)
        ensures
            r == self.y,
    {
        self.y
    }

    pub fn direction(&self) -> (r: Direction)
        ensures
            r == self.direction,
    {
        self.direction
    }

    pub fn velocity(&self) -> (r: i32)
        ensures
            r == self.velocity,
    {
        self.velocity
    }

    /// Calculates the expected next coordinate based on the current direction.
    /// Returns an error exactly when the step would need a negative
    /// coordinate or the Vessel has no direction.
    pub fn get_next_coordinate(self) -> (r: Result<(usize, usize), &'static str>)
        requires
            self.direction == Direction::Right ==> self.x < usize::MAX,
            self.direction == Direction::Down ==> self.y < usize::MAX,
        ensures
            (r is Ok) == (next_coordinate(self) is Some),
            r matches Ok(c) ==> next_coordinate(self) == Some((c.0 as int, c.1 as int)),
    {
        match self.direction {
            Direction::Up => {
                if self.y < 1 {
                    return Err(
                        "`y` is less than 1, the vessel was going to travel out of the cosmos.",
                    );
                }
                Ok((self.x, self.y - 1))
            }
            Direction::Down => Ok((self.x, self.y + 1)),
            Direction::Left => {
                if self.x < 1 {
                    return Err(
                        "`x` is less than 1, the vessel was going to travel out of the cosmos.",
                    );
                }
                Ok((self.x - 1, self.y))
            }
            Direction::Right => Ok((self.x + 1, self.y)),
            Direction::Still => Err("No direction."),
        }
    }

    pub fn move_to(&mut self, new_x: usize, new_y: usize)
        ensures
            *final(self) == (Vessel { x: new_x, y: new_y, ..*old(self) }),
    {
        self.x = new_x;
        self.y = new_y;
    }

    /// Advances the vessel one step along its heading, or leaves it in
    /// place with an error when `get_next_coordinate` fails.
    pub fn move_forward(&mut self) -> (r: Result<(), &str>)
        requires
            old(self).direction == Direction::Right ==> old(self).x < usize::MAX,
            old(self).direction == Direction::Down ==> old(self).y < usize::MAX,
        ensures
            (r is Ok) == (next_coordinate(*old(self)) is Some),
            next_coordinate(*old(self)) matches Some(c) ==> *final(self) == (Vessel {
                x: c.0 as usize,
                y: c.1 as usize,
                ..*old(self)
            }),
            next_coordinate(*old(self)) is None ==> *final(self) == *old(self),
    {
        let (new_x, new_y) = self.get_next_coordinate()?;
        self.move_to(new_x, new_y);
        Ok(())
    }

    fn apply_boost(&mut self) -> (r: Rotation)
        ensures
            *final(self) == boosted(*old(self)),
            r == Rotation::Straight,
    {
        if self.velocity < i32::MAX {
            self.velocity = self.velocity + 1;
        }
        Rotation::Straight
    }

    fn apply_brake(&mut self) -> (r: Rotation)
        ensures
            *final(self) == braked(*old(self)),
            r == brake_rotation(*old(self)),
    {
        if self.velocity > i32::MIN {
            self.velocity = self.velocity - 1;
        }
        if self.velocity > 0 {
            Rotation::Straight
        } else {
            Rotation::Stopped
        }
    }

    fn turn(&mut self, new_dir: Direction) -> (r: Rotation)
        ensures
            *final(self) == (Vessel { direction: new_dir, ..*old(self) }),
            r == rotation_between(old(self).direction, new_dir),
    {
        let rotation = self.direction.calculate_rotation(new_dir);
        self.direction = new_dir;
        rotation
    }

    fn apply_rebound(&mut self) -> (r: Rotation)
        ensures
            *final(self) == (Vessel { direction: opposite_dir(old(self).direction), ..*old(self) }),
            r == Rotation::UTurn,
    {
        self.direction = self.direction.opposite();
        Rotation::UTurn
    }

    fn apply_parking(&mut self) -> (r: Rotation)
        ensures
            *final(self) == (Vessel { velocity: 1, ..*old(self) }),
            r == Rotation::Straight,
    {
        self.velocity = 1;
        Rotation::Straight
    }

    fn impact_thust_rune(&mut self, rune_dir: Direction) -> (r: Rotation)
        ensures
            *final(self) == thrust_impact(*old(self), rune_dir),
            r == thrust_rotation(*old(self), rune_dir),
    {
        if self.direction.consistent_with(rune_dir) {
            self.apply_boost()
        } else if self.direction.opposite_to(rune_dir) {
            self.apply_brake()
        } else {
            self.turn(rune_dir)
        }
    }
}

} // verus!
