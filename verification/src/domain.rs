//! The mission's data model and its state machine: positions on a toroidal
//! grid, cardinal directions, commands, the planet with its obstacles, the
//! rover, and the rule that executes one command.

use vstd::prelude::*;
use vstd::string::StrSliceExecFns;
use vstd::string::StringExecFns;

verus! {

/// A cell of the planet's grid. A position is well formed for a planet when
/// both coordinates lie strictly within the planet's dimensions.
#[derive(Clone, Copy, Debug, PartialEq, Eq, Structural)]
pub struct Position {
    pub x: usize,
    pub y: usize,
}

impl Position {
    pub fn new(x: usize, y: usize) -> (p: Position)
        ensures
            p == (Position { x, y }),
    {
        Position { x, y }
    }
}

/// A cardinal heading. Turning right follows the cycle
/// North, East, South, West; turning left follows it backwards.
#[derive(Clone, Copy, Debug, PartialEq, Eq, Structural)]
pub enum Direction {
    North,
    East,
    South,
    West,
}

/// The heading opposite to `d`.
pub open spec fn opposite_of(d: Direction) -> Direction {
    match d {
        Direction::North => Direction::South,
        Direction::East => Direction::West,
        Direction::South => Direction::North,
        Direction::West => Direction::East,
    }
}

/// The heading after one left turn.
pub open spec fn left_of(d: Direction) -> Direction {
    match d {
        Direction::North => Direction::West,
        Direction::East => Direction::North,
        Direction::South => Direction::East,
        Direction::West => Direction::South,
    }
}

/// The heading after one right turn.
pub open spec fn right_of(d: Direction) -> Direction {
    match d {
        Direction::North => Direction::East,
        Direction::East => Direction::South,
        Direction::South => Direction::West,
        Direction::West => Direction::North,
    }
}

impl Direction {
    fn opposite(&self) -> (d: Direction)
        ensures
            d == opposite_of(*self),
    {
        match self {
            Direction::North => Direction::South,
            Direction::East => Direction::West,
            Direction::South => Direction::North,
            Direction::West => Direction::East,
        }
    }
}

/// The direction named by a one-letter text: `N`, `E`, `S` or `W`.
pub open spec fn direction_of(s: Seq<char>) -> Option<Direction> {
    if s.len() == 1 {
        if s[0] == 'N' {
            Some(Direction::North)
        } else if s[0] == 'E' {
            Some(Direction::East)
        } else if s[0] == 'S' {
            Some(Direction::South)
        } else if s[0] == 'W' {
            Some(Direction::West)
        } else {
            None
        }
    } else {
        None
    }
}

/// One step of the rover's command alphabet.
pub enum Command {
    MoveForward,
    MoveBackward,
    TurnLeft,
    TurnRight,
}

/// Whether `c` names a command: one of `F`, `B`, `L`, `R`.
pub open spec fn is_command_char(c: char) -> bool {
    c == 'F' || c == 'B' || c == 'L' || c == 'R'
}

/// The command named by `c`, meaningful only when `is_command_char(c)`.
pub open spec fn command_of_char(c: char) -> Command
    recommends
        is_command_char(c),
{
    if c == 'F' {
        Command::MoveForward
    } else if c == 'B' {
        Command::MoveBackward
    } else if c == 'L' {
        Command::TurnLeft
    } else {
        Command::TurnRight
    }
}

/// Whether every character of `s` names a command.
pub open spec fn valid_commands(s: Seq<char>) -> bool {
    forall|i: int| 0 <= i < s.len() ==> is_command_char(#[trigger] s[i])
}

impl Command {
    pub fn new(c: char) -> (cmd: Command)
        requires
            is_command_char(c),
        ensures
            cmd == command_of_char(c),
    {
        match c {
            'F' => Command::MoveForward,
            'B' => Command::MoveBackward,
            'L' => Command::TurnLeft,
            _ => Command::TurnRight,
        }
    }
}

/// Why a mission step failed. Each variant carries the offending raw input,
/// or for a collision the rover's last safe position.
#[derive(Debug)]
pub enum MissionError {
    HitObstacle(Position),
    InvalidCoordinates(String),
    InvalidDimensions(String),
    InvalidDirection(String),
    InvalidCommand(String),
    FileError(String),
}

/// The diagnostic text for a rejected dimensions input.
pub open spec fn invalid_dimensions_message(raw: Seq<char>) -> Seq<char> {
    "invalid dimensions `"@ + raw + "`"@
}

/// The diagnostic text for a rejected coordinates input.
pub open spec fn invalid_coordinates_message(raw: Seq<char>) -> Seq<char> {
    "invalid coordinates `"@ + raw + "`"@
}

/// The diagnostic text for a rejected direction input.
pub open spec fn invalid_direction_message(raw: Seq<char>) -> Seq<char> {
    "invalid direction `"@ + raw + "`"@
}

/// The diagnostic text for a rejected command string.
pub open spec fn invalid_command_message(raw: Seq<char>) -> Seq<char> {
    "invalid command `"@ + raw + "`"@
}

impl MissionError {
    /// The diagnostic text of this error.
    pub open spec fn message_spec(self) -> Seq<char> {
        match self {
            MissionError::HitObstacle(_) => "rover hit obstacle"@,
            MissionError::InvalidCoordinates(raw) => invalid_coordinates_message(raw@),
            MissionError::InvalidDimensions(raw) => invalid_dimensions_message(raw@),
            MissionError::InvalidDirection(raw) => invalid_direction_message(raw@),
            MissionError::InvalidCommand(raw) => invalid_command_message(raw@),
            MissionError::FileError(raw) => raw@,
        }
    }

    /// Renders the error as a human-readable line.
    pub fn message(&self) -> (m: String)
        ensures
            m@ == self.message_spec(),
    {
        match self {
            MissionError::HitObstacle(_) => String::from_str("rover hit obstacle"),
            MissionError::InvalidCoordinates(raw) => String::from_str(
                "invalid coordinates `",
            ).concat(raw.as_str()).concat("`"),
            MissionError::InvalidDimensions(raw) => String::from_str(
                "invalid dimensions `",
            ).concat(raw.as_str()).concat("`"),
            MissionError::InvalidDirection(raw) => String::from_str(
                "invalid direction `",
            ).concat(raw.as_str()).concat("`"),
            MissionError::InvalidCommand(raw) => String::from_str("invalid command `").concat(
                raw.as_str(),
            ).concat("`"),
            MissionError::FileError(raw) => raw.clone(),
        }
    }

    /// What exec equality of two errors means: same variant, equal payloads.
    pub open spec fn same_error(self, other: MissionError) -> bool {
        match (self, other) {
            (MissionError::HitObstacle(a), MissionError::HitObstacle(b)) => a == b,
            (
                MissionError::InvalidCoordinates(a),
                MissionError::InvalidCoordinates(b),
            ) => a@ == b@,
            (MissionError::InvalidDimensions(a), MissionError::InvalidDimensions(b)) => a@ == b@,
            (MissionError::InvalidDirection(a), MissionError::InvalidDirection(b)) => a@ == b@,
            (MissionError::InvalidCommand(a), MissionError::InvalidCommand(b)) => a@ == b@,
            (MissionError::FileError(a), MissionError::FileError(b)) => a@ == b@,
            _ => false,
        }
    }
}

impl PartialEq for MissionError {
    fn eq(&self, other: &MissionError) -> (r: bool) {
        match (self, other) {
            (MissionError::HitObstacle(a), MissionError::HitObstacle(b)) => *a == *b,
            (
                MissionError::InvalidCoordinates(a),
                MissionError::InvalidCoordinates(b),
            ) => a.eq(b),
            (MissionError::InvalidDimensions(a), MissionError::InvalidDimensions(b)) => a.eq(b),
            (MissionError::InvalidDirection(a), MissionError::InvalidDirection(b)) => a.eq(b),
            (MissionError::InvalidCommand(a), MissionError::InvalidCommand(b)) => a.eq(b),
            (MissionError::FileError(a), MissionError::FileError(b)) => a.eq(b),
            _ => false,
        }
    }
}

impl vstd::std_specs::cmp::PartialEqSpecImpl for MissionError {
    open spec fn obeys_eq_spec() -> bool {
        true
    }

    open spec fn eq_spec(&self, other: &MissionError) -> bool {
        (*self).same_error(*other)
    }
}

/// The planet: a `w` by `h` grid whose edges wrap around, with a set of
/// obstacle cells. Well formed when both dimensions are at least one.
#[derive(Debug, Clone)]
pub struct Planet {
    pub h: usize,
    pub w: usize,
    pub obstacles: Vec<Position>,
}

/// The given coordinate bumped one step up, wrapping past `dim - 1` to zero.
pub open spec fn wrap_inc(v: int, dim: int) -> int {
    if v + 1 < dim {
        v + 1
    } else {
        0
    }
}

/// The given coordinate bumped one step down, wrapping below zero to `dim - 1`.
pub open spec fn wrap_dec(v: int, dim: int) -> int {
    if v == 0 {
        dim - 1
    } else {
        v - 1
    }
}

impl Planet {
    /// What exec equality of two planets means: same dimensions, same
    /// obstacle list.
    pub open spec fn same_planet(self, other: Planet) -> bool {
        self.w == other.w && self.h == other.h && self.obstacles@ == other.obstacles@
    }

    /// Both dimensions are at least one, so every heading has a neighbour cell.
    pub open spec fn wf(self) -> bool {
        1 <= self.w && 1 <= self.h
    }

    /// Whether `p` lies on this planet's grid.
    pub open spec fn on_grid(self, p: Position) -> bool {
        p.x < self.w && p.y < self.h
    }

    /// Whether an obstacle sits at `p`.
    pub open spec fn blocked(self, p: Position) -> bool {
        self.obstacles@.contains(p)
    }

    /// The cell one step from `p` in direction `d`, with toroidal wraparound.
    pub open spec fn next_position_spec(self, p: Position, d: Direction) -> Position {
        match d {
            Direction::North => Position { x: p.x, y: wrap_inc(p.y as int, self.h as int) as usize },
            Direction::East => Position { x: wrap_inc(p.x as int, self.w as int) as usize, y: p.y },
            Direction::South => Position { x: p.x, y: wrap_dec(p.y as int, self.h as int) as usize },
            Direction::West => Position { x: wrap_dec(p.x as int, self.w as int) as usize, y: p.y },
        }
    }

    /// The cell one step from `p` against direction `d`: a forward step with
    /// the opposite heading.
    pub open spec fn prev_position_spec(self, p: Position, d: Direction) -> Position {
        self.next_position_spec(p, opposite_of(d))
    }

    /// The move rule: the neighbour cell in direction `d`, unless an obstacle
    /// sits there, in which case the move fails and reports the untouched
    /// starting position `p`.
    pub open spec fn new_position_spec(self, p: Position, d: Direction) -> Result<
        Position,
        MissionError,
    > {
        let np = self.next_position_spec(p, d);
        if self.blocked(np) {
            Err(MissionError::HitObstacle(p))
        } else {
            Ok(np)
        }
    }

    pub fn without_obstacles(w: usize, h: usize) -> (p: Planet)
        ensures
            p.w == w,
            p.h == h,
            p.obstacles@ == Seq::<Position>::empty(),
    {
        Planet { w, h, obstacles: Vec::new() }
    }

    pub fn new(w: usize, h: usize, obstacles: Vec<Position>) -> (p: Planet)
        ensures
            p == (Planet { w, h, obstacles }),
    {
        Planet { w, h, obstacles }
    }

    fn is_obstacle(&self, position: &Position) -> (b: bool)
        ensures
            b == self.blocked(*position),
    {
        let mut i: usize = 0;
        while i < self.obstacles.len()
            invariant
                i <= self.obstacles@.len(),
                forall|j: int| 0 <= j < i ==> self.obstacles@[j] != *position,
            decreases self.obstacles@.len() - i,
        {
            if self.obstacles[i] == *position {
                return true;
            }
            i += 1;
        }
        false
    }

    fn new_position(&self, position: &Position, direction: &Direction) -> (r: Result<
        Position,
        MissionError,
    >)
        requires
            self.wf(),
            self.on_grid(*position),
        ensures
            r == self.new_position_spec(*position, *direction),
            r matches Ok(np) ==> self.on_grid(np),
    {
        let (x, y) = match direction {
            Direction::North => (position.x, if position.y + 1 < self.h {
                position.y + 1
            } else {
                0
            }),
            Direction::East => (
                if position.x + 1 < self.w {
                    position.x + 1
                } else {
                    0
                },
                position.y,
            ),
            Direction::South => (position.x, if position.y == 0 {
                self.h - 1
            } else {
                position.y - 1
            }),
            Direction::West => (
                if position.x == 0 {
                    self.w - 1
                } else {
                    position.x - 1
                },
                position.y,
            ),
        };
        let new_position = Position { x, y };
        if self.is_obstacle(&new_position) {
            Err(MissionError::HitObstacle(*position))
        } else {
            Ok(new_position)
        }
    }
}

impl PartialEq for Planet {
    fn eq(&self, other: &Planet) -> (r: bool) {
        if self.w != other.w || self.h != other.h {
            return false;
        }
        if self.obstacles.len() != other.obstacles.len() {
            return false;
        }
        let mut i: usize = 0;
        while i < self.obstacles.len()
            invariant
                i <= self.obstacles@.len(),
                self.obstacles@.len() == other.obstacles@.len(),
                forall|j: int| 0 <= j < i ==> self.obstacles@[j] == other.obstacles@[j],
            decreases self.obstacles@.len() - i,
        {
            if self.obstacles[i] != other.obstacles[i] {
                return false;
            }
            i += 1;
        }
        proof {
            assert(self.obstacles@ =~= other.obstacles@);
        }
        true
    }
}

impl vstd::std_specs::cmp::PartialEqSpecImpl for Planet {
    open spec fn obeys_eq_spec() -> bool {
        true
    }

    open spec fn eq_spec(&self, other: &Planet) -> bool {
        (*self).same_planet(*other)
    }
}

/// The rover: a grid position together with a heading. Every executed
/// command yields a new rover value; nothing is mutated in place.
#[derive(Clone, Copy, Debug, PartialEq, Eq, Structural)]
pub struct Rover {
    pub position: Position,
    pub direction: Direction,
}

impl Rover {
    pub fn new(x: usize, y: usize, d: &str) -> (r: Rover)
        requires
            direction_of(d@) is Some,
        ensures
            r.position == (Position { x, y }),
            Some(r.direction) == direction_of(d@),
    {
        let direction = match d.get_char(0) {
            'N' => Direction::North,
            'E' => Direction::East,
            'S' => Direction::South,
            'W' => Direction::West,
            _ => vstd::pervasive::unreached(),
        };
        Rover { position: Position { x, y }, direction }
    }
}

/// What one command does to the rover. Turns always succeed and keep the
/// position; moves follow the planet's move rule and keep the heading, and a
/// blocked move fails with the rover's pre-move position.
pub open spec fn execute_spec(command: Command, planet: Planet, rover: Rover) -> Result<
    Rover,
    MissionError,
> {
    match command {
        Command::TurnLeft => Ok(
            Rover { position: rover.position, direction: left_of(rover.direction) },
        ),
        Command::TurnRight => Ok(
            Rover { position: rover.position, direction: right_of(rover.direction) },
        ),
        Command::MoveForward => match planet.new_position_spec(rover.position, rover.direction) {
            Ok(p) => Ok(Rover { position: p, direction: rover.direction }),
            Err(e) => Err(e),
        },
        Command::MoveBackward => match planet.new_position_spec(
            rover.position,
            opposite_of(rover.direction),
        ) {
            Ok(p) => Ok(Rover { position: p, direction: rover.direction }),
            Err(e) => Err(e),
        },
    }
}

/// Applies one command to the rover on the given planet.
pub fn execute(command: Command, planet: &Planet, rover: Rover) -> (r: Result<Rover, MissionError>)
    requires
        planet.wf(),
        planet.on_grid(rover.position),
    ensures
        r == execute_spec(command, *planet, rover),
        r matches Ok(r2) ==> planet.on_grid(r2.position),
{
    match command {
        Command::TurnLeft => Ok(turn_left(rover)),
        Command::TurnRight => Ok(turn_right(rover)),
        Command::MoveForward => move_forward(planet, rover),
        Command::MoveBackward => move_backward(planet, rover),
    }
}

fn move_forward(planet: &Planet, rover: Rover) -> (r: Result<Rover, MissionError>)
    requires
        planet.wf(),
        planet.on_grid(rover.position),
    ensures
        r == execute_spec(Command::MoveForward, *planet, rover),
        r matches Ok(r2) ==> planet.on_grid(r2.position),
{
    match planet.new_position(&rover.position, &rover.direction) {
        Ok(p) => Ok(Rover { position: p, direction: rover.direction }),
        Err(e) => Err(e),
    }
}

fn move_backward(planet: &Planet, rover: Rover) -> (r: Result<Rover, MissionError>)
    requires
        planet.wf(),
        planet.on_grid(rover.position),
    ensures
        r == execute_spec(Command::MoveBackward, *planet, rover),
        r matches Ok(r2) ==> planet.on_grid(r2.position),
{
    match planet.new_position(&rover.position, &rover.direction.opposite()) {
        Ok(p) => Ok(Rover { position: p, direction: rover.direction }),
        Err(e) => Err(e),
    }
}

fn turn_left(rover: Rover) -> (r: Rover)
    ensures
        r == (Rover { position: rover.position, direction: left_of(rover.direction) }),
{
    let direction = match rover.direction {
        Direction::North => Direction::West,
        Direction::East => Direction::North,
        Direction::South => Direction::East,
        Direction::West => Direction::South,
    };
    Rover { direction, ..rover }
}

fn turn_right(rover: Rover) -> (r: Rover)
    ensures
        r == (Rover { position: rover.position, direction: right_of(rover.direction) }),
{
    let direction = match rover.direction {
        Direction::North => Direction::East,
        Direction::East => Direction::South,
        Direction::South => Direction::West,
        Direction::West => Direction::North,
    };
    Rover { direction, ..rover }
}

/// A step from a grid cell lands on a grid cell.
pub proof fn lemma_next_position_on_grid(planet: Planet, p: Position, d: Direction)
    requires
        planet.wf(),
        planet.on_grid(p),
    ensures
        planet.on_grid(planet.next_position_spec(p, d)),
{
}

/// Wraparound round trip: stepping forward and then backward along the same
/// heading returns to the starting cell, on every grid and from every cell.
pub proof fn lemma_prev_of_next(planet: Planet, p: Position, d: Direction)
    requires
        planet.wf(),
        planet.on_grid(p),
    ensures
        planet.prev_position_spec(planet.next_position_spec(p, d), d) == p,
{
}

} // verus!

