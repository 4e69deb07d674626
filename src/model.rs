use vstd::prelude::*;

verus! {

/// A cell of the grid. The origin is the bottom-left corner, `x` grows to
/// the right and `y` grows upwards.
#[derive(Clone, Copy, Debug, PartialEq, Eq, Structural)]
pub struct Coord {
    pub x: i32,
    pub y: i32,
}

/// One snake on the board. `body[0]` is the head, `body[1]` the neck.
#[derive(Clone, Debug)]
pub struct Battlesnake {
    pub id: String,
    pub name: String,
    pub health: u32,
    pub body: Vec<Coord>,
    pub head: Coord,
    pub length: u32,
    pub latency: String,
    pub shout: Option<String>,
}

/// The board of one turn: its size, the food, the hazards and every snake
/// still alive.
#[derive(Clone, Debug)]
pub struct Board {
    pub height: i32,
    pub width: i32,
    pub food: Vec<Coord>,
    pub snakes: Vec<Battlesnake>,
    pub hazards: Vec<Coord>,
}

/// The match a turn belongs to.
#[derive(Clone, Debug)]
pub struct Game {
    pub id: String,
    pub timeout: u32,
}

/// The four moves a snake can make.
#[derive(Clone, Copy, Debug, PartialEq, Eq, Structural)]
pub enum Direction {
    Up,
    Down,
    Left,
    Right,
}

impl Direction {
    /// The lowercase word the game server expects for this move.
    pub open spec fn token(self) -> Seq<char> {
        match self {
            Direction::Up => "up"@,
            Direction::Down => "down"@,
            Direction::Left => "left"@,
            Direction::Right => "right"@,
        }
    }

    /// The lowercase word for this move: `"up"`, `"down"`, `"left"` or `"right"`.
    pub fn as_str(&self) -> (r: &'static str)
        ensures
            r@ == self.token(),
    {
        match self {
            Direction::Up => "up",
            Direction::Down => "down",
            Direction::Left => "left",
            Direction::Right => "right",
        }
    }
}

/// The fixed description of this snake that the game server asks for.
#[derive(Clone, Debug)]
pub struct Info {
    pub apiversion: String,
    pub author: String,
    pub color: String,
    pub head: String,
    pub tail: String,
}

} // verus!
