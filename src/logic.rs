use rand::seq::SliceRandom;
use vstd::prelude::*;

use crate::model::{Battlesnake, Board, Coord, Direction, Game, Info};

verus! {

/// Whether the cell `(x, y)` is one the head may move onto. The cells of
/// row 0 and column 0 count as wall, as does everything at or beyond the
/// board's width (for `x`) and height (for `y`).
pub open spec fn in_bounds(x: int, y: int, board: Board) -> bool {
    &&& 0 < x < board.width
    &&& 0 < y < board.height
}

/// The cell one step from `c` in direction `d`, as unbounded integers.
pub open spec fn step(c: Coord, d: Direction) -> (int, int) {
    match d {
        Direction::Up => (c.x as int, c.y + 1),
        Direction::Down => (c.x as int, c.y - 1),
        Direction::Left => (c.x - 1, c.y as int),
        Direction::Right => (c.x + 1, c.y as int),
    }
}

/// The move that would take the head back towards its neck, if the two differ.
pub open spec fn neck_direction(head: Coord, neck: Coord) -> Option<Direction> {
    if neck.x < head.x {
        Some(Direction::Left)
    } else if neck.x > head.x {
        Some(Direction::Right)
    } else if neck.y < head.y {
        Some(Direction::Down)
    } else if neck.y > head.y {
        Some(Direction::Up)
    } else {
        None
    }
}

/// A move survives when it does not turn back onto the neck and keeps the
/// head on the board.
pub open spec fn survivable(board: Board, head: Coord, neck: Coord, d: Direction) -> bool {
    &&& neck_direction(head, neck) != Some(d)
    &&& in_bounds(step(head, d).0, step(head, d).1, board)
}

/// `seq![d]` when `ok` holds, the empty sequence otherwise.
pub open spec fn keep(d: Direction, ok: bool) -> Seq<Direction> {
    if ok {
        seq![d]
    } else {
        Seq::empty()
    }
}

/// The surviving moves of a snake, in the order up, down, left, right.
pub open spec fn safe_seq(board: Board, you: Battlesnake) -> Seq<Direction> {
    let head = you.head;
    let neck = you.body@[1];
    keep(Direction::Up, survivable(board, head, neck, Direction::Up))
        + keep(Direction::Down, survivable(board, head, neck, Direction::Down))
        + keep(Direction::Left, survivable(board, head, neck, Direction::Left))
        + keep(Direction::Right, survivable(board, head, neck, Direction::Right))
}

/// The set of surviving moves of a snake.
pub open spec fn safe_set(board: Board, you: Battlesnake) -> Set<Direction> {
    Set::new(|d: Direction| survivable(board, you.head, you.body@[1], d))
}

/// The move made when no move survives: the snake is cornered and every
/// choice loses, so a fixed one is taken.
pub open spec fn fallback() -> Direction {
    Direction::Up
}

/// Tells whether the head may move onto `spot` without leaving the board.
pub fn valid_move(spot: &Coord, board: &Board) -> (r: bool)
    ensures
        r == in_bounds(spot.x as int, spot.y as int, *board),
{
    0 < spot.x && spot.x < board.width && 0 < spot.y && spot.y < board.height
}

/// Tells whether one step from `head` in direction `d` stays on the board.
/// A step past the range of `i32` leaves every board.
fn valid_step(head: &Coord, d: Direction, board: &Board) -> (r: bool)
    ensures
        r == in_bounds(step(*head, d).0, step(*head, d).1, *board),
{
    match d {
        Direction::Up => head.y < i32::MAX && valid_move(&Coord { x: head.x, y: head.y + 1 }, board),
        Direction::Down => head.y > i32::MIN && valid_move(&Coord { x: head.x, y: head.y - 1 }, board),
        Direction::Left => head.x > i32::MIN && valid_move(&Coord { x: head.x - 1, y: head.y }, board),
        Direction::Right => head.x < i32::MAX && valid_move(&Coord { x: head.x + 1, y: head.y }, board),
    }
}

/// The move that would turn the head back onto its neck, if any.
fn reversal(head: &Coord, neck: &Coord) -> (r: Option<Direction>)
    ensures
        r == neck_direction(*head, *neck),
{
    if neck.x < head.x {
        Some(Direction::Left)
    } else if neck.x > head.x {
        Some(Direction::Right)
    } else if neck.y < head.y {
        Some(Direction::Down)
    } else if neck.y > head.y {
        Some(Direction::Up)
    } else {
        None
    }
}

/// Membership and uniqueness in the sequence of surviving moves.
pub proof fn lemma_safe_seq_members(board: Board, you: Battlesnake)
    ensures
        safe_seq(board, you).no_duplicates(),
        forall|d: Direction|
            #![trigger safe_seq(board, you).contains(d)]
            safe_seq(board, you).contains(d) <==> survivable(board, you.head, you.body@[1], d),
{
    let head = you.head;
    let neck = you.body@[1];
    let a = keep(Direction::Up, survivable(board, head, neck, Direction::Up));
    let b = keep(Direction::Down, survivable(board, head, neck, Direction::Down));
    let c = keep(Direction::Left, survivable(board, head, neck, Direction::Left));
    let e = keep(Direction::Right, survivable(board, head, neck, Direction::Right));
    let s = a + b + c + e;
    assert forall|d: Direction| s.contains(d) <==> survivable(board, head, neck, d) by {
        if s.contains(d) {
            let i = choose|i: int| 0 <= i < s.len() && s[i] == d;
            if i < a.len() {
                assert(s[i] == a[i]);
            } else if i < a.len() + b.len() {
                assert(s[i] == b[i - a.len()]);
            } else if i < a.len() + b.len() + c.len() {
                assert(s[i] == c[i - a.len() - b.len()]);
            } else {
                assert(s[i] == e[i - a.len() - b.len() - c.len()]);
            }
        }
        if survivable(board, head, neck, d) {
            match d {
                Direction::Up => assert(s[0] == d),
                Direction::Down => assert(s[a.len() as int] == d),
                Direction::Left => assert(s[(a.len() + b.len()) as int] == d),
                Direction::Right => assert(s[(a.len() + b.len() + c.len()) as int] == d),
            }
        }
    }
    assert forall|i: int, j: int| 0 <= i < s.len() && 0 <= j < s.len() && i != j implies s[i]
        != s[j] by {
        assert(forall|k: int|
            #![trigger s[k]]
            0 <= k < a.len() ==> s[k] == Direction::Up);
        assert(forall|k: int|
            #![trigger s[k]]
            a.len() <= k < a.len() + b.len() ==> s[k] == Direction::Down);
        assert(forall|k: int|
            #![trigger s[k]]
            a.len() + b.len() <= k < a.len() + b.len() + c.len() ==> s[k] == Direction::Left);
        assert(forall|k: int|
            #![trigger s[k]]
            a.len() + b.len() + c.len() <= k < s.len() ==> s[k] == Direction::Right);
    }
}

/// The moves that survive the safety filter, in the order up, down, left,
/// right: those that do not turn back onto the neck and keep the head on
/// the board. Collisions with snake bodies and the position of food are not
/// taken into account.
pub fn safe_moves(board: &Board, you: &Battlesnake) -> (r: Vec<Direction>)
    requires
        you.body@.len() >= 2,
    ensures
        r@ == safe_seq(*board, *you),
        r@.no_duplicates(),
        forall|d: Direction|
            #![trigger r@.contains(d)]
            r@.contains(d) <==> survivable(*board, you.head, you.body@[1], d),
{
    let head = &you.head;
    let neck = &you.body[1];
    let back = reversal(head, neck);
    let mut moves: Vec<Direction> = Vec::new();
    if back != Some(Direction::Up) && valid_step(head, Direction::Up, board) {
        moves.push(Direction::Up);
    }
    if back != Some(Direction::Down) && valid_step(head, Direction::Down, board) {
        moves.push(Direction::Down);
    }
    if back != Some(Direction::Left) && valid_step(head, Direction::Left, board) {
        moves.push(Direction::Left);
    }
    if back != Some(Direction::Right) && valid_step(head, Direction::Right, board) {
        moves.push(Direction::Right);
    }
    proof {
        lemma_safe_seq_members(*board, *you);
        assert(moves@ =~= safe_seq(*board, *you));
    }
    moves
}

/// Relies on rand's `SliceRandom::choose` with the thread-local generator:
/// `None` for an empty slice, otherwise one of its items.
#[verifier::external_body]
fn choose_random(moves: &Vec<Direction>) -> (r: Option<Direction>)
    ensures
        r is None <==> moves@.len() == 0,
        r matches Some(d) ==> moves@.contains(d),
{
    moves.as_slice().choose(&mut rand::thread_rng()).copied()
}

/// Settles the move from the outcome of the random pick: the picked move,
/// or the fixed fallback when there was nothing to pick from.
pub fn settle_move(picked: Option<Direction>) -> (r: Direction)
    ensures
        r == match picked {
            Some(d) => d,
            None => fallback(),
        },
{
    match picked {
        Some(d) => d,
        None => Direction::Up,
    }
}

/// Hook for the start of a game. The decision keeps no state from one turn
/// to the next, so there is nothing to prepare.
pub fn start(_game: &Game, _turn: &u32, _board: &Board, _you: &Battlesnake) {
}

/// Hook for the end of a game. Nothing is kept, so nothing is released.
pub fn end(_game: &Game, _turn: &u32, _board: &Board, _you: &Battlesnake) {
}

/// The fixed description of this snake: protocol version, author, colour
/// and the shapes of head and tail.
pub fn get_info() -> (r: Info)
    ensures
        r.apiversion@ == "1"@,
        r.author@ == "nomad"@,
        r.color@ == "#F09383"@,
        r.head@ == "default"@,
        r.tail@ == "default"@,
{
    Info {
        apiversion: "1".to_owned(),
        author: "nomad".to_owned(),
        color: "#F09383".to_owned(),
        head: "default".to_owned(),
        tail: "default".to_owned(),
    }
}

/// Chooses this turn's move: a move picked at random among those that
/// survive the safety filter, or the fixed fallback when none does. The
/// result is the move's lowercase word.
pub fn get_move(_game: &Game, _turn: &u32, board: &Board, you: &Battlesnake) -> (r: &'static str)
    requires
        you.body@.len() >= 2,
    ensures
        exists|d: Direction|
            {
                &&& r@ == d.token()
                &&& safe_seq(*board, *you).len() == 0 ==> d == fallback()
                &&& safe_seq(*board, *you).len() > 0 ==> survivable(
                    *board,
                    you.head,
                    you.body@[1],
                    d,
                )
            },
{
    let moves = safe_moves(board, you);
    let picked = choose_random(&moves);
    let chosen = settle_move(picked);
    let r = chosen.as_str();
    assert(r@ == chosen.token());
    r
}

} // verus!
