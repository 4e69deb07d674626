use vstd::prelude::*;

use crate::logic::{in_bounds, lemma_safe_seq_members, safe_seq, safe_set, survivable};
use crate::model::{Battlesnake, Board, Coord, Direction};

verus! {

/// Whether `neck` lies in direction `d` from `head`, on the same row or
/// column.
pub open spec fn points_back(head: Coord, neck: Coord, d: Direction) -> bool {
    match d {
        Direction::Up => neck.x == head.x && neck.y > head.y,
        Direction::Down => neck.x == head.x && neck.y < head.y,
        Direction::Left => neck.y == head.y && neck.x < head.x,
        Direction::Right => neck.y == head.y && neck.x > head.x,
    }
}

/// Head and neck differ along exactly one axis.
pub open spec fn one_axis_apart(head: Coord, neck: Coord) -> bool {
    (head.x == neck.x) != (head.y == neck.y)
}

/// On a board of width `w` and height `h`, a cell with `x == 0`, `y == 0`,
/// `x == w` or `y == h` is rejected, and a cell with `0 < x < w` and
/// `0 < y < h` is accepted.
pub proof fn lemma_boundary_rejection(board: Board, c: Coord)
    requires
        board.width > 0,
        board.height > 0,
    ensures
        c.x == 0 || c.y == 0 || c.x == board.width || c.y == board.height ==> !in_bounds(
            c.x as int,
            c.y as int,
            board,
        ),
        0 < c.x < board.width && 0 < c.y < board.height ==> in_bounds(
            c.x as int,
            c.y as int,
            board,
        ),
{
}

/// When head and neck differ along exactly one axis, the move from the head
/// towards the neck is never among the surviving moves, whatever the board.
pub proof fn lemma_neck_never_offered(board: Board, you: Battlesnake, d: Direction)
    requires
        you.body@.len() >= 2,
        one_axis_apart(you.head, you.body@[1]),
        points_back(you.head, you.body@[1], d),
    ensures
        !survivable(board, you.head, you.body@[1], d),
        !safe_seq(board, you).contains(d),
{
    lemma_safe_seq_members(board, you);
}

/// Two runs of the filter on the same board and snake give the same set of
/// surviving moves: the set of moves that pass both rules.
pub proof fn lemma_filter_deterministic(
    board: Board,
    you: Battlesnake,
    first: Seq<Direction>,
    second: Seq<Direction>,
)
    requires
        you.body@.len() >= 2,
        first == safe_seq(board, you),
        second == safe_seq(board, you),
    ensures
        first.to_set() == second.to_set(),
        first.to_set() == safe_set(board, you),
{
    lemma_safe_seq_members(board, you);
    assert(first.to_set() =~= safe_set(board, you));
}

/// Filtering twice on identical input yields identical results: the filter
/// reads nothing but its arguments.
pub proof fn lemma_filter_repeatable(
    board: Board,
    you: Battlesnake,
    first: Seq<Direction>,
    second: Seq<Direction>,
)
    requires
        first == safe_seq(board, you),
        second == safe_seq(board, you),
    ensures
        first == second,
{
}

} // verus!
