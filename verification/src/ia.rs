//! The decision engine consulted for an automated side's move.

use vstd::prelude::*;
use crate::board::GoBoard;
use crate::board::Team;
use crate::board::Tile;

verus! {

/// Cell (x, y) is the first free cell of the board in row-by-row scan
/// order: it is free, and every cell before it is taken.
pub open spec fn is_first_free(b: GoBoard, x: int, y: int) -> bool {
    &&& b.in_bounds(x, y)
    &&& b.at(x, y) == Tile::Free
    &&& forall|a: int, c: int|
            b.in_bounds(a, c) && (a < x || (a == x && c < y)) ==> b.at(a, c) != Tile::Free
}

/// The move-search routine for automated sides.
pub struct Decision {}

impl Decision {
    /// Chooses the move for `team`, the side to play; `teams` pairs it
    /// with its opponent and `layer` bounds the look-ahead. The cell
    /// returned is always legal: in bounds and free — this engine takes
    /// the first free cell in scan order, whatever the sides and depth.
    #[allow(unused_variables)]
    pub fn get_optimal_move(board: &GoBoard, teams: &(Team, Team), team: Team, layer: u32) -> (r:
        (usize, usize))
        requires
            board.wf(),
            board.spec_has_free(),
        ensures
            is_first_free(*board, r.0 as int, r.1 as int),
    {
        let size = board.get_size();
        let mut x: usize = 0;
        while x < size
            invariant
                board.wf(),
                size == board.size,
                x <= size,
                forall|a: int, c: int|
                    0 <= a < x && 0 <= c < size ==> board.at(a, c) != Tile::Free,
            decreases size - x,
        {
            let mut y: usize = 0;
            while y < size
                invariant
                    board.wf(),
                    size == board.size,
                    x < size,
                    y <= size,
                    forall|a: int, c: int|
                        0 <= a < x && 0 <= c < size ==> board.at(a, c) != Tile::Free,
                    forall|c: int| 0 <= c < y ==> board.at(x as int, c) != Tile::Free,
                decreases size - y,
            {
                if board.get((x, y)) == Tile::Free {
                    return (x, y);
                }
                y = y + 1;
            }
            x = x + 1;
        }
        proof {
            let (wx, wy): (int, int) = choose|a: int, c: int|
                board.in_bounds(a, c) && board.at(a, c) == Tile::Free;
            assert(board.at(wx, wy) != Tile::Free);
            assert(false);
        }
        (0, 0)
    }
}

} // verus!
