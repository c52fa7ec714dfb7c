//! The placement grid: tiles, the two sides, legality-checked and trusted
//! placement, and the terminal (five-in-a-row) check.

use vstd::prelude::*;

verus! {

/// Width of the default grid.
pub const GO_WIDTH: usize = 19;

/// Contents of one cell of the grid.
#[derive(Clone, Copy, Debug, PartialEq, Eq, Structural)]
pub enum Tile {
    Free,
    Black,
    White,
}

/// One of the two competing sides of a session; it carries the marker
/// value written to the board on its moves.
#[derive(Clone, Copy, Debug, PartialEq, Eq, Structural)]
pub enum Team {
    Black,
    White,
}

impl Team {
    /// The marker this side places, as a specification value.
    pub open spec fn spec_tile(self) -> Tile {
        match self {
            Team::Black => Tile::Black,
            Team::White => Tile::White,
        }
    }

    /// The marker value this side places on the board; never the free one.
    pub fn get_tile(&self) -> (t: Tile)
        ensures
            t == self.spec_tile(),
            t != Tile::Free,
    {
        match self {
            Team::Black => Tile::Black,
            Team::White => Tile::White,
        }
    }

    /// Produces the matched pair of sides for one session; the two are
    /// always distinct, and so are their markers.
    pub fn new_teams() -> (r: (Team, Team))
        ensures
            r.0 != r.1,
            r.0.spec_tile() != r.1.spec_tile(),
    {
        (Team::Black, Team::White)
    }
}

/// The square placement grid, stored row by row.
pub struct GoBoard {
    pub size: usize,
    pub tiles: Vec<Tile>,
}

impl GoBoard {
    /// A well-formed board is non-empty and square.
    pub open spec fn wf(self) -> bool {
        &&& 1 <= self.size
        &&& self.tiles@.len() == self.size * self.size
    }

    /// Index of cell (x, y) in the row-by-row tile storage.
    pub open spec fn idx(self, x: int, y: int) -> int {
        x * self.size + y
    }

    /// The tile at cell (x, y).
    pub open spec fn at(self, x: int, y: int) -> Tile {
        self.tiles@[self.idx(x, y)]
    }

    pub open spec fn in_bounds(self, x: int, y: int) -> bool {
        0 <= x < self.size && 0 <= y < self.size
    }

    /// Some cell of the board is still free.
    pub open spec fn spec_has_free(self) -> bool {
        exists|x: int, y: int| self.in_bounds(x, y) && self.at(x, y) == Tile::Free
    }

    pub proof fn lemma_idx_bounds(self, x: int, y: int)
        requires
            self.wf(),
            self.in_bounds(x, y),
        ensures
            0 <= self.idx(x, y) < self.size * self.size,
    {
        assert(0 <= x * self.size + y < self.size * self.size) by (nonlinear_arith)
            requires
                0 <= x < self.size,
                0 <= y < self.size,
        ;
    }

    pub proof fn lemma_idx_injective(self, x1: int, y1: int, x2: int, y2: int)
        requires
            self.wf(),
            self.in_bounds(x1, y1),
            self.in_bounds(x2, y2),
            self.idx(x1, y1) == self.idx(x2, y2),
        ensures
            x1 == x2 && y1 == y2,
    {
        assert(x1 == x2 && y1 == y2) by (nonlinear_arith)
            requires
                0 <= x1 < self.size,
                0 <= y1 < self.size,
                0 <= x2 < self.size,
                0 <= y2 < self.size,
                x1 * self.size + y1 == x2 * self.size + y2,
        ;
    }

    /// A fresh board of the given width with every cell free.
    pub fn new(size: usize) -> (r: GoBoard)
        requires
            1 <= size,
            size * size <= usize::MAX,
        ensures
            r.wf(),
            r.size == size,
            forall|x: int, y: int| r.in_bounds(x, y) ==> r.at(x, y) == Tile::Free,
    {
        let n = size * size;
        let mut tiles: Vec<Tile> = Vec::new();
        let mut i: usize = 0;
        while i < n
            invariant
                i <= n,
                tiles@.len() == i,
                forall|j: int| 0 <= j < i ==> tiles@[j] == Tile::Free,
            decreases n - i,
        {
            tiles.push(Tile::Free);
            i = i + 1;
        }
        let r = GoBoard { size, tiles };
        proof {
            assert forall|x: int, y: int| r.in_bounds(x, y) implies r.at(x, y) == Tile::Free by {
                r.lemma_idx_bounds(x, y);
            }
        }
        r
    }

    pub fn get_size(&self) -> (r: usize)
        ensures
            r == self.size,
    {
        self.size
    }

    /// The tile at the given cell.
    pub fn get(&self, coordinate: (usize, usize)) -> (t: Tile)
        requires
            self.wf(),
            self.in_bounds(coordinate.0 as int, coordinate.1 as int),
        ensures
            t == self.at(coordinate.0 as int, coordinate.1 as int),
    {
        let n = self.tiles.len();
        proof {
            self.lemma_idx_bounds(coordinate.0 as int, coordinate.1 as int);
            assert(n == self.size * self.size);
        }
        self.tiles[coordinate.0 * self.size + coordinate.1]
    }

    /// Unconditional placement: writes the marker with no legality check
    /// (the trusted path used for pre-validated engine moves).
    pub fn set_raw(&mut self, coordinate: (usize, usize), tile: Tile)
        requires
            old(self).wf(),
            old(self).in_bounds(coordinate.0 as int, coordinate.1 as int),
        ensures
            final(self).wf(),
            final(self).size == old(self).size,
            final(self).at(coordinate.0 as int, coordinate.1 as int) == tile,
            forall|x: int, y: int|
                old(self).in_bounds(x, y) && (x != coordinate.0 as int || y != coordinate.1 as int)
                    ==> final(self).at(x, y) == old(self).at(x, y),
    {
        let n = self.tiles.len();
        proof {
            self.lemma_idx_bounds(coordinate.0 as int, coordinate.1 as int);
            assert(n == self.size * self.size);
        }
        let i = coordinate.0 * self.size + coordinate.1;
        self.tiles[i] = tile;
        proof {
            assert forall|x: int, y: int|
                old(self).in_bounds(x, y) && (x != coordinate.0 as int || y != coordinate.1 as int)
                    implies self.at(x, y) == old(self).at(x, y) by {
                self.lemma_idx_bounds(x, y);
                if self.idx(x, y) == self.idx(coordinate.0 as int, coordinate.1 as int) {
                    self.lemma_idx_injective(x, y, coordinate.0 as int, coordinate.1 as int);
                }
            }
        }
    }

    /// Attempted placement for a side: succeeds exactly when the cell is
    /// free, and only then writes the side's marker and reports true.
    pub fn set(&mut self, coordinate: (usize, usize), team: &Team) -> (r: bool)
        requires
            old(self).wf(),
            old(self).in_bounds(coordinate.0 as int, coordinate.1 as int),
        ensures
            final(self).wf(),
            final(self).size == old(self).size,
            r == (old(self).at(coordinate.0 as int, coordinate.1 as int) == Tile::Free),
            r ==> placed(
                *old(self),
                *final(self),
                coordinate.0 as int,
                coordinate.1 as int,
                team.spec_tile(),
            ),
            !r ==> *final(self) == *old(self),
    {
        if self.get(coordinate) == Tile::Free {
            let tile = team.get_tile();
            self.set_raw(coordinate, tile);
            true
        } else {
            false
        }
    }

    /// Reports whether some cell is still free.
    pub fn has_free(&self) -> (r: bool)
        requires
            self.wf(),
        ensures
            r == self.spec_has_free(),
    {
        let size = self.get_size();
        let mut x: usize = 0;
        while x < size
            invariant
                self.wf(),
                size == self.size,
                x <= size,
                forall|a: int, c: int| 0 <= a < x && 0 <= c < size ==> self.at(a, c) != Tile::Free,
            decreases size - x,
        {
            let mut y: usize = 0;
            while y < size
                invariant
                    self.wf(),
                    size == self.size,
                    x < size,
                    y <= size,
                    forall|a: int, c: int| 0 <= a < x && 0 <= c < size ==> self.at(a, c) != Tile::Free,
                    forall|c: int| 0 <= c < y ==> self.at(x as int, c) != Tile::Free,
                decreases size - y,
            {
                if self.get((x, y)) == Tile::Free {
                    assert(self.in_bounds(x as int, y as int) && self.at(x as int, y as int) == Tile::Free);
                    return true;
                }
                y = y + 1;
            }
            x = x + 1;
        }
        proof {
            if self.spec_has_free() {
                let (wx, wy): (int, int) =
                    choose|a: int, c: int| self.in_bounds(a, c) && self.at(a, c) == Tile::Free;
                assert(self.at(wx, wy) != Tile::Free);
            }
        }
        false
    }
    /// Unit steps of the four scan directions: east, south, south-east and
    /// north-east.
    pub open spec fn dir_delta(d: int) -> (int, int) {
        if d == 0 {
            (1int, 0int)
        } else if d == 1 {
            (0int, 1int)
        } else if d == 2 {
            (1int, 1int)
        } else {
            (1int, -1int)
        }
    }

    /// Cell (x, y) is on the board and holds tile t.
    pub open spec fn cell_is(self, t: Tile, x: int, y: int) -> bool {
        self.in_bounds(x, y) && self.at(x, y) == t
    }

    /// The five cells starting at (sx, sy) and stepping by (dx, dy) are all
    /// on the board and all hold tile t.
    pub open spec fn run_of_five(self, t: Tile, sx: int, sy: int, dx: int, dy: int) -> bool {
        &&& self.cell_is(t, sx, sy)
        &&& self.cell_is(t, sx + dx, sy + dy)
        &&& self.cell_is(t, sx + 2 * dx, sy + 2 * dy)
        &&& self.cell_is(t, sx + 3 * dx, sy + 3 * dy)
        &&& self.cell_is(t, sx + 4 * dx, sy + 4 * dy)
    }

    /// The window of five cells in scan direction d whose k-th cell is
    /// (x, y) holds tile t throughout.
    pub open spec fn window_hit(self, t: Tile, x: int, y: int, d: int, k: int) -> bool {
        let dx = Self::dir_delta(d).0;
        let dy = Self::dir_delta(d).1;
        self.run_of_five(t, x - k * dx, y - k * dy, dx, dy)
    }

    /// A winning line runs through cell (x, y): the cell holds a side's
    /// marker and lies on five consecutive equal cells in some direction.
    pub open spec fn wins_at(self, x: int, y: int) -> bool {
        &&& self.at(x, y) != Tile::Free
        &&& exists|d: int, k: int|
                0 <= d < 4 && 0 <= k < 5 && self.window_hit(self.at(x, y), x, y, d, k)
    }

    /// Checks one window: does the window of five cells in direction d
    /// whose k-th cell is (x, y) hold tile t throughout?
    fn window_at_wins(&self, t: Tile, x: usize, y: usize, d: usize, k: usize) -> (r: bool)
        requires
            self.wf(),
            self.in_bounds(x as int, y as int),
            d < 4,
            k < 5,
        ensures
            r == self.window_hit(t, x as int, y as int, d as int, k as int),
    {
        let size = self.get_size();
        let ghost xi: int = x as int;
        let ghost yi: int = y as int;
        let ghost ki: int = k as int;
        let ghost si: int = self.size as int;
        if d == 0 {
            if k <= x && size - (x - k) > 4 {
                let sx = x - k;
                let r = self.get((sx, y)) == t && self.get((sx + 1, y)) == t
                    && self.get((sx + 2, y)) == t && self.get((sx + 3, y)) == t
                    && self.get((sx + 4, y)) == t;
                proof {
                    if r {
                        assert(self.cell_is(t, xi - ki * 1, yi - ki * 0));
                        assert(self.cell_is(t, xi - ki * 1 + 1 * 1, yi - ki * 0 + 1 * 0));
                        assert(self.cell_is(t, xi - ki * 1 + 2 * 1, yi - ki * 0 + 2 * 0));
                        assert(self.cell_is(t, xi - ki * 1 + 3 * 1, yi - ki * 0 + 3 * 0));
                        assert(self.cell_is(t, xi - ki * 1 + 4 * 1, yi - ki * 0 + 4 * 0));
                        assert(self.window_hit(t, xi, yi, d as int, ki));
                    } else {
                        assert(!self.window_hit(t, xi, yi, d as int, ki));
                    }
                }
                r
            } else {
                proof {
                    if ki > xi {
                        assert(!self.cell_is(t, xi - ki * 1, yi - ki * 0));
                    } else {
                        assert(!self.cell_is(t, xi - ki * 1 + 4 * 1, yi - ki * 0 + 4 * 0));
                    }
                    assert(!self.window_hit(t, xi, yi, d as int, ki));
                }
                false
            }
        } else if d == 1 {
            if k <= y && size - (y - k) > 4 {
                let sy = y - k;
                let r = self.get((x, sy)) == t && self.get((x, sy + 1)) == t
                    && self.get((x, sy + 2)) == t && self.get((x, sy + 3)) == t
                    && self.get((x, sy + 4)) == t;
                proof {
                    if r {
                        assert(self.cell_is(t, xi - ki * 0, yi - ki * 1));
                        assert(self.cell_is(t, xi - ki * 0 + 1 * 0, yi - ki * 1 + 1 * 1));
                        assert(self.cell_is(t, xi - ki * 0 + 2 * 0, yi - ki * 1 + 2 * 1));
                        assert(self.cell_is(t, xi - ki * 0 + 3 * 0, yi - ki * 1 + 3 * 1));
                        assert(self.cell_is(t, xi - ki * 0 + 4 * 0, yi - ki * 1 + 4 * 1));
                        assert(self.window_hit(t, xi, yi, d as int, ki));
                    } else {
                        assert(!self.window_hit(t, xi, yi, d as int, ki));
                    }
                }
                r
            } else {
                proof {
                    if ki > yi {
                        assert(!self.cell_is(t, xi - ki * 0, yi - ki * 1));
                    } else {
                        assert(!self.cell_is(t, xi - ki * 0 + 4 * 0, yi - ki * 1 + 4 * 1));
                    }
                    assert(!self.window_hit(t, xi, yi, d as int, ki));
                }
                false
            }
        } else if d == 2 {
            if k <= x && k <= y && size - (x - k) > 4 && size - (y - k) > 4 {
                let sx = x - k;
                let sy = y - k;
                let r = self.get((sx, sy)) == t && self.get((sx + 1, sy + 1)) == t
                    && self.get((sx + 2, sy + 2)) == t && self.get((sx + 3, sy + 3)) == t
                    && self.get((sx + 4, sy + 4)) == t;
                proof {
                    if r {
                        assert(self.cell_is(t, xi - ki * 1, yi - ki * 1));
                        assert(self.cell_is(t, xi - ki * 1 + 1 * 1, yi - ki * 1 + 1 * 1));
                        assert(self.cell_is(t, xi - ki * 1 + 2 * 1, yi - ki * 1 + 2 * 1));
                        assert(self.cell_is(t, xi - ki * 1 + 3 * 1, yi - ki * 1 + 3 * 1));
                        assert(self.cell_is(t, xi - ki * 1 + 4 * 1, yi - ki * 1 + 4 * 1));
                        assert(self.window_hit(t, xi, yi, d as int, ki));
                    } else {
                        assert(!self.window_hit(t, xi, yi, d as int, ki));
                    }
                }
                r
            } else {
                proof {
                    if ki > xi || ki > yi {
                        assert(!self.cell_is(t, xi - ki * 1, yi - ki * 1));
                    } else if xi - ki + 4 >= si {
                        assert(!self.cell_is(t, xi - ki * 1 + 4 * 1, yi - ki * 1 + 4 * 1));
                    } else {
                        assert(!self.cell_is(t, xi - ki * 1 + 4 * 1, yi - ki * 1 + 4 * 1));
                    }
                    assert(!self.window_hit(t, xi, yi, d as int, ki));
                }
                false
            }
        } else {
            if k <= x && size - (x - k) > 4 && k < size - y && y + k >= 4 {
                let sx = x - k;
                let sy = y + k;
                let r = self.get((sx, sy)) == t && self.get((sx + 1, sy - 1)) == t
                    && self.get((sx + 2, sy - 2)) == t && self.get((sx + 3, sy - 3)) == t
                    && self.get((sx + 4, sy - 4)) == t;
                proof {
                    if r {
                        assert(self.cell_is(t, xi - ki * 1, yi - ki * (-1)));
                        assert(self.cell_is(t, xi - ki * 1 + 1 * 1, yi - ki * (-1) + 1 * (-1)));
                        assert(self.cell_is(t, xi - ki * 1 + 2 * 1, yi - ki * (-1) + 2 * (-1)));
                        assert(self.cell_is(t, xi - ki * 1 + 3 * 1, yi - ki * (-1) + 3 * (-1)));
                        assert(self.cell_is(t, xi - ki * 1 + 4 * 1, yi - ki * (-1) + 4 * (-1)));
                        assert(self.window_hit(t, xi, yi, d as int, ki));
                    } else {
                        assert(!self.window_hit(t, xi, yi, d as int, ki));
                    }
                }
                r
            } else {
                proof {
                    if ki > xi {
                        assert(!self.cell_is(t, xi - ki * 1, yi - ki * (-1)));
                    } else if xi - ki + 4 >= si {
                        assert(!self.cell_is(t, xi - ki * 1 + 4 * 1, yi - ki * (-1) + 4 * (-1)));
                    } else if yi + ki >= si {
                        assert(!self.cell_is(t, xi - ki * 1, yi - ki * (-1)));
                    } else {
                        assert(yi + ki < 4);
                        assert(!self.cell_is(t, xi - ki * 1 + 4 * 1, yi - ki * (-1) + 4 * (-1)));
                    }
                    assert(!self.window_hit(t, xi, yi, d as int, ki));
                }
                false
            }
        }
    }

    /// Terminal check at the cell just played: reports the marker at
    /// (x, y) exactly when a winning line runs through that cell.
    pub fn is_win(&self, x: usize, y: usize) -> (r: Option<Tile>)
        requires
            self.wf(),
            self.in_bounds(x as int, y as int),
        ensures
            r == win_result(*self, x as int, y as int),
    {
        let t = self.get((x, y));
        if t == Tile::Free {
            return None;
        }
        let mut d: usize = 0;
        while d < 4
            invariant
                self.wf(),
                self.in_bounds(x as int, y as int),
                t == self.at(x as int, y as int),
                t != Tile::Free,
                d <= 4,
                forall|dd: int, kk: int|
                    0 <= dd < d && 0 <= kk < 5 ==> !self.window_hit(t, x as int, y as int, dd, kk),
            decreases 4 - d,
        {
            let mut k: usize = 0;
            while k < 5
                invariant
                    self.wf(),
                    self.in_bounds(x as int, y as int),
                    t == self.at(x as int, y as int),
                    t != Tile::Free,
                    d < 4,
                    k <= 5,
                    forall|dd: int, kk: int|
                        0 <= dd < d && 0 <= kk < 5
                            ==> !self.window_hit(t, x as int, y as int, dd, kk),
                    forall|kk: int|
                        0 <= kk < k ==> !self.window_hit(t, x as int, y as int, d as int, kk),
                decreases 5 - k,
            {
                if self.window_at_wins(t, x, y, d, k) {
                    assert(self.wins_at(x as int, y as int));
                    return Some(t);
                }
                k = k + 1;
            }
            d = d + 1;
        }
        assert(!self.wins_at(x as int, y as int));
        None
    }
}

impl Default for GoBoard {
    /// The default grid: nineteen by nineteen, all cells free.
    fn default() -> (r: GoBoard)
        ensures
            r.wf(),
            r.size == GO_WIDTH,
            forall|x: int, y: int| r.in_bounds(x, y) ==> r.at(x, y) == Tile::Free,
    {
        GoBoard::new(GO_WIDTH)
    }
}

/// What the terminal check reports at cell (x, y).
pub open spec fn win_result(b: GoBoard, x: int, y: int) -> Option<Tile> {
    if b.wins_at(x, y) {
        Some(b.at(x, y))
    } else {
        None
    }
}

/// b2 is exactly b1 with tile t written at cell (x, y).
pub open spec fn placed(b1: GoBoard, b2: GoBoard, x: int, y: int, t: Tile) -> bool {
    &&& b2.wf()
    &&& b2.size == b1.size
    &&& b2.at(x, y) == t
    &&& forall|a: int, c: int| b1.in_bounds(a, c) && (a != x || c != y) ==> b2.at(a, c) == b1.at(a, c)
}

} // verus!
