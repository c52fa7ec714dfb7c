//! Pointer-mapping state: viewport dimensions, the currently tracked cell,
//! and the clamp that turns raw pixel positions into on-board cells.

use vstd::prelude::*;

verus! {

/// Pointer state: the viewport size in pixels, the tracked cell, and
/// whether a cell has been hovered at all yet.
#[derive(Clone, Copy, Debug, PartialEq, Eq)]
pub struct Mouse {
    pub dimension: (u32, u32),
    pub coordinate: (u32, u32),
    pub over: bool,
}

impl Mouse {
    /// Where a raw pixel position lands on a board of width `limit` under
    /// the current viewport: each cell spans `dimension / limit` pixels,
    /// and positions past the last cell (or viewports narrower than the
    /// board) map to nothing.
    pub open spec fn spec_clamp(self, raw: (u32, u32), limit: u32) -> Option<(u32, u32)> {
        let sx = self.dimension.0 as int / limit as int;
        let sy = self.dimension.1 as int / limit as int;
        if sx == 0 || sy == 0 {
            None
        } else {
            let cx = raw.0 as int / sx;
            let cy = raw.1 as int / sy;
            if cx < limit as int && cy < limit as int {
                Some(((cx as u32, cy as u32)))
            } else {
                None
            }
        }
    }

    /// Fresh pointer state: nothing tracked yet, no hover.
    pub fn new(dimension: (u32, u32)) -> (r: Mouse)
        ensures
            r.dimension == dimension,
            r.coordinate == ((0u32, 0u32)),
            r.over == false,
    {
        Mouse { dimension, coordinate: (0, 0), over: false }
    }

    pub fn get_dimension(&self) -> (r: (u32, u32))
        ensures
            r == self.dimension,
    {
        self.dimension
    }

    /// Re-anchors the mapping to a new viewport size.
    pub fn set_dimension(&mut self, dimension: (u32, u32))
        ensures
            final(self).dimension == dimension,
            final(self).coordinate == old(self).coordinate,
            final(self).over == old(self).over,
    {
        self.dimension = dimension;
    }

    pub fn get_coordinate(&self) -> (r: (u32, u32))
        ensures
            r == self.coordinate,
    {
        self.coordinate
    }

    /// Tracks a cell; from now on a hover marker can be drawn.
    pub fn set_coordinate(&mut self, coordinate: (u32, u32))
        ensures
            final(self).coordinate == coordinate,
            final(self).over == true,
            final(self).dimension == old(self).dimension,
    {
        self.coordinate = coordinate;
        self.over = true;
    }

    pub fn get_over(&self) -> (r: bool)
        ensures
            r == self.over,
    {
        self.over
    }

    /// Maps a raw pixel position to a cell and accepts it only when the
    /// cell lies on the board.
    pub fn check_inside_window(&self, coordinate: (u32, u32), limit: u32) -> (r: Option<
        (u32, u32),
    >)
        requires
            limit >= 1,
        ensures
            r == self.spec_clamp(coordinate, limit),
            (r matches Some(c) ==> c.0 < limit && c.1 < limit),
    {
        let sx = self.dimension.0 / limit;
        let sy = self.dimension.1 / limit;
        if sx == 0 || sy == 0 {
            None
        } else {
            let cx = coordinate.0 / sx;
            let cy = coordinate.1 / sy;
            if cx < limit && cy < limit {
                Some((cx, cy))
            } else {
                None
            }
        }
    }
}

} // verus!
