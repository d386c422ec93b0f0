//! A single falling glyph, and the snapshot of it that its trail keeps.

use vstd::prelude::*;
use crate::chance::random_below;
use crate::grid::{paint_spec, trail_cell, trail_cell_spec, GridBuffer, Stroke};
use crate::palette::{is_glyph, random_glyph};

verus! {

/// Fall periods are drawn from `1..FALL_PERIOD_END`.
pub const FALL_PERIOD_END: usize = 6;

/// Glyph periods are drawn from `1..GLYPH_PERIOD_END`.
pub const GLYPH_PERIOD_END: usize = 10;

/// Where a drop was, and what it showed, at one frame.
#[derive(Copy, Clone, Debug, PartialEq, Eq, Structural)]
pub struct Snapshot {
    pub column: usize,
    pub row: usize,
    pub glyph: char,
}

/// A falling glyph. It moves one row down on the frames whose counter is a
/// multiple of `fall_period`, and takes a new glyph on the frames whose
/// counter is a multiple of `glyph_period`.
#[derive(Copy, Clone, Debug, PartialEq, Eq, Structural)]
pub struct DigitDrop {
    pub column: usize,
    pub row: usize,
    pub height: usize,
    pub glyph: char,
    pub fall_period: u64,
    pub glyph_period: u64,
}

impl DigitDrop {
    /// Both cadences are at least one frame.
    pub open spec fn wf(&self) -> bool {
        self.fall_period >= 1 && self.glyph_period >= 1
    }

    /// Whether the drop moves down on frame `step`.
    pub open spec fn moves_at(&self, step: u64) -> bool {
        step % self.fall_period == 0
    }

    /// Whether the drop takes a new glyph on frame `step`.
    pub open spec fn resamples_at(&self, step: u64) -> bool {
        step % self.glyph_period == 0
    }

    /// The drop after frame `step`, where `fresh` is the glyph it takes if
    /// the frame is one of its resampling frames.
    pub open spec fn advanced(self, step: u64, fresh: char) -> DigitDrop {
        DigitDrop {
            row: if self.moves_at(step) { (self.row + 1) as usize } else { self.row },
            glyph: if self.resamples_at(step) { fresh } else { self.glyph },
            ..self
        }
    }

    /// The snapshot of the drop as it is now.
    pub open spec fn snap(self) -> Snapshot {
        Snapshot { column: self.column, row: self.row, glyph: self.glyph }
    }

    /// The stroke that paints the drop at decay level `level` of trails
    /// `depth` frames long.
    pub open spec fn stroke(self, level: usize, depth: usize) -> Stroke {
        Stroke { row: self.row, column: self.column, cell: trail_cell_spec(level, self.glyph, depth) }
    }

    /// Whether the drop has gone past the bottom of a screen of its height.
    pub open spec fn gone(self) -> bool {
        self.row > self.height
    }

    /// What holds of every drop that `new` may return.
    pub open spec fn is_fresh(self, column: usize, row: usize, height: usize) -> bool {
        &&& self.column == column
        &&& self.row == row
        &&& self.height == height
        &&& is_glyph(self.glyph)
        &&& 1 <= self.fall_period < FALL_PERIOD_END
        &&& 1 <= self.glyph_period < GLYPH_PERIOD_END
    }

    /// A drop at the given place, with a random glyph and random cadences.
    pub fn new(column: usize, row: usize, height: usize) -> (d: DigitDrop)
        ensures
            d.is_fresh(column, row, height),
            d.wf(),
    {
        let glyph = random_glyph();
        let fall = random_below(1, FALL_PERIOD_END);
        let again = random_below(1, GLYPH_PERIOD_END);
        DigitDrop {
            column,
            row,
            height,
            glyph,
            fall_period: fall as u64,
            glyph_period: again as u64,
        }
    }

    /// Plays frame `step`: moves down one row if the frame is one of the
    /// drop's fall frames, and shows `fresh` if it is one of its glyph frames.
    /// The row never goes up and never moves by more than one.
    pub fn action(&mut self, step: u64, fresh: char)
        requires
            old(self).wf(),
            old(self).row < usize::MAX,
        ensures
            *final(self) == old(self).advanced(step, fresh),
            final(self).row == old(self).row || final(self).row == old(self).row + 1,
            final(self).wf(),
    {
        if step % self.fall_period == 0 {
            self.row = self.row + 1;
        }
        if step % self.glyph_period == 0 {
            self.glyph = fresh;
        }
    }

    /// Paints the drop into `grid` at decay level `fade_level`: its glyph,
    /// or an erase at the last level, `depth`. Nothing is painted when the
    /// drop is outside the grid.
    pub fn print(&self, grid: &mut GridBuffer, fade_level: usize, depth: usize)
        requires
            old(grid).wf(),
        ensures
            final(grid).wf(),
            final(grid).width_spec() == old(grid).width_spec(),
            final(grid).height_spec() == old(grid).height_spec(),
            final(grid)@ == paint_spec(old(grid)@, self.stroke(fade_level, depth)),
    {
        grid.paint(Stroke { row: self.row, column: self.column, cell: trail_cell(fade_level, self.glyph, depth) });
    }

    /// Whether the drop has gone past the bottom: its row is greater than
    /// the height. A drop on the row just below the screen stays for one
    /// more frame.
    pub fn is_out_of_screen(&self) -> (r: bool)
        ensures
            r == self.gone(),
    {
        self.row > self.height
    }

    /// The snapshot of the drop as it is now.
    pub fn snapshot(&self) -> (s: Snapshot)
        ensures
            s == self.snap(),
    {
        Snapshot { column: self.column, row: self.row, glyph: self.glyph }
    }
}

} // verus!
