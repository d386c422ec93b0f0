//! The grid buffer: the last thing painted in each cell of the screen, and
//! the text that shows it.

use vstd::prelude::*;
use vstd::string::StringExecFns;
use crate::color::FadeColor;

verus! {

/// Relies on `String::push` of std: it appends the character at the end of
/// the string.
pub assume_specification[ String::push ](s: &mut String, ch: char)
    ensures
        final(s)@ == old(s)@.push(ch),
;

/// What a cell of the grid shows.
#[derive(Copy, Clone, Debug, PartialEq, Eq, Structural)]
pub enum GridCell {
    /// Nothing was ever painted here.
    Untouched,
    /// A trail that has fully decayed: the cell is erased.
    Blank,
    /// A glyph at a decay level; level 0 is the head of a drop.
    Glyph { level: usize, glyph: char },
}

/// One write into the grid.
#[derive(Copy, Clone, Debug, PartialEq, Eq, Structural)]
pub struct Stroke {
    pub row: usize,
    pub column: usize,
    pub cell: GridCell,
}

/// The grid `g` after stroke `s`: the cell at its place takes its value,
/// and a stroke outside the grid changes nothing.
pub open spec fn paint_spec(g: Seq<Seq<GridCell>>, s: Stroke) -> Seq<Seq<GridCell>> {
    if s.row < g.len() && s.column < g[s.row as int].len() {
        g.update(s.row as int, g[s.row as int].update(s.column as int, s.cell))
    } else {
        g
    }
}

/// The grid `g` after the strokes of `ss`, first to last.
pub open spec fn apply_strokes(g: Seq<Seq<GridCell>>, ss: Seq<Stroke>) -> Seq<Seq<GridCell>>
    decreases ss.len(),
{
    if ss.len() == 0 {
        g
    } else {
        paint_spec(apply_strokes(g, ss.drop_last()), ss.last())
    }
}

/// The value of the last stroke of `ss` at row `r` and column `c`, if any.
pub open spec fn last_stroke_at(ss: Seq<Stroke>, r: int, c: int) -> Option<GridCell>
    decreases ss.len(),
{
    if ss.len() == 0 {
        None
    } else if ss.last().row == r && ss.last().column == c {
        Some(ss.last().cell)
    } else {
        last_stroke_at(ss.drop_last(), r, c)
    }
}

/// The cell that a snapshot at decay level `level` paints: an erase at the
/// last level, `depth`, and the glyph at its level before that.
pub open spec fn trail_cell_spec(level: usize, glyph: char, depth: usize) -> GridCell {
    if level == depth {
        GridCell::Blank
    } else {
        GridCell::Glyph { level, glyph }
    }
}

/// The cell that a snapshot of `glyph` paints at decay level `level`.
pub fn trail_cell(level: usize, glyph: char, depth: usize) -> (c: GridCell)
    ensures
        c == trail_cell_spec(level, glyph, depth),
        level == depth ==> c == GridCell::Blank,
{
    if level == depth {
        GridCell::Blank
    } else {
        GridCell::Glyph { level, glyph }
    }
}

/// Whether every row of `g` is `width` cells long.
pub open spec fn rows_of(g: Seq<Seq<GridCell>>, width: nat) -> bool {
    forall|r: int| 0 <= r < g.len() ==> (#[trigger] g[r]).len() == width
}

/// Strokes never change the grid's shape.
pub proof fn lemma_strokes_keep_shape(g: Seq<Seq<GridCell>>, ss: Seq<Stroke>, width: nat)
    requires
        rows_of(g, width),
    ensures
        apply_strokes(g, ss).len() == g.len(),
        rows_of(apply_strokes(g, ss), width),
    decreases ss.len(),
{
    if ss.len() > 0 {
        lemma_strokes_keep_shape(g, ss.drop_last(), width);
    }
}

/// Painting `a` and then `b` is painting `a + b`.
pub proof fn lemma_strokes_concat(g: Seq<Seq<GridCell>>, a: Seq<Stroke>, b: Seq<Stroke>)
    ensures
        apply_strokes(g, a + b) == apply_strokes(apply_strokes(g, a), b),
    decreases b.len(),
{
    if b.len() == 0 {
        assert(a + b =~= a);
    } else {
        assert((a + b).drop_last() =~= a + b.drop_last());
        lemma_strokes_concat(g, a, b.drop_last());
    }
}

/// Each cell of the grid, after a run of strokes, holds the value of the
/// last stroke written to it, or what it held before if none was.
pub proof fn lemma_last_stroke_wins(g: Seq<Seq<GridCell>>, ss: Seq<Stroke>, r: int, c: int, width: nat)
    requires
        rows_of(g, width),
        0 <= r < g.len(),
        0 <= c < width,
    ensures
        apply_strokes(g, ss)[r][c] == match last_stroke_at(ss, r, c) {
            Some(v) => v,
            None => g[r][c],
        },
    decreases ss.len(),
{
    if ss.len() > 0 {
        lemma_last_stroke_wins(g, ss.drop_last(), r, c, width);
        lemma_strokes_keep_shape(g, ss.drop_last(), width);
    }
}

/// The last stroke at a cell in `a + b` is the last one of `b` there, or, if
/// `b` writes nothing there, the last one of `a`.
pub proof fn lemma_last_stroke_concat(a: Seq<Stroke>, b: Seq<Stroke>, r: int, c: int)
    ensures
        last_stroke_at(a + b, r, c) == match last_stroke_at(b, r, c) {
            Some(v) => Some(v),
            None => last_stroke_at(a, r, c),
        },
    decreases b.len(),
{
    if b.len() == 0 {
        assert(a + b =~= a);
    } else {
        assert((a + b).drop_last() =~= a + b.drop_last());
        lemma_last_stroke_concat(a, b.drop_last(), r, c);
    }
}

/// The text of one cell: two spaces where nothing was painted, the color
/// of level 0 and two spaces where the cell was erased, and the color of
/// its level followed by the glyph where a glyph was painted.
pub open spec fn cell_text(c: GridCell) -> Seq<char> {
    match c {
        GridCell::Untouched => seq![' ', ' '],
        GridCell::Blank => FadeColor(0).fg_spec() + seq![' ', ' '],
        GridCell::Glyph { level, glyph } => FadeColor(level).fg_spec() + seq![glyph],
    }
}

/// At the last decay level a trail erases its cell, whatever glyph it
/// carried, and so shows the same text for every glyph.
pub proof fn lemma_full_decay_is_blank(a: char, b: char, depth: usize)
    ensures
        trail_cell_spec(depth, a, depth) == GridCell::Blank,
        trail_cell_spec(depth, a, depth) == trail_cell_spec(depth, b, depth),
        cell_text(trail_cell_spec(depth, a, depth)) == cell_text(
            trail_cell_spec(depth, b, depth),
        ),
        cell_text(trail_cell_spec(depth, a, depth)) == FadeColor(0).fg_spec() + seq![' ', ' '],
{
}

/// The text of a row: the texts of its cells, left to right.
pub open spec fn row_text(cells: Seq<GridCell>) -> Seq<char>
    decreases cells.len(),
{
    if cells.len() == 0 {
        Seq::empty()
    } else {
        row_text(cells.drop_last()) + cell_text(cells.last())
    }
}

/// The cells of a screen `width` cells wide and `height` rows high, row by
/// row.
pub struct GridBuffer {
    cells: Vec<Vec<GridCell>>,
    width: usize,
    height: usize,
}

impl View for GridBuffer {
    type V = Seq<Seq<GridCell>>;

    /// The cells, row by row.
    closed spec fn view(&self) -> Seq<Seq<GridCell>> {
        self.cells@.map_values(|r: Vec<GridCell>| r@)
    }
}

impl GridBuffer {
    pub closed spec fn width_spec(&self) -> nat {
        self.width as nat
    }

    pub closed spec fn height_spec(&self) -> nat {
        self.height as nat
    }

    /// `height` rows of `width` cells each.
    pub open spec fn wf(&self) -> bool {
        &&& self@.len() == self.height_spec()
        &&& rows_of(self@, self.width_spec())
    }

    /// A grid where nothing has been painted yet.
    pub fn new(width: usize, height: usize) -> (g: GridBuffer)
        ensures
            g.wf(),
            g.width_spec() == width,
            g.height_spec() == height,
            forall|r: int, c: int|
                0 <= r < height && 0 <= c < width ==> #[trigger] g@[r][c] == GridCell::Untouched,
    {
        let mut cells: Vec<Vec<GridCell>> = Vec::new();
        let mut r: usize = 0;
        while r < height
            invariant
                r <= height,
                cells@.len() == r,
                forall|i: int| 0 <= i < r ==> (#[trigger] cells@[i])@.len() == width,
                forall|i: int, c: int|
                    0 <= i < r && 0 <= c < width ==> #[trigger] cells@[i]@[c] == GridCell::Untouched,
            decreases height - r,
        {
            let mut row: Vec<GridCell> = Vec::new();
            let mut c: usize = 0;
            while c < width
                invariant
                    c <= width,
                    row@.len() == c,
                    forall|j: int| 0 <= j < c ==> #[trigger] row@[j] == GridCell::Untouched,
                decreases width - c,
            {
                row.push(GridCell::Untouched);
                c = c + 1;
            }
            cells.push(row);
            r = r + 1;
        }
        GridBuffer { cells, width, height }
    }

    /// Writes `s.cell` at `s.row`, `s.column`. A stroke outside the grid is
    /// dropped without a word: a drop just below the screen is expected.
    pub fn paint(&mut self, s: Stroke)
        requires
            old(self).wf(),
        ensures
            final(self).wf(),
            final(self).width_spec() == old(self).width_spec(),
            final(self).height_spec() == old(self).height_spec(),
            final(self)@ == paint_spec(old(self)@, s),
    {
        if s.row < self.height && s.column < self.width {
            proof {
                assert(self.cells@[s.row as int]@.len() == self@[s.row as int].len());
            }
            self.cells[s.row].set(s.column, s.cell);
            proof {
                assert(self@ =~= paint_spec(old(self)@, s));
            }
        } else {
            proof {
                assert(self@ =~= paint_spec(old(self)@, s));
            }
        }
    }

    /// The cell at row `r`, column `c`.
    pub fn cell(&self, r: usize, c: usize) -> (v: GridCell)
        requires
            self.wf(),
            r < self.height_spec(),
            c < self.width_spec(),
        ensures
            v == self@[r as int][c as int],
    {
        self.cells[r][c]
    }

    /// The screen width, in cells.
    pub fn width(&self) -> (w: usize)
        ensures
            w == self.width_spec(),
    {
        self.width
    }

    /// The screen height, in rows.
    pub fn height(&self) -> (h: usize)
        ensures
            h == self.height_spec(),
    {
        self.height
    }
    /// The text of row `r`: the texts of its cells, left to right.
    pub fn render_row(&self, r: usize) -> (t: String)
        requires
            self.wf(),
            r < self.height_spec(),
        ensures
            t@ == row_text(self@[r as int]),
    {
        let ghost cells = self@[r as int];
        let row = &self.cells[r];
        assert(row@ == cells);
        let mut out = String::new();
        let mut c: usize = 0;
        while c < self.width
            invariant
                self.wf(),
                r < self.height_spec(),
                row@ == cells,
                cells == self@[r as int],
                c <= self.width,
                out@ == row_text(cells.take(c as int)),
            decreases self.width - c,
        {
            let ghost before = out@;
            match row[c] {
                GridCell::Untouched => {
                    proof { reveal_strlit("  "); }
                    out.append("  ");
                },
                GridCell::Blank => {
                    proof { reveal_strlit("  "); }
                    out.append(FadeColor(0).fg_str());
                    out.append("  ");
                },
                GridCell::Glyph { level, glyph } => {
                    out.append(FadeColor(level).fg_str());
                    out.push(glyph);
                },
            }
            proof {
                assert(cells.take(c + 1).drop_last() =~= cells.take(c as int));
                assert(out@ =~= before + cell_text(cells[c as int]));
            }
            c = c + 1;
        }
        assert(cells.take(c as int) =~= cells);
        out
    }
}

} // verus!
