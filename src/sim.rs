//! One screen of rain: the drop pool, the trail ledger and the grid buffer,
//! and the frame that moves them on together.

use vstd::prelude::*;
use crate::grid::{
    apply_strokes, last_stroke_at, lemma_last_stroke_concat, lemma_last_stroke_wins,
    lemma_strokes_concat, trail_cell, trail_cell_spec, GridBuffer, GridCell, Stroke,
};
use crate::ledger::{record_spec, TrailLedger};
use crate::palette::{is_glyph, palette, random_glyph_from};
use crate::pool::{advance_seq, snap_seq, spawn_count, survivors, DropPool};
use crate::raindrop::{DigitDrop, Snapshot};

verus! {

/// Trail frames kept by default, the last of which erases.
pub const FADE_DEPTH: usize = 16;

/// Drops spawned when the rain starts.
pub const INITIAL_DROPS: usize = 40;

/// Terminal columns taken by one glyph of the palette.
pub const CHAR_WIDTH: u16 = 2;

/// The strokes that paint the snapshots of one frame at decay level `level`.
pub open spec fn frame_strokes(snaps: Seq<Snapshot>, level: usize, depth: usize) -> Seq<Stroke> {
    Seq::new(
        snaps.len(),
        |i: int|
            Stroke {
                row: snaps[i].row,
                column: snaps[i].column,
                cell: trail_cell_spec(level, snaps[i].glyph, depth),
            },
    )
}

/// The strokes of the frames at index `k` and later, oldest first.
pub open spec fn trail_from(frames: Seq<Seq<Snapshot>>, k: int, depth: usize) -> Seq<Stroke>
    decreases frames.len() - k,
{
    if k < 0 || k >= frames.len() {
        Seq::empty()
    } else {
        trail_from(frames, k + 1, depth) + frame_strokes(frames[k], (k + 1) as usize, depth)
    }
}

/// The strokes of a whole ledger: the most decayed frame first, the
/// freshest last, so that a fresher trail wins a cell.
pub open spec fn trail_strokes(frames: Seq<Seq<Snapshot>>, depth: usize) -> Seq<Stroke> {
    trail_from(frames, 0, depth)
}

/// The strokes that paint the drops themselves, at level 0.
pub open spec fn live_strokes(drops: Seq<DigitDrop>) -> Seq<Stroke> {
    Seq::new(
        drops.len(),
        |i: int|
            Stroke {
                row: drops[i].row,
                column: drops[i].column,
                cell: GridCell::Glyph { level: 0, glyph: drops[i].glyph },
            },
    )
}

/// Everything a frame paints, in order: the trails, then the drops.
pub open spec fn compositing(frames: Seq<Seq<Snapshot>>, depth: usize, drops: Seq<DigitDrop>) -> Seq<Stroke> {
    trail_strokes(frames, depth) + live_strokes(drops)
}

/// The frame counter after `step`, wrapping to zero after the largest value.
pub open spec fn next_step(step: u64) -> u64 {
    if step == u64::MAX { 0 } else { (step + 1) as u64 }
}

/// After a frame's compositing pass, each cell holds the last value written
/// to it: the last live drop painted there if there is one, else the
/// freshest trail that reached it, else what it held before.
pub proof fn lemma_frame_cell(
    g: Seq<Seq<GridCell>>,
    frames: Seq<Seq<Snapshot>>,
    depth: usize,
    moved: Seq<DigitDrop>,
    r: int,
    c: int,
    width: nat,
)
    requires
        crate::grid::rows_of(g, width),
        0 <= r < g.len(),
        0 <= c < width,
    ensures
        apply_strokes(g, compositing(frames, depth, moved))[r][c] == match last_stroke_at(
            live_strokes(moved),
            r,
            c,
        ) {
            Some(v) => v,
            None => match last_stroke_at(trail_strokes(frames, depth), r, c) {
                Some(v) => v,
                None => g[r][c],
            },
        },
{
    lemma_last_stroke_wins(g, compositing(frames, depth, moved), r, c, width);
    lemma_last_stroke_concat(trail_strokes(frames, depth), live_strokes(moved), r, c);
}

/// Of two trail frames that reach the same cell, the fresher one (the lower
/// level) is painted later and wins.
pub proof fn lemma_fresher_trail_wins(frames: Seq<Seq<Snapshot>>, depth: usize, k: int, r: int, c: int)
    requires
        0 <= k < frames.len(),
    ensures
        last_stroke_at(trail_from(frames, k, depth), r, c) == match last_stroke_at(
            frame_strokes(frames[k], (k + 1) as usize, depth),
            r,
            c,
        ) {
            Some(v) => Some(v),
            None => last_stroke_at(trail_from(frames, k + 1, depth), r, c),
        },
{
    lemma_last_stroke_concat(
        trail_from(frames, k + 1, depth),
        frame_strokes(frames[k], (k + 1) as usize, depth),
        r,
        c,
    );
}

/// Paints the strokes of `ss` into `grid`, first to last.
pub fn paint_strokes(grid: &mut GridBuffer, ss: &Vec<Stroke>)
    requires
        old(grid).wf(),
    ensures
        final(grid).wf(),
        final(grid).width_spec() == old(grid).width_spec(),
        final(grid).height_spec() == old(grid).height_spec(),
        final(grid)@ == apply_strokes(old(grid)@, ss@),
{
    let mut i: usize = 0;
    while i < ss.len()
        invariant
            i <= ss@.len(),
            grid.wf(),
            grid.width_spec() == old(grid).width_spec(),
            grid.height_spec() == old(grid).height_spec(),
            grid@ == apply_strokes(old(grid)@, ss@.take(i as int)),
        decreases ss@.len() - i,
    {
        grid.paint(ss[i]);
        assert(ss@.take(i + 1).drop_last() =~= ss@.take(i as int));
        i = i + 1;
    }
    assert(ss@.take(i as int) =~= ss@);
}

/// The strokes that paint the snapshots `snaps` at decay level `level`.
pub fn trail_frame_strokes(snaps: &Vec<Snapshot>, level: usize, depth: usize) -> (ss: Vec<Stroke>)
    ensures
        ss@ == frame_strokes(snaps@, level, depth),
{
    let mut ss: Vec<Stroke> = Vec::new();
    let mut i: usize = 0;
    while i < snaps.len()
        invariant
            i <= snaps@.len(),
            ss@ == frame_strokes(snaps@.take(i as int), level, depth),
        decreases snaps@.len() - i,
    {
        let s = snaps[i];
        ss.push(Stroke { row: s.row, column: s.column, cell: trail_cell(level, s.glyph, depth) });
        assert(ss@ =~= frame_strokes(snaps@.take(i + 1), level, depth));
        i = i + 1;
    }
    assert(snaps@.take(i as int) =~= snaps@);
    ss
}

/// Why a screen of rain cannot be set up.
#[derive(Copy, Clone, Debug, PartialEq, Eq, Structural)]
pub enum SetupError {
    /// The screen has no column for a glyph.
    ZeroWidth,
    /// The screen has no row.
    ZeroHeight,
    /// Trails would keep no frame at all.
    ZeroFadeDepth,
}

/// The number of glyph cells across a terminal `cols` columns wide.
pub fn grid_width(cols: u16) -> (w: u16)
    ensures
        w == cols / CHAR_WIDTH,
{
    cols / CHAR_WIDTH
}

/// One screen of rain.
pub struct Simulation {
    pool: DropPool,
    ledger: TrailLedger,
    grid: GridBuffer,
    step: u64,
    target: usize,
}

impl Simulation {
    pub closed spec fn pool_spec(&self) -> DropPool {
        self.pool
    }

    pub closed spec fn ledger_spec(&self) -> TrailLedger {
        self.ledger
    }

    pub closed spec fn grid_spec(&self) -> GridBuffer {
        self.grid
    }

    /// The counter of the next frame.
    pub closed spec fn step_spec(&self) -> u64 {
        self.step
    }

    /// The population that each frame tops the pool up to.
    pub closed spec fn target_spec(&self) -> usize {
        self.target
    }

    /// The depth of the trails.
    pub open spec fn depth(&self) -> usize {
        self.ledger_spec().depth_spec() as usize
    }

    /// The parts are each well formed, and the grid and the pool describe
    /// the same screen.
    pub open spec fn wf(&self) -> bool {
        &&& self.pool_spec().wf()
        &&& self.ledger_spec().wf()
        &&& self.grid_spec().wf()
        &&& self.grid_spec().width_spec() == self.pool_spec().width_spec()
        &&& self.grid_spec().height_spec() == self.pool_spec().height_spec()
    }

    /// A screen of rain `width` glyph cells across and `height` rows high,
    /// with trails `fade_depth` frames long, `initial` drops on the top row
    /// and `target` drops to keep falling. Frame counting starts at 1.
    pub fn new(width: u16, height: u16, fade_depth: usize, initial: usize, target: usize) -> (r: Result<Simulation, SetupError>)
        ensures
            r is Ok <==> width != 0 && height != 0 && fade_depth != 0,
            width == 0 <==> r == Err::<Simulation, SetupError>(SetupError::ZeroWidth),
            width != 0 && height == 0 <==> r == Err::<Simulation, SetupError>(SetupError::ZeroHeight),
            width != 0 && height != 0 && fade_depth == 0 <==> r == Err::<Simulation, SetupError>(
                SetupError::ZeroFadeDepth,
            ),
            r matches Ok(sim) ==> {
                &&& sim.wf()
                &&& sim.pool_spec().width_spec() == width
                &&& sim.pool_spec().height_spec() == height
                &&& sim.pool_spec().drops().len() == initial
                &&& forall|i: int|
                    0 <= i < initial ==> (#[trigger] sim.pool_spec().drops()[i]).is_fresh(
                        sim.pool_spec().drops()[i].column,
                        0,
                        height as usize,
                    )
                &&& sim.ledger_spec()@ == Seq::<Seq<Snapshot>>::empty()
                &&& sim.depth() == fade_depth
                &&& forall|r: int, c: int|
                    0 <= r < height && 0 <= c < width ==> #[trigger] sim.grid_spec()@[r][c]
                        == GridCell::Untouched
                &&& sim.step_spec() == 1
                &&& sim.target_spec() == target
            },
    {
        if width == 0 {
            return Err(SetupError::ZeroWidth);
        }
        if height == 0 {
            return Err(SetupError::ZeroHeight);
        }
        if fade_depth == 0 {
            return Err(SetupError::ZeroFadeDepth);
        }
        let pool = DropPool::spawn_initial(initial, width as usize, height as usize);
        let ledger = TrailLedger::new(fade_depth);
        let grid = GridBuffer::new(width as usize, height as usize);
        Ok(Simulation { pool, ledger, grid, step: 1, target })
    }

    /// Plays one frame, with `fresh[i]` the glyph that drop `i` takes if the
    /// frame is one of its glyph frames: paints the trails from the most
    /// decayed frame to the freshest, moves the drops on and paints them on
    /// top, records their snapshots from before the move, retires the drops
    /// gone past the bottom, and counts the frame. No drop is spawned.
    pub fn step_frame(&mut self, fresh: &Vec<char>)
        requires
            old(self).wf(),
            fresh@.len() == old(self).pool_spec().drops().len(),
        ensures
            final(self).wf(),
            final(self).depth() == old(self).depth(),
            final(self).target_spec() == old(self).target_spec(),
            final(self).pool_spec().width_spec() == old(self).pool_spec().width_spec(),
            final(self).pool_spec().height_spec() == old(self).pool_spec().height_spec(),
            ({
                let moved = advance_seq(old(self).pool_spec().drops(), old(self).step_spec(), fresh@);
                &&& final(self).grid_spec()@ == apply_strokes(
                    old(self).grid_spec()@,
                    compositing(old(self).ledger_spec()@, old(self).depth(), moved),
                )
                &&& final(self).pool_spec().drops() == survivors(moved)
            }),
            final(self).ledger_spec()@ == record_spec(
                old(self).ledger_spec()@,
                snap_seq(old(self).pool_spec().drops()),
                old(self).depth() as nat,
            ),
            final(self).step_spec() == next_step(old(self).step_spec()),
    {
        let ghost g0 = self.grid@;
        let ghost frames = self.ledger@;
        let depth = self.ledger.depth();
        // Trails, from the most decayed frame to the freshest.
        let mut k: usize = self.ledger.len();
        while k > 0
            invariant
                k <= frames.len(),
                self.ledger@ == frames,
                self.ledger.wf(),
                depth == self.ledger.depth_spec(),
                self.grid.wf(),
                self.grid.width_spec() == old(self).grid_spec().width_spec(),
                self.grid.height_spec() == old(self).grid_spec().height_spec(),
                self.grid@ == apply_strokes(g0, trail_from(frames, k as int, depth)),
                self.pool == old(self).pool_spec(),
                self.step == old(self).step_spec(),
                self.target == old(self).target_spec(),
            decreases k,
        {
            let ss = trail_frame_strokes(self.ledger.frame(k - 1), k, depth);
            let ghost before = self.grid@;
            paint_strokes(&mut self.grid, &ss);
            proof {
                lemma_strokes_concat(g0, trail_from(frames, k as int, depth), ss@);
                assert(trail_from(frames, k - 1, depth) == trail_from(frames, k as int, depth)
                    + frame_strokes(frames[k - 1], k, depth));
            }
            k = k - 1;
        }
        let ghost g1 = self.grid@;
        // The drops move on, and are painted on top.
        let snaps = self.pool.advance_all(self.step, fresh);
        self.paint_drops();
        proof {
            lemma_strokes_concat(g0, trail_strokes(frames, depth), live_strokes(self.pool.drops()));
        }
        self.ledger.record(snaps);
        self.pool.retire_out_of_bounds();
        self.step = self.step.wrapping_add(1);
    }

    /// Plays one frame as `step_frame` does, each drop that takes a new
    /// glyph drawing it at random from the palette, then tops the pool up
    /// towards the target population.
    pub fn frame(&mut self)
        requires
            old(self).wf(),
        ensures
            final(self).wf(),
            final(self).depth() == old(self).depth(),
            final(self).target_spec() == old(self).target_spec(),
            final(self).pool_spec().width_spec() == old(self).pool_spec().width_spec(),
            final(self).pool_spec().height_spec() == old(self).pool_spec().height_spec(),
            final(self).ledger_spec()@ == record_spec(
                old(self).ledger_spec()@,
                snap_seq(old(self).pool_spec().drops()),
                old(self).depth() as nat,
            ),
            final(self).step_spec() == next_step(old(self).step_spec()),
            exists|fresh: Seq<char>| #[trigger] fresh.len() == old(self).pool_spec().drops().len() && {
                let drops = old(self).pool_spec().drops();
                let moved = advance_seq(drops, old(self).step_spec(), fresh);
                let kept = survivors(moved);
                let after = final(self).pool_spec().drops();
                &&& forall|i: int| 0 <= i < fresh.len() && drops[i].resamples_at(old(self).step_spec())
                    ==> is_glyph(#[trigger] fresh[i])
                &&& final(self).grid_spec()@ == apply_strokes(
                    old(self).grid_spec()@,
                    compositing(old(self).ledger_spec()@, old(self).depth(), moved),
                )
                &&& after.len() == kept.len() + spawn_count(kept.len(), old(self).target_spec() as nat)
                &&& after.take(kept.len() as int) == kept
                &&& forall|j: int| kept.len() <= j < after.len() ==> (#[trigger] after[j]).is_fresh(
                    after[j].column,
                    0,
                    old(self).pool_spec().height_spec(),
                )
            },
    {
        let pal = palette();
        let n = self.pool.len();
        let mut fresh: Vec<char> = Vec::new();
        let mut i: usize = 0;
        while i < n
            invariant
                n == self.pool.drops().len(),
                i <= n,
                self.pool.wf(),
                crate::palette::is_palette(pal@),
                fresh@.len() == i,
                forall|j: int| 0 <= j < i && self.pool.drops()[j].resamples_at(self.step)
                    ==> is_glyph(#[trigger] fresh@[j]),
            decreases n - i,
        {
            let d = self.pool.get(i);
            assert(self.pool.fits(self.pool.drops()[i as int]));
            let g = if self.step % d.glyph_period == 0 { random_glyph_from(&pal) } else { d.glyph };
            fresh.push(g);
            i = i + 1;
        }
        let ghost before = *self;
        self.step_frame(&fresh);
        let ghost mid = self.pool.drops();
        self.pool.top_up(self.target);
        proof {
            let kept = survivors(advance_seq(before.pool.drops(), before.step, fresh@));
            assert(mid == kept);
            assert(fresh@.len() == before.pool.drops().len());
        }
    }

    /// Paints every live drop at level 0, in pool order.
    fn paint_drops(&mut self)
        requires
            old(self).grid_spec().wf(),
            old(self).ledger_spec().wf(),
        ensures
            final(self).grid_spec().wf(),
            final(self).grid_spec().width_spec() == old(self).grid_spec().width_spec(),
            final(self).grid_spec().height_spec() == old(self).grid_spec().height_spec(),
            final(self).grid_spec()@ == apply_strokes(
                old(self).grid_spec()@,
                live_strokes(old(self).pool_spec().drops()),
            ),
            final(self).pool_spec() == old(self).pool_spec(),
            final(self).ledger_spec() == old(self).ledger_spec(),
            final(self).step_spec() == old(self).step_spec(),
            final(self).target_spec() == old(self).target_spec(),
    {
        let n = self.pool.len();
        let depth = self.ledger.depth();
        let mut i: usize = 0;
        while i < n
            invariant
                n == self.pool.drops().len(),
                i <= n,
                depth == self.ledger.depth_spec(),
                depth >= 1,
                self.pool == old(self).pool_spec(),
                self.ledger == old(self).ledger_spec(),
                self.step == old(self).step_spec(),
                self.target == old(self).target_spec(),
                self.grid.wf(),
                self.grid.width_spec() == old(self).grid_spec().width_spec(),
                self.grid.height_spec() == old(self).grid_spec().height_spec(),
                self.grid@ == apply_strokes(old(self).grid_spec()@, live_strokes(self.pool.drops().take(i as int))),
            decreases n - i,
        {
            let d = self.pool.get(i);
            d.print(&mut self.grid, 0, depth);
            assert(live_strokes(self.pool.drops().take(i + 1)).drop_last() =~= live_strokes(
                self.pool.drops().take(i as int),
            ));
            assert(live_strokes(self.pool.drops().take(i + 1)).last() == d.stroke(0, depth));
            i = i + 1;
        }
        assert(self.pool.drops().take(n as int) =~= self.pool.drops());
    }

    /// Adds `d` to the live drops.
    pub fn add_drop(&mut self, d: DigitDrop)
        requires
            old(self).wf(),
            old(self).pool_spec().fits(d),
            !d.gone(),
        ensures
            final(self).wf(),
            final(self).pool_spec().drops() == old(self).pool_spec().drops().push(d),
            final(self).pool_spec().width_spec() == old(self).pool_spec().width_spec(),
            final(self).pool_spec().height_spec() == old(self).pool_spec().height_spec(),
            final(self).ledger_spec() == old(self).ledger_spec(),
            final(self).grid_spec() == old(self).grid_spec(),
            final(self).step_spec() == old(self).step_spec(),
            final(self).target_spec() == old(self).target_spec(),
    {
        self.pool.push(d);
    }

    /// The live drops.
    pub fn pool(&self) -> (p: &DropPool)
        ensures
            *p == self.pool_spec(),
    {
        &self.pool
    }

    /// The trail ledger.
    pub fn ledger(&self) -> (l: &TrailLedger)
        ensures
            *l == self.ledger_spec(),
    {
        &self.ledger
    }

    /// The grid buffer.
    pub fn grid(&self) -> (g: &GridBuffer)
        ensures
            *g == self.grid_spec(),
    {
        &self.grid
    }

    /// The counter of the next frame.
    pub fn step(&self) -> (s: u64)
        ensures
            s == self.step_spec(),
    {
        self.step
    }

    /// The text of every row of the grid, top to bottom.
    pub fn render_rows(&self) -> (rows: Vec<String>)
        requires
            self.wf(),
        ensures
            rows@.len() == self.grid_spec().height_spec(),
            forall|r: int| 0 <= r < rows@.len() ==> (#[trigger] rows@[r])@ == crate::grid::row_text(
                self.grid_spec()@[r],
            ),
    {
        let h = self.grid.height();
        let mut rows: Vec<String> = Vec::new();
        let mut r: usize = 0;
        while r < h
            invariant
                h == self.grid.height_spec(),
                self.grid.wf(),
                r <= h,
                rows@.len() == r,
                forall|j: int| 0 <= j < r ==> (#[trigger] rows@[j])@ == crate::grid::row_text(self.grid@[j]),
            decreases h - r,
        {
            rows.push(self.grid.render_row(r));
            r = r + 1;
        }
        rows
    }
}

} // verus!
