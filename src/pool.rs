//! The set of live drops: spawning, advancing and retiring them.

use vstd::prelude::*;
use crate::raindrop::{DigitDrop, Snapshot};

verus! {

/// At most this many drops are spawned on one frame.
pub const MAX_NEW_DROPS: usize = 10;

/// The drops after frame `step`, with `fresh[i]` the glyph that drop `i`
/// takes if it resamples.
pub open spec fn advance_seq(drops: Seq<DigitDrop>, step: u64, fresh: Seq<char>) -> Seq<DigitDrop> {
    Seq::new(drops.len(), |i: int| drops[i].advanced(step, fresh[i]))
}

/// The snapshots of `drops`, in order.
pub open spec fn snap_seq(drops: Seq<DigitDrop>) -> Seq<Snapshot> {
    Seq::new(drops.len(), |i: int| drops[i].snap())
}

/// The test that keeps a drop in the pool.
pub open spec fn on_screen() -> spec_fn(DigitDrop) -> bool {
    |d: DigitDrop| !d.gone()
}

/// The drops that are still on screen, in their order.
pub open spec fn survivors(drops: Seq<DigitDrop>) -> Seq<DigitDrop> {
    drops.filter(on_screen())
}

/// How many drops `top_up` spawns into a pool of `len` drops.
pub open spec fn spawn_count(len: nat, target: nat) -> nat {
    if len >= target {
        0
    } else if target - len < MAX_NEW_DROPS {
        (target - len) as nat
    } else {
        MAX_NEW_DROPS as nat
    }
}

/// A drop that has gone past the bottom after a frame leaves the pool on
/// that frame, and every other drop stays.
pub proof fn lemma_gone_drops_leave(moved: Seq<DigitDrop>, i: int)
    requires
        0 <= i < moved.len(),
    ensures
        moved[i].gone() ==> !survivors(moved).contains(moved[i]),
        !moved[i].gone() ==> survivors(moved).contains(moved[i]),
        forall|j: int| 0 <= j < survivors(moved).len() ==> !(#[trigger] survivors(moved)[j]).gone(),
{
    broadcast use vstd::seq_lib::group_filter_ensures;
    if moved[i].gone() {
        if survivors(moved).contains(moved[i]) {
            let j = choose|j: int| 0 <= j < survivors(moved).len() && survivors(moved)[j] == moved[i];
            moved.lemma_filter_pred(on_screen(), j);
        }
    } else {
        moved.lemma_filter_contains(on_screen(), i);
    }
    assert forall|j: int| 0 <= j < survivors(moved).len() implies !(#[trigger] survivors(moved)[j]).gone() by {
        moved.lemma_filter_pred(on_screen(), j);
    }
}

/// The live drops of a screen `width` cells wide and `height` rows high.
pub struct DropPool {
    drops: Vec<DigitDrop>,
    width: usize,
    height: usize,
}

impl DropPool {
    /// The drops, in the order they were spawned.
    pub closed spec fn drops(&self) -> Seq<DigitDrop> {
        self.drops@
    }

    pub closed spec fn width_spec(&self) -> usize {
        self.width
    }

    pub closed spec fn height_spec(&self) -> usize {
        self.height
    }

    /// Whether `d` may live in this pool: well-formed, in a column of the
    /// screen, and made for its height.
    pub open spec fn fits(&self, d: DigitDrop) -> bool {
        &&& d.wf()
        &&& d.column < self.width_spec()
        &&& d.height == self.height_spec()
    }

    /// The pool's shape: a screen of at least one cell, rows that can still
    /// grow by one, and drops that fit it.
    pub open spec fn wf_shape(&self) -> bool {
        &&& self.width_spec() > 0
        &&& self.height_spec() > 0
        &&& self.height_spec() < usize::MAX
        &&& forall|i: int| 0 <= i < self.drops().len() ==> self.fits(#[trigger] self.drops()[i])
    }

    /// The pool between frames: no drop is past the bottom.
    pub open spec fn wf(&self) -> bool {
        &&& self.wf_shape()
        &&& forall|i: int| 0 <= i < self.drops().len() ==> !(#[trigger] self.drops()[i]).gone()
    }

    /// An empty pool for a screen of the given size.
    pub fn new(width: usize, height: usize) -> (p: DropPool)
        requires
            width > 0,
            0 < height < usize::MAX,
        ensures
            p.wf(),
            p.drops() == Seq::<DigitDrop>::empty(),
            p.width_spec() == width,
            p.height_spec() == height,
    {
        DropPool { drops: Vec::new(), width, height }
    }

    /// A pool of `count` new drops on the top row, each in a random column.
    pub fn spawn_initial(count: usize, width: usize, height: usize) -> (p: DropPool)
        requires
            width > 0,
            0 < height < usize::MAX,
        ensures
            p.wf(),
            p.width_spec() == width,
            p.height_spec() == height,
            p.drops().len() == count,
            forall|i: int|
                0 <= i < count ==> (#[trigger] p.drops()[i]).is_fresh(p.drops()[i].column, 0, height),
    {
        let mut p = DropPool::new(width, height);
        let mut i: usize = 0;
        while i < count
            invariant
                i <= count,
                p.wf(),
                p.width_spec() == width,
                p.height_spec() == height,
                p.drops().len() == i,
                forall|j: int|
                    0 <= j < i ==> (#[trigger] p.drops()[j]).is_fresh(p.drops()[j].column, 0, height),
            decreases count - i,
        {
            p.spawn_one();
            i = i + 1;
        }
        p
    }

    /// Adds one new drop on the top row, in a random column.
    fn spawn_one(&mut self)
        requires
            old(self).wf(),
        ensures
            final(self).wf(),
            final(self).width_spec() == old(self).width_spec(),
            final(self).height_spec() == old(self).height_spec(),
            final(self).drops().len() == old(self).drops().len() + 1,
            final(self).drops() == old(self).drops().push(final(self).drops().last()),
            final(self).drops().last().is_fresh(
                final(self).drops().last().column,
                0,
                old(self).height_spec(),
            ),
            final(self).drops().last().column < old(self).width_spec(),
    {
        let column = crate::chance::random_below(0, self.width);
        let d = DigitDrop::new(column, 0, self.height);
        self.drops.push(d);
        assert forall|i: int| 0 <= i < self.drops().len() implies self.fits(#[trigger] self.drops()[i])
            && !self.drops()[i].gone() by {
            if i < old(self).drops().len() {
                assert(self.drops()[i] == old(self).drops()[i]);
            }
        }
    }

    /// Adds `d` to the pool.
    pub fn push(&mut self, d: DigitDrop)
        requires
            old(self).wf(),
            old(self).fits(d),
            !d.gone(),
        ensures
            final(self).wf(),
            final(self).drops() == old(self).drops().push(d),
            final(self).width_spec() == old(self).width_spec(),
            final(self).height_spec() == old(self).height_spec(),
    {
        self.drops.push(d);
        assert forall|i: int| 0 <= i < self.drops().len() implies self.fits(#[trigger] self.drops()[i])
            && !self.drops()[i].gone() by {
            if i < old(self).drops().len() {
                assert(self.drops()[i] == old(self).drops()[i]);
            }
        }
    }

    /// The number of live drops.
    pub fn len(&self) -> (n: usize)
        ensures
            n == self.drops().len(),
    {
        self.drops.len()
    }

    /// The drop at index `i`.
    pub fn get(&self, i: usize) -> (d: DigitDrop)
        requires
            i < self.drops().len(),
        ensures
            d == self.drops()[i as int],
    {
        self.drops[i]
    }

    /// The screen width, in cells.
    pub fn width(&self) -> (w: usize)
        ensures
            w == self.width_spec(),
    {
        self.width
    }

    /// The screen height, in rows.
    pub fn height(&self) -> (h: usize)
        ensures
            h == self.height_spec(),
    {
        self.height
    }
    /// Plays frame `step` for every drop, in order: drop `i` moves down if
    /// the frame is one of its fall frames and shows `fresh[i]` if it is one
    /// of its glyph frames. Returns the snapshots of the drops as they were
    /// before the frame.
    pub fn advance_all(&mut self, step: u64, fresh: &Vec<char>) -> (snaps: Vec<Snapshot>)
        requires
            old(self).wf(),
            fresh@.len() == old(self).drops().len(),
        ensures
            final(self).wf_shape(),
            final(self).width_spec() == old(self).width_spec(),
            final(self).height_spec() == old(self).height_spec(),
            final(self).drops() == advance_seq(old(self).drops(), step, fresh@),
            snaps@ == snap_seq(old(self).drops()),
            forall|i: int| 0 <= i < old(self).drops().len() ==> {
                let r = (#[trigger] final(self).drops()[i]).row;
                r == old(self).drops()[i].row || r == old(self).drops()[i].row + 1
            },
    {
        let n = self.drops.len();
        let mut snaps: Vec<Snapshot> = Vec::new();
        let mut i: usize = 0;
        while i < n
            invariant
                n == old(self).drops().len(),
                i <= n,
                old(self).wf(),
                fresh@.len() == n,
                self.width == old(self).width_spec(),
                self.height == old(self).height_spec(),
                self.drops().len() == n,
                forall|j: int| 0 <= j < i ==> #[trigger] self.drops()[j] == old(self).drops()[j].advanced(step, fresh@[j]),
                forall|j: int| i <= j < n ==> #[trigger] self.drops()[j] == old(self).drops()[j],
                snaps@.len() == i,
                forall|j: int| 0 <= j < i ==> #[trigger] snaps@[j] == old(self).drops()[j].snap(),
            decreases n - i,
        {
            let mut d = self.drops[i];
            assert(d == old(self).drops()[i as int]);
            assert(old(self).fits(d) && !d.gone());
            snaps.push(d.snapshot());
            d.action(step, fresh[i]);
            self.drops.set(i, d);
            i = i + 1;
        }
        assert(self.drops() =~= advance_seq(old(self).drops(), step, fresh@));
        assert(snaps@ =~= snap_seq(old(self).drops()));
        assert forall|j: int| 0 <= j < self.drops().len() implies self.fits(#[trigger] self.drops()[j]) by {
            assert(old(self).fits(old(self).drops()[j]));
        }
        snaps
    }

    /// Removes every drop that has gone past the bottom, keeping the order
    /// of the others.
    pub fn retire_out_of_bounds(&mut self)
        requires
            old(self).wf_shape(),
        ensures
            final(self).wf(),
            final(self).width_spec() == old(self).width_spec(),
            final(self).height_spec() == old(self).height_spec(),
            final(self).drops() == survivors(old(self).drops()),
    {
        let n = self.drops.len();
        let mut kept: Vec<DigitDrop> = Vec::new();
        let mut i: usize = 0;
        while i < n
            invariant
                n == self.drops().len(),
                i <= n,
                self.wf_shape(),
                kept@ == survivors(self.drops().take(i as int)),
                forall|j: int| 0 <= j < kept@.len() ==> self.fits(#[trigger] kept@[j]) && !kept@[j].gone(),
            decreases n - i,
        {
            let d = self.drops[i];
            proof {
                let s = self.drops().take(i as int);
                assert(self.drops().take(i + 1) =~= s.push(d));
                s.lemma_filter_push(d, on_screen());
                assert(self.fits(self.drops()[i as int]));
            }
            if !d.is_out_of_screen() {
                kept.push(d);
            }
            i = i + 1;
        }
        assert(self.drops().take(n as int) =~= self.drops());
        self.drops = kept;
    }

    /// Spawns new drops on the top row, in random columns, while the pool is
    /// below `target` and fewer than `MAX_NEW_DROPS` have been spawned. A
    /// pool already at or above `target` is left as it is.
    pub fn top_up(&mut self, target: usize)
        requires
            old(self).wf(),
        ensures
            final(self).wf(),
            final(self).width_spec() == old(self).width_spec(),
            final(self).height_spec() == old(self).height_spec(),
            final(self).drops().len() == old(self).drops().len() + spawn_count(
                old(self).drops().len(),
                target as nat,
            ),
            final(self).drops().take(old(self).drops().len() as int) == old(self).drops(),
            forall|j: int|
                old(self).drops().len() <= j < final(self).drops().len() ==> (#[trigger] final(self).drops()[j]).is_fresh(
                    final(self).drops()[j].column,
                    0,
                    old(self).height_spec(),
                ),
            old(self).drops().len() >= target ==> final(self).drops() == old(self).drops(),
    {
        let ghost n0 = self.drops().len();
        let mut i: usize = 0;
        while i < MAX_NEW_DROPS && self.drops.len() < target
            invariant
                i <= MAX_NEW_DROPS,
                self.wf(),
                self.width_spec() == old(self).width_spec(),
                self.height_spec() == old(self).height_spec(),
                n0 == old(self).drops().len(),
                self.drops().len() == n0 + i,
                i == 0 || self.drops().len() <= target,
                self.drops().take(n0 as int) == old(self).drops(),
                forall|j: int|
                    n0 <= j < self.drops().len() ==> (#[trigger] self.drops()[j]).is_fresh(
                        self.drops()[j].column,
                        0,
                        old(self).height_spec(),
                    ),
            decreases MAX_NEW_DROPS - i,
        {
            let ghost before = self.drops();
            self.spawn_one();
            proof {
                assert(self.drops().take(n0 as int) =~= before.take(n0 as int));
                assert forall|j: int| n0 <= j < self.drops().len() implies (#[trigger] self.drops()[j]).is_fresh(
                    self.drops()[j].column,
                    0,
                    old(self).height_spec(),
                ) by {
                    if j < before.len() {
                        assert(self.drops()[j] == before[j]);
                    }
                }
            }
            i = i + 1;
        }
        proof {
            if n0 >= target {
                assert(self.drops() =~= old(self).drops());
            }
        }
    }
}

} // verus!
