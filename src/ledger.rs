//! The trail ledger: the snapshots of the last frames, newest first, from
//! which the fading trails are painted.

use std::collections::VecDeque;
use vstd::prelude::*;
use crate::raindrop::Snapshot;

verus! {

/// The ledger `l` after recording frame `f`, when it keeps at most `depth`
/// frames: `f` goes in front and, if the ledger was full, its oldest frame
/// leaves.
pub open spec fn record_spec(l: Seq<Seq<Snapshot>>, f: Seq<Snapshot>, depth: nat) -> Seq<Seq<Snapshot>> {
    if l.len() < depth {
        seq![f] + l
    } else {
        seq![f] + l.take(depth - 1)
    }
}

/// The ledger `l` after recording the frames of `fs`, first to last.
pub open spec fn record_all(l: Seq<Seq<Snapshot>>, fs: Seq<Seq<Snapshot>>, depth: nat) -> Seq<Seq<Snapshot>>
    decreases fs.len(),
{
    if fs.len() == 0 {
        l
    } else {
        record_spec(record_all(l, fs.drop_last(), depth), fs.last(), depth)
    }
}

/// The decay level of the frame at index `i` of the ledger: its position
/// counted from one at the newest end.
pub open spec fn level_at(i: int) -> int {
    i + 1
}

/// Recording never lets the ledger grow past `depth`, and keeps every frame
/// that still fits.
pub proof fn lemma_record_len(l: Seq<Seq<Snapshot>>, f: Seq<Snapshot>, depth: nat)
    requires
        depth >= 1,
        l.len() <= depth,
    ensures
        record_spec(l, f, depth).len() as int == if l.len() < depth { l.len() + 1 as int } else { depth as int },
        record_spec(l, f, depth).len() <= depth,
        record_spec(l, f, depth)[0] == f,
        forall|i: int|
            0 <= i < l.len() && i + 1 < depth ==> #[trigger] record_spec(l, f, depth)[i + 1] == l[i],
{
}

/// The frame recorded `T` recordings ago sits at decay level `T` for as long
/// as `T` does not exceed the depth; after that it is gone.
pub proof fn lemma_level_is_age(l: Seq<Seq<Snapshot>>, f: Seq<Snapshot>, later: Seq<Seq<Snapshot>>, depth: nat)
    requires
        depth >= 1,
        l.len() <= depth,
    ensures
        ({
            let after = record_all(record_spec(l, f, depth), later, depth);
            &&& after.len() <= depth
            &&& later.len() + 1 <= depth ==> {
                &&& after.len() > later.len()
                &&& after[later.len() as int] == f
                &&& level_at(later.len() as int) == later.len() + 1
            }
        }),
    decreases later.len(),
{
    lemma_record_len(l, f, depth);
    if later.len() > 0 {
        lemma_level_is_age(l, f, later.drop_last(), depth);
        let before = record_all(record_spec(l, f, depth), later.drop_last(), depth);
        lemma_record_len(before, later.last(), depth);
    }
}

/// The snapshots of the last frames, newest first, at most `depth` of them.
pub struct TrailLedger {
    frames: VecDeque<Vec<Snapshot>>,
    depth: usize,
}

impl View for TrailLedger {
    type V = Seq<Seq<Snapshot>>;

    /// The frames, newest first.
    closed spec fn view(&self) -> Seq<Seq<Snapshot>> {
        self.frames@.map_values(|f: Vec<Snapshot>| f@)
    }
}

impl TrailLedger {
    /// The most frames the ledger keeps.
    pub closed spec fn depth_spec(&self) -> nat {
        self.depth as nat
    }

    /// A depth of at least one, and never more frames than that.
    pub open spec fn wf(&self) -> bool {
        &&& self.depth_spec() >= 1
        &&& self@.len() <= self.depth_spec()
    }

    /// An empty ledger that keeps at most `depth` frames.
    pub fn new(depth: usize) -> (l: TrailLedger)
        requires
            depth >= 1,
        ensures
            l.wf(),
            l@ == Seq::<Seq<Snapshot>>::empty(),
            l.depth_spec() == depth,
    {
        let l = TrailLedger { frames: VecDeque::new(), depth };
        assert(l@ =~= Seq::<Seq<Snapshot>>::empty());
        l
    }

    /// Puts `frame` in front as the newest frame. A full ledger first lets
    /// its oldest frame go, exactly one.
    pub fn record(&mut self, frame: Vec<Snapshot>)
        requires
            old(self).wf(),
        ensures
            final(self).wf(),
            final(self).depth_spec() == old(self).depth_spec(),
            final(self)@ == record_spec(old(self)@, frame@, old(self).depth_spec()),
            old(self)@.len() == old(self).depth_spec() ==> {
                &&& final(self)@.len() == old(self)@.len()
                &&& final(self)@.skip(1) == old(self)@.drop_last()
            },
    {
        let ghost before = self.frames@;
        if self.frames.len() == self.depth {
            self.frames.pop_back();
        }
        let ghost mid = self.frames@;
        self.frames.push_front(frame);
        proof {
            if before.len() == self.depth {
                assert(mid =~= before.take(self.depth - 1));
            } else {
                assert(mid == before);
            }
            assert(self@ =~= record_spec(old(self)@, frame@, old(self).depth_spec()));
            lemma_record_len(old(self)@, frame@, old(self).depth_spec());
            if before.len() == self.depth {
                assert(self@.skip(1) =~= old(self)@.drop_last());
            }
        }
    }

    /// The number of frames held.
    pub fn len(&self) -> (n: usize)
        ensures
            n == self@.len(),
    {
        proof {
            assert(self@.len() == self.frames@.len());
        }
        self.frames.len()
    }

    /// The most frames the ledger keeps.
    pub fn depth(&self) -> (d: usize)
        ensures
            d == self.depth_spec(),
    {
        self.depth
    }

    /// The frame at index `i`, whose decay level is `i + 1`.
    pub fn frame(&self, i: usize) -> (f: &Vec<Snapshot>)
        requires
            i < self@.len(),
        ensures
            f@ == self@[i as int],
    {
        &self.frames[i]
    }
}

} // verus!
