//! The queue between the playback drain and the real-time device callback.
//!
//! The drain side pushes converted chunks at its own pace; the device
//! callback asks for exactly as many samples as the device wants, receives
//! the oldest queued samples in order, and gets silence (zeros) for whatever
//! the queue cannot cover. The fill operation is total: it never fails,
//! whatever the queue holds.

use vstd::prelude::*;
use crate::audio::AudioFormat;

verus! {

/// The samples still queued, oldest first: the first buffer from the read
/// position on, then the later buffers whole.
pub open spec fn pending_of(bufs: Seq<Vec<i32>>, pos: int) -> Seq<i32>
    decreases bufs.len(),
{
    if bufs.len() == 0 {
        Seq::<i32>::empty()
    } else {
        bufs[0]@.skip(pos) + pending_of(bufs.drop_first(), 0)
    }
}

proof fn lemma_pending_push(bufs: Seq<Vec<i32>>, pos: int, extra: Vec<i32>)
    requires
        0 <= pos,
        bufs.len() == 0 ==> pos == 0,
    ensures
        pending_of(bufs.push(extra), pos) == pending_of(bufs, pos) + extra@,
    decreases bufs.len(),
{
    if bufs.len() == 0 {
        assert(bufs.push(extra)[0] == extra);
        assert(bufs.push(extra).drop_first() =~= Seq::<Vec<i32>>::empty());
        assert(extra@.skip(0) =~= extra@);
        assert(pending_of(Seq::<Vec<i32>>::empty(), 0) =~= Seq::<i32>::empty());
        assert(pending_of(bufs.push(extra), pos) =~= extra@ + pending_of(
            Seq::<Vec<i32>>::empty(),
            0,
        ));
        assert(pending_of(bufs.push(extra), pos) =~= pending_of(bufs, pos) + extra@);
    } else {
        lemma_pending_push(bufs.drop_first(), 0, extra);
        assert(bufs.push(extra).drop_first() =~= bufs.drop_first().push(extra));
        assert(bufs.push(extra)[0] == bufs[0]);
        assert(pending_of(bufs.push(extra), pos) =~= pending_of(bufs, pos) + extra@);
    }
}

/// The shared FIFO between the drain thread and the device callback.
pub struct OutputQueue {
    bufs: Vec<Vec<i32>>,
    pos: usize,
}

impl OutputQueue {
    /// The samples still queued, oldest first.
    pub closed spec fn view(&self) -> Seq<i32> {
        pending_of(self.bufs@, self.pos as int)
    }

    /// Every held buffer has samples left; the read position stays strictly
    /// inside the oldest one, and sits at zero when nothing is held.
    pub closed spec fn wf(&self) -> bool {
        &&& forall|k: int| 0 <= k < self.bufs@.len() ==> self.bufs@[k]@.len() > 0
        &&& (self.bufs@.len() == 0 ==> self.pos == 0)
        &&& (self.bufs@.len() > 0 ==> self.pos < self.bufs@[0]@.len())
    }

    /// An empty queue.
    pub fn new() -> (q: OutputQueue)
        ensures
            q.wf(),
            q@ == Seq::<i32>::empty(),
    {
        OutputQueue { bufs: Vec::new(), pos: 0 }
    }

    /// Queue one converted chunk behind everything already queued. An empty
    /// chunk adds nothing and is not held.
    pub fn push_chunk(&mut self, samples: Vec<i32>)
        requires
            old(self).wf(),
        ensures
            final(self).wf(),
            final(self)@ == old(self)@ + samples@,
    {
        if samples.len() == 0 {
            proof {
                assert(old(self)@ + samples@ =~= old(self)@);
            }
        } else {
            proof {
                lemma_pending_push(self.bufs@, self.pos as int, samples);
            }
            self.bufs.push(samples);
        }
    }

    /// Whether nothing is queued.
    pub fn is_empty(&self) -> (r: bool)
        requires
            self.wf(),
        ensures
            r == (self@.len() == 0),
    {
        proof {
            if self.bufs@.len() > 0 {
                assert(self.bufs@[0]@.skip(self.pos as int).len() > 0);
            }
        }
        self.bufs.len() == 0
    }

    /// Fill an output buffer of `n` slots: the oldest queued samples in
    /// order, then silence for every slot the queue cannot cover. The
    /// underrun case (empty queue) therefore yields all zeros.
    pub fn fill(&mut self, n: usize) -> (out: Vec<i32>)
        requires
            old(self).wf(),
        ensures
            final(self).wf(),
            out@.len() == n,
            out@.take(fill_count(old(self)@, n as int)) == old(self)@.take(
                fill_count(old(self)@, n as int),
            ),
            forall|i: int| fill_count(old(self)@, n as int) <= i < n ==> out@[i] == 0,
            final(self)@ == old(self)@.skip(fill_count(old(self)@, n as int)),
    {
        let ghost old_pending = self@;
        let mut out: Vec<i32> = Vec::new();
        while out.len() < n && self.bufs.len() > 0
            invariant
                self.wf(),
                out@.len() <= n,
                old_pending == out@ + self@,
            decreases n - out@.len(),
        {
            let ghost bufs0 = self.bufs@;
            let ghost pos0 = self.pos as int;
            let first_len: usize = self.bufs[0].len();
            let v: i32 = self.bufs[0][self.pos];
            proof {
                assert(bufs0[0]@.skip(pos0) =~= seq![v] + bufs0[0]@.skip(pos0 + 1));
                assert(pending_of(bufs0, pos0) =~= seq![v] + pending_of(bufs0, pos0 + 1));
                assert((out@ + pending_of(bufs0, pos0)) =~= (out@.push(v) + pending_of(
                    bufs0,
                    pos0 + 1,
                )));
            }
            out.push(v);
            self.pos = self.pos + 1;
            if self.pos >= first_len {
                let ghost bufs1 = self.bufs@;
                let ghost pos1 = self.pos as int;
                proof {
                    assert(bufs1[0]@.skip(pos1) =~= Seq::<i32>::empty());
                    assert(pending_of(bufs1, pos1) =~= pending_of(bufs1.drop_first(), 0));
                    assert(bufs1.remove(0) =~= bufs1.drop_first());
                }
                self.bufs.remove(0);
                self.pos = 0;
            }
        }
        let ghost drained = out@;
        proof {
            if drained.len() == n {
                assert(drained =~= old_pending.take(drained.len() as int));
                assert(self@ =~= old_pending.skip(drained.len() as int));
            } else {
                assert(self.bufs@.len() == 0);
                assert(self@ =~= Seq::<i32>::empty());
                assert(drained =~= old_pending);
                assert(self@ =~= old_pending.skip(drained.len() as int));
            }
            assert(drained.len() == fill_count(old_pending, n as int));
        }
        while out.len() < n
            invariant
                drained.len() <= out@.len() <= n,
                out@.take(drained.len() as int) == drained,
                forall|i: int| drained.len() <= i < out@.len() ==> out@[i] == 0,
            decreases n - out@.len(),
        {
            let ghost before = out@;
            out.push(0);
            proof {
                assert(out@.take(drained.len() as int) =~= before.take(drained.len() as int));
            }
        }
        proof {
            assert(out@.take(fill_count(old_pending, n as int)) =~= old_pending.take(
                fill_count(old_pending, n as int),
            ));
        }
        out
    }
}

/// How many output slots the queued samples can cover: all `n` slots, or as
/// many samples as are pending, whichever is smaller.
pub open spec fn fill_count(pending: Seq<i32>, n: int) -> int {
    if pending.len() <= n {
        pending.len() as int
    } else {
        n
    }
}

/// Whether the output stream has to be rebuilt before playing a chunk: there
/// is no stream yet, or the active format differs from the chunk's.
pub fn needs_rebuild(current: &Option<AudioFormat>, incoming: &AudioFormat) -> (r: bool)
    ensures
        r == (*current != Some(*incoming)),
{
    match current {
        None => true,
        Some(f) => !(*f == *incoming),
    }
}

/// Milliseconds to sleep before queuing a ready chunk: a positive configured
/// sync delay is applied by waiting; a negative one has no corrective effect
/// and is ignored.
pub fn sync_delay_sleep_ms(sync_delay_ms: i32) -> (r: u64)
    ensures
        sync_delay_ms > 0 ==> r == sync_delay_ms as u64,
        sync_delay_ms <= 0 ==> r == 0,
{
    if sync_delay_ms > 0 {
        sync_delay_ms as u64
    } else {
        0
    }
}

} // verus!
