//! The time-ordered store of decoded chunks awaiting playback.
//!
//! The scheduler bridges the network task, which submits chunks as they
//! arrive, and the playback drain, which asks for the next chunk whose play
//! time has come. Chunks are held ordered by `play_at_us` ascending and are
//! never reordered after submission.

use vstd::prelude::*;
use crate::audio::DecodedChunk;

verus! {

/// Whether a chunk sequence is ordered by play time, ascending.
pub open spec fn queue_sorted(q: Seq<DecodedChunk>) -> bool {
    forall|i: int, j: int|
        0 <= i < j < q.len() ==> q[i].play_at_us <= q[j].play_at_us
}

/// The ordered store of scheduled chunks.
pub struct PlaybackScheduler {
    queue: Vec<DecodedChunk>,
}

impl PlaybackScheduler {
    /// The chunks currently held, earliest play time first.
    pub closed spec fn view(&self) -> Seq<DecodedChunk> {
        self.queue@
    }

    /// The scheduler's invariant: the store is ordered by play time.
    pub open spec fn wf(&self) -> bool {
        queue_sorted(self@)
    }

    /// An empty scheduler.
    pub fn new() -> (s: PlaybackScheduler)
        ensures
            s.wf(),
            s@ == Seq::<DecodedChunk>::empty(),
    {
        PlaybackScheduler { queue: Vec::new() }
    }

    /// How many chunks are currently scheduled.
    pub fn len(&self) -> (n: usize)
        ensures
            n == self@.len(),
    {
        self.queue.len()
    }

    /// Accept a chunk, keeping the store ordered by play time. A chunk due
    /// no earlier than everything already held goes to the back, so chunks
    /// submitted in play-time order are never reordered.
    pub fn submit(&mut self, chunk: DecodedChunk)
        requires
            old(self).wf(),
        ensures
            final(self).wf(),
            final(self)@.len() == old(self)@.len() + 1,
            exists|p: int|
                {
                    &&& 0 <= p <= old(self)@.len()
                    &&& final(self)@ == old(self)@.insert(p, chunk)
                    &&& (forall|k: int|
                        0 <= k < p ==> old(self)@[k].play_at_us <= chunk.play_at_us)
                    &&& (forall|k: int|
                        p <= k < old(self)@.len() ==> old(self)@[k].play_at_us
                            > chunk.play_at_us)
                },
            (forall|i: int|
                0 <= i < old(self)@.len() ==> old(self)@[i].play_at_us <= chunk.play_at_us)
                ==> final(self)@ == old(self)@.push(chunk),
    {
        let mut pos: usize = self.queue.len();
        while pos > 0 && self.queue[pos - 1].play_at_us > chunk.play_at_us
            invariant
                pos <= self.queue.len(),
                forall|k: int|
                    pos <= k < self.queue@.len() ==> self.queue@[k].play_at_us
                        > chunk.play_at_us,
            decreases pos,
        {
            pos = pos - 1;
        }
        let ghost old_q = self.queue@;
        let ghost p = pos as int;
        self.queue.insert(pos, chunk);
        proof {
            assert(old_q.insert(p, chunk) =~= old_q.take(p) + seq![chunk] + old_q.skip(p));
            assert forall|i: int, j: int|
                0 <= i < j < self.queue@.len() implies self.queue@[i].play_at_us
                <= self.queue@[j].play_at_us by {
                assert(queue_sorted(old_q));
                if j < p {
                    assert(old_q[i].play_at_us <= old_q[j].play_at_us);
                } else if i > p {
                    assert(old_q[i - 1].play_at_us <= old_q[j - 1].play_at_us);
                } else if i < p && j == p {
                    assert(old_q[i].play_at_us <= old_q[p - 1].play_at_us);
                } else if i == p && j > p {
                    assert(old_q[j - 1].play_at_us > chunk.play_at_us);
                } else if i < p && j > p {
                    assert(old_q[j - 1].play_at_us > chunk.play_at_us);
                }
            }
            assert forall|k: int| 0 <= k < p implies old_q[k].play_at_us <= chunk.play_at_us by {
                assert(queue_sorted(old_q));
                if k < p - 1 {
                    assert(old_q[k].play_at_us <= old_q[p - 1].play_at_us);
                }
            }
            if forall|i: int| 0 <= i < old_q.len() ==> old_q[i].play_at_us <= chunk.play_at_us {
                if p < old_q.len() {
                    assert(old_q[p].play_at_us > chunk.play_at_us);
                    assert(old_q[p].play_at_us <= chunk.play_at_us);
                }
                assert(old_q.insert(old_q.len() as int, chunk) =~= old_q.push(chunk));
            }
        }
    }

    /// Hand out the earliest chunk whose play time has arrived, if any.
    pub fn next_ready(&mut self, now_us: u64) -> (r: Option<DecodedChunk>)
        requires
            old(self).wf(),
        ensures
            final(self).wf(),
            old(self)@.len() > 0 && old(self)@[0].play_at_us <= now_us ==> r == Some(
                old(self)@[0],
            ) && final(self)@ == old(self)@.subrange(1, old(self)@.len() as int),
            !(old(self)@.len() > 0 && old(self)@[0].play_at_us <= now_us) ==> r is None
                && final(self)@ == old(self)@,
    {
        if self.queue.len() > 0 {
            if self.queue[0].play_at_us <= now_us {
                let chunk = self.queue.remove(0);
                proof {
                    assert(old(self)@.remove(0) =~= old(self)@.subrange(
                        1,
                        old(self)@.len() as int,
                    ));
                }
                return Some(chunk);
            }
        }
        None
    }
}

} // verus!
