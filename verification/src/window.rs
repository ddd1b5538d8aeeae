//! The sliding-window buffer: a capacity-bounded, insertion-ordered history
//! of timestamped samples, evicted first-in-first-out by count, and the
//! chart frame derived from it by rebasing every timestamp onto the epoch
//! (the oldest sample's timestamp).
//!
//! Timestamps are nanoseconds on a monotone clock; readings are the raw
//! 32-bit payload pattern (see [`crate::decode`]). Because the window
//! keeps its samples in non-decreasing timestamp order and the epoch is
//! always the front sample's timestamp, the rebasing subtraction can
//! never underflow: the fatal "timestamp predates the epoch" condition is
//! ruled out here by proof rather than checked at run time.

use vstd::prelude::*;

verus! {

/// One sensor reading: when it arrived, and the raw 32-bit pattern that
/// was decoded from the payload.
#[derive(Clone, Copy, PartialEq, Eq, Structural, Debug)]
pub struct Sample {
    /// Nanoseconds on the receiving clock.
    pub t_nanos: u64,
    /// The little-endian 32-bit word of the payload.
    pub word: u32,
}

/// One point of the chart frame: seconds are derived outside this crate
/// by dividing the elapsed nanoseconds; the reading keeps its raw form.
#[derive(Clone, Copy, PartialEq, Eq, Structural, Debug)]
pub struct ChartPoint {
    /// Nanoseconds since the window's epoch.
    pub elapsed_nanos: u64,
    /// The little-endian 32-bit word of the payload.
    pub word: u32,
}

/// The timestamps of `s` never decrease from one sample to a later one.
pub open spec fn timestamps_sorted(s: Seq<Sample>) -> bool {
    forall|i: int, j: int|
        0 <= i <= j < s.len() ==> s[i].t_nanos <= s[j].t_nanos
}

/// What one push leaves in the window: the sample goes on the back, and
/// if that would hold more than `cap` samples the front one is evicted.
pub open spec fn pushed(s: Seq<Sample>, cap: int, x: Sample) -> Seq<Sample> {
    if s.len() + 1 > cap {
        s.push(x).drop_first()
    } else {
        s.push(x)
    }
}

/// The chart frame derived from `s`: every sample rebased onto the front
/// sample's timestamp.
pub open spec fn chart_frame_of(s: Seq<Sample>) -> Seq<ChartPoint> {
    Seq::new(
        s.len(),
        |i: int|
            ChartPoint {
                elapsed_nanos: (s[i].t_nanos - s[0].t_nanos) as u64,
                word: s[i].word,
            },
    )
}

/// A capacity-bounded FIFO window of samples.
///
/// Invariant: the capacity is at least one, the window never holds more
/// than `cap` samples, and the samples sit in non-decreasing timestamp
/// order.
pub struct SlidingWindow {
    samples: Vec<Sample>,
    capacity: usize,
}

impl SlidingWindow {
    /// The fixed capacity the window was created with.
    pub closed spec fn cap(self) -> int {
        self.capacity as int
    }

    /// The samples currently held, oldest first.
    pub closed spec fn contents(self) -> Seq<Sample> {
        self.samples@
    }

    /// The window's invariant.
    pub open spec fn wf(self) -> bool {
        &&& 1 <= self.cap()
        &&& self.contents().len() <= self.cap()
        &&& timestamps_sorted(self.contents())
    }

    /// A sample may enter only if it does not run the clock backwards.
    pub open spec fn admits(self, x: Sample) -> bool {
        self.contents().len() == 0 || self.contents().last().t_nanos <= x.t_nanos
    }

    /// The epoch: the oldest sample's timestamp.
    pub open spec fn spec_epoch(self) -> u64
        recommends
            self.contents().len() > 0,
    {
        self.contents()[0].t_nanos
    }

    /// An empty window of the given capacity.
    pub fn new(capacity: usize) -> (w: SlidingWindow)
        requires
            capacity >= 1,
        ensures
            w.wf(),
            w.cap() == capacity,
            w.contents() == Seq::<Sample>::empty(),
    {
        SlidingWindow { samples: Vec::new(), capacity }
    }

    /// How many samples the window holds now.
    pub fn len(&self) -> (n: usize)
        ensures
            n == self.contents().len(),
    {
        self.samples.len()
    }

    /// The epoch reference, if the window is not empty.
    pub fn epoch(&self) -> (e: Option<u64>)
        ensures
            self.contents().len() == 0 ==> e is None,
            self.contents().len() > 0 ==> e == Some(self.spec_epoch()),
    {
        if self.samples.len() == 0 {
            None
        } else {
            Some(self.samples[0].t_nanos)
        }
    }

    /// Append a sample; if the window would then exceed its capacity,
    /// evict the oldest. The length therefore never exceeds the capacity
    /// once a push has completed, and the epoch moves to the new front.
    pub fn push(&mut self, x: Sample)
        requires
            old(self).wf(),
            old(self).admits(x),
        ensures
            final(self).wf(),
            final(self).cap() == old(self).cap(),
            final(self).contents() == pushed(old(self).contents(), old(self).cap(), x),
            final(self).contents().len() <= old(self).cap(),
            final(self).contents().len() > 0,
            final(self).spec_epoch() == final(self).contents()[0].t_nanos,
    {
        self.samples.push(x);
        if self.samples.len() > self.capacity {
            self.samples.remove(0);
            assert(self.samples@ =~= pushed(old(self).contents(), old(self).cap(), x));
        }
    }

    /// The chart frame: every sample's elapsed nanoseconds since the
    /// epoch, oldest first. The front point is always at elapsed time
    /// zero, and elapsed times never decrease along the frame.
    pub fn snapshot_as_chart_frame(&self) -> (frame: Vec<ChartPoint>)
        requires
            self.wf(),
        ensures
            frame@ == chart_frame_of(self.contents()),
            frame@.len() == self.contents().len(),
            frame@.len() > 0 ==> frame@[0].elapsed_nanos == 0,
            forall|i: int, j: int|
                0 <= i <= j < frame@.len() ==> frame@[i].elapsed_nanos <= frame@[j].elapsed_nanos,
    {
        let mut frame: Vec<ChartPoint> = Vec::new();
        let n: usize = self.samples.len();
        if n == 0 {
            assert(frame@ =~= chart_frame_of(self.contents()));
            return frame;
        }
        let epoch: u64 = self.samples[0].t_nanos;
        let mut i: usize = 0;
        while i < n
            invariant
                self.wf(),
                n == self.contents().len(),
                0 < n,
                epoch == self.contents()[0].t_nanos,
                i <= n,
                frame@.len() == i,
                forall|k: int|
                    0 <= k < i ==> frame@[k] == chart_frame_of(self.contents())[k],
            decreases n - i,
        {
            let s = self.samples[i];
            let p = ChartPoint { elapsed_nanos: s.t_nanos - epoch, word: s.word };
            frame.push(p);
            i = i + 1;
        }
        assert(frame@ =~= chart_frame_of(self.contents()));
        frame
    }
}

/// Law: however many pushes came before, one more push leaves at most
/// `cap` samples in the window.
pub proof fn lemma_push_bounds_length(s: Seq<Sample>, cap: int, x: Sample)
    requires
        1 <= cap,
        s.len() <= cap,
    ensures
        pushed(s, cap, x).len() <= cap,
{
}

/// Law: a push keeps the timestamps sorted whenever the new sample does
/// not run the clock backwards.
pub proof fn lemma_push_keeps_order(s: Seq<Sample>, cap: int, x: Sample)
    requires
        1 <= cap,
        timestamps_sorted(s),
        s.len() == 0 || s.last().t_nanos <= x.t_nanos,
    ensures
        timestamps_sorted(pushed(s, cap, x)),
{
}

/// Law: in a non-empty window the earliest sample's derived elapsed time
/// is exactly zero.
pub proof fn lemma_front_elapsed_zero(s: Seq<Sample>)
    requires
        s.len() > 0,
    ensures
        chart_frame_of(s)[0].elapsed_nanos == 0,
{
}

/// Law: rebasing onto the epoch preserves the sample order, so the
/// derived elapsed times never decrease along the frame.
pub proof fn lemma_elapsed_monotone(s: Seq<Sample>)
    requires
        timestamps_sorted(s),
    ensures
        forall|i: int, j: int|
            0 <= i <= j < s.len() ==> chart_frame_of(s)[i].elapsed_nanos <= chart_frame_of(
                s,
            )[j].elapsed_nanos,
{
}

/// Law: the chart frame is a function of the window's contents alone, so
/// two snapshots with no push in between are identical.
pub proof fn lemma_snapshot_idempotent(s: Seq<Sample>, f1: Seq<ChartPoint>, f2: Seq<ChartPoint>)
    requires
        f1 == chart_frame_of(s),
        f2 == chart_frame_of(s),
    ensures
        f1 == f2,
{
}

} // verus!
