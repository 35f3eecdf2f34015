//! Peak-amplitude decimation for display.
//!
//! The meter watches the sample stream independently of recording state and
//! reduces it to one clamped peak value per fixed time window.  The window
//! anchor advances by exactly one window length per emission — never to
//! "now" — so the cadence does not drift however irregularly samples
//! arrive.  A window in which no sample arrived emits zero.

use vstd::prelude::*;
use crate::sample::{mag, magnitude, UNIT};

verus! {

/// The greatest magnitude in a sample sequence; zero for an empty one.
pub open spec fn spec_peak(ss: Seq<i32>) -> int
    decreases ss.len(),
{
    if ss.len() == 0 {
        0
    } else {
        let rest = spec_peak(ss.drop_last());
        if mag(ss.last()) > rest {
            mag(ss.last())
        } else {
            rest
        }
    }
}

/// A peak clamped to the display range: `UNIT` stands for full scale.
pub open spec fn spec_clamp(p: int) -> u32 {
    if p > UNIT {
        UNIT
    } else {
        p as u32
    }
}

/// The peak of a sequence of silence is zero, so a silent window emits 0.
pub proof fn lemma_silent_peak(ss: Seq<i32>)
    requires
        forall|i: int| 0 <= i < ss.len() ==> ss[i] == 0i32,
    ensures
        spec_peak(ss) == 0,
    decreases ss.len(),
{
    if ss.len() > 0 {
        lemma_silent_peak(ss.drop_last());
    }
}

/// The peak never falls below any single sample's magnitude.
pub proof fn lemma_peak_dominates(ss: Seq<i32>, i: int)
    requires
        0 <= i < ss.len(),
    ensures
        spec_peak(ss) >= mag(ss[i]),
    decreases ss.len(),
{
    if i < ss.len() - 1 {
        lemma_peak_dominates(ss.drop_last(), i);
    }
}

/// A non-empty window's peak is attained: some sample in it has exactly
/// that magnitude, so each emitted value reflects the loudest sample of
/// its window and never an invented one.
pub proof fn lemma_peak_attained(ss: Seq<i32>)
    requires
        ss.len() > 0,
    ensures
        exists|i: int| 0 <= i < ss.len() && spec_peak(ss) == mag(ss[i]),
    decreases ss.len(),
{
    if ss.len() == 1 {
        assert(spec_peak(ss.drop_last()) == 0);
        assert(spec_peak(ss) == mag(ss[0]));
    } else {
        lemma_peak_attained(ss.drop_last());
        if spec_peak(ss) != mag(ss.last()) {
            let j = choose|j: int|
                0 <= j < ss.drop_last().len() && spec_peak(ss.drop_last()) == mag(
                    ss.drop_last()[j],
                );
            assert(spec_peak(ss) == mag(ss[j]));
        }
    }
}

/// Decimates the sample stream into one clamped peak per window.
pub struct VolumeMeter {
    window_ms: u64,
    anchor_ms: u64,
    running_peak: u32,
    observed: Ghost<Seq<i32>>,
    window_samples: Ghost<Seq<i32>>,
}

impl VolumeMeter {
    /// The fixed window length, in milliseconds.
    pub closed spec fn window_ms(self) -> u64 {
        self.window_ms
    }

    /// The current window's anchor instant, in milliseconds.
    pub closed spec fn anchor_ms(self) -> u64 {
        self.anchor_ms
    }

    /// Every sample the meter has ever been fed, in arrival order.
    pub closed spec fn observed(self) -> Seq<i32> {
        self.observed@
    }

    /// The samples that arrived in the current window, in arrival order.
    pub closed spec fn window_samples(self) -> Seq<i32> {
        self.window_samples@
    }

    /// The running peak is exactly the greatest magnitude seen in the
    /// current window.
    pub closed spec fn wf(self) -> bool {
        &&& self.window_ms >= 1
        &&& self.running_peak == spec_peak(self.window_samples@)
    }

    /// A meter with the given window length, anchored at `start_ms`.
    pub fn new(window_ms: u64, start_ms: u64) -> (m: VolumeMeter)
        requires
            window_ms >= 1,
        ensures
            m.wf(),
            m.window_ms() == window_ms,
            m.anchor_ms() == start_ms,
            m.observed() =~= Seq::<i32>::empty(),
            m.window_samples() =~= Seq::<i32>::empty(),
    {
        VolumeMeter {
            window_ms,
            anchor_ms: start_ms,
            running_peak: 0,
            observed: Ghost(Seq::empty()),
            window_samples: Ghost(Seq::empty()),
        }
    }

    /// Take one sample into the current window.
    pub fn feed_sample(&mut self, s: i32)
        requires
            old(self).wf(),
        ensures
            final(self).wf(),
            final(self).window_ms() == old(self).window_ms(),
            final(self).anchor_ms() == old(self).anchor_ms(),
            final(self).observed() =~= old(self).observed().push(s),
            final(self).window_samples() =~= old(self).window_samples().push(s),
    {
        let m = magnitude(s);
        if m > self.running_peak {
            self.running_peak = m;
        }
        proof {
            self.observed@ = self.observed@.push(s);
            self.window_samples@ = self.window_samples@.push(s);
            assert(self.window_samples@.drop_last() =~= old(self).window_samples@);
        }
    }

    /// Take a whole batch into the current window, in order.
    pub fn feed_batch(&mut self, batch: &Vec<i32>)
        requires
            old(self).wf(),
        ensures
            final(self).wf(),
            final(self).window_ms() == old(self).window_ms(),
            final(self).anchor_ms() == old(self).anchor_ms(),
            final(self).observed() =~= old(self).observed() + batch@,
            final(self).window_samples() =~= old(self).window_samples() + batch@,
    {
        let mut i: usize = 0;
        while i < batch.len()
            invariant
                0 <= i <= batch@.len(),
                self.wf(),
                self.window_ms() == old(self).window_ms(),
                self.anchor_ms() == old(self).anchor_ms(),
                self.observed() =~= old(self).observed() + batch@.take(i as int),
                self.window_samples() =~= old(self).window_samples() + batch@.take(i as int),
            decreases batch@.len() - i,
        {
            self.feed_sample(batch[i]);
            i = i + 1;
            proof {
                assert(batch@.take(i as int) =~= batch@.take(i - 1).push(batch@[i - 1]));
            }
        }
        proof {
            assert(batch@.take(batch@.len() as int) =~= batch@);
        }
    }

    /// Emit one value per window that has fully elapsed by `now_ms`.  The
    /// first emitted value is the current window's peak clamped to full
    /// scale; every further one belongs to a window in which no sample
    /// arrived and is zero.  The anchor advances by exactly one window
    /// length per emission, and the running peak starts over.
    pub fn tick(&mut self, now_ms: u64) -> (out: Vec<u32>)
        requires
            old(self).wf(),
            now_ms >= old(self).anchor_ms(),
        ensures
            final(self).wf(),
            final(self).window_ms() == old(self).window_ms(),
            final(self).observed() == old(self).observed(),
            out@.len() == (now_ms - old(self).anchor_ms()) as int / old(self).window_ms() as int,
            final(self).anchor_ms() == old(self).anchor_ms() + out@.len()
                * old(self).window_ms(),
            now_ms >= final(self).anchor_ms(),
            forall|i: int|
                0 <= i < out@.len() ==> out@[i] == (if i == 0 {
                    spec_clamp(spec_peak(old(self).window_samples()))
                } else {
                    0u32
                }),
            forall|i: int| 0 <= i < out@.len() ==> out@[i] <= UNIT,
            out@.len() > 0 ==> final(self).window_samples() =~= Seq::<i32>::empty(),
            out@.len() == 0 ==> final(self).window_samples() == old(self).window_samples(),
    {
        let mut out: Vec<u32> = Vec::new();
        while now_ms - self.anchor_ms >= self.window_ms
            invariant
                self.wf(),
                self.window_ms == old(self).window_ms(),
                self.observed@ == old(self).observed(),
                now_ms >= self.anchor_ms,
                self.anchor_ms == old(self).anchor_ms() + out@.len() * old(self).window_ms(),
                forall|i: int|
                    0 <= i < out@.len() ==> out@[i] == (if i == 0 {
                        spec_clamp(spec_peak(old(self).window_samples()))
                    } else {
                        0u32
                    }),
                out@.len() > 0 ==> self.window_samples@ =~= Seq::<i32>::empty(),
                out@.len() == 0 ==> self.window_samples@ == old(self).window_samples(),
            decreases now_ms - self.anchor_ms,
    {
            let v: u32 = if out.len() == 0 {
                let p = self.running_peak;
                self.running_peak = 0;
                proof {
                    self.window_samples@ = Seq::empty();
                }
                if p > UNIT {
                    UNIT
                } else {
                    p
                }
            } else {
                0
            };
            out.push(v);
            proof {
                let w = old(self).window_ms() as int;
                let n = out@.len() as int;
                assert(n * w == (n - 1) * w + w) by (nonlinear_arith);
            }
            self.anchor_ms = self.anchor_ms + self.window_ms;
        }
        proof {
            let a0 = old(self).anchor_ms() as int;
            let w = old(self).window_ms() as int;
            let n = out@.len() as int;
            vstd::arithmetic::div_mod::lemma_fundamental_div_mod_converse(
                now_ms - a0,
                w,
                n,
                now_ms - a0 - n * w,
            );
        }
        out
    }
}

} // verus!
