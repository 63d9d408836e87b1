//! The two sample buffers of the vocoder: the analyser's sliding window over
//! the most recent `N` input samples, and the synthesiser's overlap-add buffer
//! from which `H` output samples are emitted per step.
use std::collections::VecDeque;
use vstd::prelude::*;

use crate::config::FrameConfig;

verus! {

/// The most recent `frame_size` input samples, oldest first.
pub struct SampleWindow<T> {
    samples: VecDeque<T>,
    step: usize,
}

impl<T: Copy> SampleWindow<T> {
    pub closed spec fn view(&self) -> Seq<T> {
        self.samples@
    }

    pub closed spec fn spec_step(&self) -> nat {
        self.step as nat
    }

    pub closed spec fn wf(&self) -> bool {
        0 < self.step < self.samples@.len()
    }

    /// A window of `N` copies of `zero` that shifts by `H` samples per step.
    pub fn new(config: &FrameConfig, zero: T) -> (r: SampleWindow<T>)
        ensures
            r.wf(),
            r.view() == Seq::new(config.spec_frame_size(), |_i: int| zero),
            r.spec_step() == config.spec_step_size(),
    {
        let n = config.frame_size();
        let step = config.step_size();
        let mut samples: VecDeque<T> = VecDeque::new();
        let mut i: usize = 0;
        while i < n
            invariant
                i <= n,
                samples@ == Seq::new(i as nat, |_i: int| zero),
            decreases n - i,
        {
            samples.push_back(zero);
            i = i + 1;
            assert(samples@ =~= Seq::new(i as nat, |_i: int| zero));
        }
        SampleWindow { samples, step }
    }

    /// Number of samples held, the frame size `N`.
    pub fn len(&self) -> (r: usize)
        ensures
            r == self.view().len(),
    {
        self.samples.len()
    }

    /// The step size `H`.
    pub fn step_size(&self) -> (r: usize)
        ensures
            r == self.spec_step(),
    {
        self.step
    }

    /// The sample at position `k`, counted from the oldest.
    pub fn get(&self, k: usize) -> (r: T)
        requires
            k < self.view().len(),
        ensures
            r == self.view()[k as int],
    {
        self.samples[k]
    }

    /// Appends the `H` samples of `hop` and drops the `H` oldest: the window
    /// then holds the most recent `N` samples.
    pub fn shift_in(&mut self, hop: &[T])
        requires
            old(self).wf(),
            hop@.len() == old(self).spec_step(),
        ensures
            final(self).wf(),
            final(self).spec_step() == old(self).spec_step(),
            final(self).view() == (old(self).view() + hop@).subrange(
                hop@.len() as int,
                (old(self).view().len() + hop@.len()) as int,
            ),
    {
        let ghost start = self.samples@;
        let ghost n = start.len();
        let h = self.step;
        let mut i: usize = 0;
        while i < h
            invariant
                n == start.len(),
                0 < h < n,
                h == self.step,
                hop@.len() == h,
                i <= h,
                self.samples@ == (start + hop@).subrange(i as int, n + i),
            decreases h - i,
        {
            self.samples.push_back(hop[i]);
            self.samples.pop_front();
            i = i + 1;
            assert(self.samples@ =~= (start + hop@).subrange(i as int, n + i));
        }
    }
}

/// The synthesiser's output accumulator: `N` samples holding what earlier
/// steps added, of which the first `H` are final and are emitted next.
pub struct OverlapBuffer<T> {
    samples: Vec<T>,
    step: usize,
    zero: T,
}

impl<T: Copy> OverlapBuffer<T> {
    pub closed spec fn view(&self) -> Seq<T> {
        self.samples@
    }

    pub closed spec fn spec_step(&self) -> nat {
        self.step as nat
    }

    pub closed spec fn spec_zero(&self) -> T {
        self.zero
    }

    pub closed spec fn wf(&self) -> bool {
        0 < self.step < self.samples@.len()
    }

    /// `N` copies of `zero`, emitted `H` samples at a time.
    pub fn new(config: &FrameConfig, zero: T) -> (r: OverlapBuffer<T>)
        ensures
            r.wf(),
            r.view() == Seq::new(config.spec_frame_size(), |_i: int| zero),
            r.spec_step() == config.spec_step_size(),
            r.spec_zero() == zero,
    {
        let n = config.frame_size();
        let step = config.step_size();
        let mut samples: Vec<T> = Vec::new();
        let mut i: usize = 0;
        while i < n
            invariant
                i <= n,
                samples@ == Seq::new(i as nat, |_i: int| zero),
            decreases n - i,
        {
            samples.push(zero);
            i = i + 1;
            assert(samples@ =~= Seq::new(i as nat, |_i: int| zero));
        }
        OverlapBuffer { samples, step, zero }
    }

    /// Number of samples held, the frame size `N`.
    pub fn len(&self) -> (r: usize)
        ensures
            r == self.view().len(),
    {
        self.samples.len()
    }

    /// The step size `H`.
    pub fn step_size(&self) -> (r: usize)
        ensures
            r == self.spec_step(),
    {
        self.step
    }

    /// The accumulated sample at position `k`.
    pub fn get(&self, k: usize) -> (r: T)
        requires
            k < self.view().len(),
        ensures
            r == self.view()[k as int],
    {
        self.samples[k]
    }

    /// Replaces the accumulated sample at position `k`.
    pub fn set(&mut self, k: usize, value: T)
        requires
            old(self).wf(),
            k < old(self).view().len(),
        ensures
            final(self).wf(),
            final(self).spec_step() == old(self).spec_step(),
            final(self).spec_zero() == old(self).spec_zero(),
            final(self).view() == old(self).view().update(k as int, value),
    {
        self.samples.set(k, value);
    }

    /// Writes the first `H` samples into `out[0 .. H]`, leaving the rest of
    /// `out` as it was, then shifts the buffer left by `H` and fills the new
    /// tail with zeros.
    pub fn emit(&mut self, out: &mut [T])
        requires
            old(self).wf(),
            old(out)@.len() >= old(self).spec_step(),
        ensures
            final(self).wf(),
            final(self).spec_step() == old(self).spec_step(),
            final(self).spec_zero() == old(self).spec_zero(),
            final(out)@.len() == old(out)@.len(),
            final(out)@.subrange(0, old(self).spec_step() as int) == old(self).view().subrange(
                0,
                old(self).spec_step() as int,
            ),
            final(out)@.subrange(old(self).spec_step() as int, old(out)@.len() as int) == old(
                out,
            )@.subrange(old(self).spec_step() as int, old(out)@.len() as int),
            final(self).view() == old(self).view().subrange(
                old(self).spec_step() as int,
                old(self).view().len() as int,
            ) + Seq::new(old(self).spec_step(), |_i: int| old(self).spec_zero()),
    {
        let ghost start = self.samples@;
        let ghost out0 = out@;
        let ghost zero = self.zero;
        let n = self.samples.len();
        let h = self.step;
        let mut i: usize = 0;
        while i < h
            invariant
                self.samples@ == start,
                n == start.len(),
                0 < h < n,
                h == self.step,
                zero == self.zero,
                i <= h,
                out@.len() == out0.len(),
                out0.len() >= h,
                forall|j: int| 0 <= j < i ==> out@[j] == start[j],
                forall|j: int| i <= j < out0.len() ==> out@[j] == out0[j],
            decreases h - i,
        {
            out[i] = self.samples[i];
            i = i + 1;
        }
        let mut j: usize = 0;
        while j < n - h
            invariant
                self.samples@.len() == n,
                n == start.len(),
                0 < h < n,
                h == self.step,
                zero == self.zero,
                j <= n - h,
                forall|m: int| 0 <= m < j ==> self.samples@[m] == start[m + h],
                forall|m: int| j <= m < n ==> self.samples@[m] == start[m],
            decreases n - h - j,
        {
            let v = self.samples[j + h];
            self.samples.set(j, v);
            j = j + 1;
        }
        while j < n
            invariant
                self.samples@.len() == n,
                n == start.len(),
                0 < h < n,
                h == self.step,
                zero == self.zero,
                n - h <= j <= n,
                forall|m: int| 0 <= m < n - h ==> self.samples@[m] == start[m + h],
                forall|m: int| n - h <= m < j ==> self.samples@[m] == self.zero,
            decreases n - j,
        {
            self.samples.set(j, self.zero);
            j = j + 1;
        }
        assert(self.samples@ =~= start.subrange(h as int, n as int) + Seq::new(
            h as nat,
            |_i: int| self.zero,
        ));
        assert(out@.subrange(0, h as int) =~= start.subrange(0, h as int));
        assert(out@.subrange(h as int, out0.len() as int) =~= out0.subrange(
            h as int,
            out0.len() as int,
        ));
    }
}

} // verus!
