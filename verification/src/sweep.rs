//! The frequency-sweep orchestrator's decision core.
//!
//! A sweep drives one acquisition per frequency of a logarithmic grid and
//! collects, for each motor, the `(elapsed time, setpoint, measured
//! speed)` triples of every frequency. The frequencies themselves, and
//! the timing each one implies, are real-valued and belong to the caller;
//! here a frequency is its index in the grid. On a connection failure the
//! whole sweep restarts from the first frequency — a documented design
//! choice: no partial progress survives a retry.

use vstd::prelude::*;
use crate::acquire::{AcqResult, Sample};

verus! {

/// The per-motor triples of one acquisition: elapsed time in
/// microseconds, input-speed setpoint, measured speed (both bit
/// patterns). Motor 1 selection.
pub open spec fn motor_1_curve_of(samples: Seq<(u64, Sample)>) -> Seq<(u64, u32, u32)> {
    Seq::new(
        samples.len(),
        |i: int| (samples[i].0, samples[i].1.motor_1_input_speed, samples[i].1.motor_1_speed),
    )
}

/// Motor 2 selection of the same triples.
pub open spec fn motor_2_curve_of(samples: Seq<(u64, Sample)>) -> Seq<(u64, u32, u32)> {
    Seq::new(
        samples.len(),
        |i: int| (samples[i].0, samples[i].1.motor_2_input_speed, samples[i].1.motor_2_speed),
    )
}

/// Extracts motor 1's `(time, setpoint, speed)` triples.
pub fn motor_1_curve(acq: &AcqResult) -> (r: Vec<(u64, u32, u32)>)
    ensures
        r@ == motor_1_curve_of(acq.samples@),
{
    let mut r: Vec<(u64, u32, u32)> = Vec::new();
    let mut i: usize = 0;
    while i < acq.samples.len()
        invariant
            i <= acq.samples@.len(),
            r@.len() == i,
            forall|k: int| 0 <= k < i ==> r@[k] == motor_1_curve_of(acq.samples@)[k],
        decreases acq.samples@.len() - i,
    {
        let (t, s) = acq.samples[i];
        r.push((t, s.motor_1_input_speed, s.motor_1_speed));
        i = i + 1;
    }
    assert(r@ =~= motor_1_curve_of(acq.samples@));
    r
}

/// Extracts motor 2's `(time, setpoint, speed)` triples.
pub fn motor_2_curve(acq: &AcqResult) -> (r: Vec<(u64, u32, u32)>)
    ensures
        r@ == motor_2_curve_of(acq.samples@),
{
    let mut r: Vec<(u64, u32, u32)> = Vec::new();
    let mut i: usize = 0;
    while i < acq.samples.len()
        invariant
            i <= acq.samples@.len(),
            r@.len() == i,
            forall|k: int| 0 <= k < i ==> r@[k] == motor_2_curve_of(acq.samples@)[k],
        decreases acq.samples@.len() - i,
    {
        let (t, s) = acq.samples[i];
        r.push((t, s.motor_2_input_speed, s.motor_2_speed));
        i = i + 1;
    }
    assert(r@ =~= motor_2_curve_of(acq.samples@));
    r
}

/// One motor's accumulated sweep points, abstractly: frequency index
/// paired with that acquisition's triples.
pub open spec fn points_view(rs: Seq<(usize, Vec<(u64, u32, u32)>)>) -> Seq<
    (int, Seq<(u64, u32, u32)>),
> {
    Seq::new(rs.len(), |i: int| (rs[i].0 as int, rs[i].1@))
}

/// What the sweep does next.
#[derive(Clone, Copy, Debug, PartialEq, Eq, Structural)]
pub enum SweepAction {
    /// Run one acquisition at this frequency index.
    Acquire(usize),
    /// Pause briefly, then resume; the state has been reset to the first
    /// frequency.
    Restart,
    /// Every frequency succeeded in one uninterrupted pass.
    Done,
}

/// What one acquisition attempt came to.
pub enum SweepEvent {
    /// The session completed and decoded this result.
    Acquired(AcqResult),
    /// The session failed with a connection error (the only retried
    /// error class).
    ConnectionFailed,
}

/// The sweep's progress: the next frequency index to acquire and one
/// list of sweep points per motor, one point per completed frequency.
pub struct SweepState {
    pub freq_count: usize,
    pub next_index: usize,
    pub results_m1: Vec<(usize, Vec<(u64, u32, u32)>)>,
    pub results_m2: Vec<(usize, Vec<(u64, u32, u32)>)>,
}

impl SweepState {
    /// Invariant: one accumulated point per completed frequency, held in
    /// grid order. A grid needs at least two frequencies.
    pub open spec fn wf(self) -> bool {
        &&& self.freq_count >= 2
        &&& self.next_index <= self.freq_count
        &&& self.results_m1@.len() == self.next_index
        &&& self.results_m2@.len() == self.next_index
        &&& forall|i: int|
            0 <= i < self.results_m1@.len() ==> (#[trigger] self.results_m1@[i]).0 == i
        &&& forall|i: int|
            0 <= i < self.results_m2@.len() ==> (#[trigger] self.results_m2@[i]).0 == i
    }

    /// Starts a sweep over `freq_count` grid points. A single-point grid
    /// is degenerate (the grid formula divides by `freq_count - 1`) and
    /// is ruled out.
    pub fn new(freq_count: usize) -> (s: SweepState)
        requires
            freq_count >= 2,
        ensures
            s.wf(),
            s.freq_count == freq_count,
            s.next_index == 0,
            s.results_m1@.len() == 0,
            s.results_m2@.len() == 0,
    {
        SweepState {
            freq_count,
            next_index: 0,
            results_m1: Vec::new(),
            results_m2: Vec::new(),
        }
    }

    /// What to do now: acquire the next frequency, or stop when every
    /// frequency has succeeded in one pass.
    pub fn next_action(&self) -> (a: SweepAction)
        ensures
            self.next_index < self.freq_count ==> a == SweepAction::Acquire(self.next_index),
            self.next_index >= self.freq_count ==> a == SweepAction::Done,
    {
        if self.next_index < self.freq_count {
            SweepAction::Acquire(self.next_index)
        } else {
            SweepAction::Done
        }
    }

    /// Folds the outcome of one acquisition attempt into the sweep.
    ///
    /// On success, each motor's `(time, setpoint, speed)` triples are
    /// appended as that frequency's sweep point and the sweep moves to
    /// the next frequency. On a connection failure the sweep restarts
    /// from the first frequency with every accumulated point discarded.
    pub fn step(&mut self, event: SweepEvent) -> (action: SweepAction)
        requires
            old(self).wf(),
            old(self).next_index < old(self).freq_count,
        ensures
            final(self).wf(),
            final(self).freq_count == old(self).freq_count,
            match event {
                SweepEvent::ConnectionFailed => {
                    &&& final(self).next_index == 0
                    &&& final(self).results_m1@.len() == 0
                    &&& final(self).results_m2@.len() == 0
                    &&& action == SweepAction::Restart
                },
                SweepEvent::Acquired(acq) => {
                    &&& final(self).next_index == old(self).next_index + 1
                    &&& points_view(final(self).results_m1@) == points_view(
                        old(self).results_m1@,
                    ).push((old(self).next_index as int, motor_1_curve_of(acq.samples@)))
                    &&& points_view(final(self).results_m2@) == points_view(
                        old(self).results_m2@,
                    ).push((old(self).next_index as int, motor_2_curve_of(acq.samples@)))
                    &&& action == (if old(self).next_index + 1 == old(self).freq_count {
                        SweepAction::Done
                    } else {
                        SweepAction::Acquire((old(self).next_index + 1) as usize)
                    })
                },
            },
    {
        match event {
            SweepEvent::ConnectionFailed => {
                self.next_index = 0;
                self.results_m1 = Vec::new();
                self.results_m2 = Vec::new();
                SweepAction::Restart
            },
            SweepEvent::Acquired(acq) => {
                let c1 = motor_1_curve(&acq);
                let c2 = motor_2_curve(&acq);
                let idx: usize = self.next_index;
                self.results_m1.push((idx, c1));
                self.results_m2.push((idx, c2));
                self.next_index = idx + 1;
                proof {
                    assert(points_view(self.results_m1@) =~~= points_view(
                        old(self).results_m1@,
                    ).push((old(self).next_index as int, motor_1_curve_of(acq.samples@))));
                    assert(points_view(self.results_m2@) =~~= points_view(
                        old(self).results_m2@,
                    ).push((old(self).next_index as int, motor_2_curve_of(acq.samples@))));
                }
                if self.next_index == self.freq_count {
                    SweepAction::Done
                } else {
                    SweepAction::Acquire(self.next_index)
                }
            },
        }
    }
}

} // verus!
