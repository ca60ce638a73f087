//! The fixed-step run recorder: the verified heart of the Euler integrator
//! and of the analytic sampler.
//!
//! A run over `[t0, t_end]` with `N` steps records exactly `N + 1` samples,
//! the first of which is the start sample `(t0, y0)`. The recorder owns the
//! recurrence's bookkeeping — validation of `N`, the sample count, the order
//! of the recorded sequences, and which value lands at which index — while
//! the caller performs the floating-point work of each step (the Euler
//! update `y + h * f(t, y)` and the time update `t + h`, or the analytic
//! formula) and feeds the resulting IEEE-754 bit patterns back in.
//!
//! Each call to [`RunRecorder::step`] records the pending sample and
//! installs the caller's next one, so the recorder mirrors a loop that
//! pushes the current sample and then advances it, `N + 1` times over.

use vstd::prelude::*;

use crate::errors::SolverError;

verus! {

/// The time samples a run records, as a function of its start time and of
/// the step inputs fed to it: the start time, then the time of every input.
pub open spec fn run_times(t0: u64, inputs: Seq<(u64, u64)>) -> Seq<u64> {
    seq![t0] + inputs.map_values(|p: (u64, u64)| p.0)
}

/// The state samples a run records, as a function of its start state and of
/// the step inputs fed to it: the start state, then the state of every input.
pub open spec fn run_states(y0: u64, inputs: Seq<(u64, u64)>) -> Seq<u64> {
    seq![y0] + inputs.map_values(|p: (u64, u64)| p.1)
}

proof fn lemma_run_extend(t0: u64, y0: u64, inputs: Seq<(u64, u64)>, p: (u64, u64))
    ensures
        run_times(t0, inputs.push(p)) =~= run_times(t0, inputs).push(p.0),
        run_states(y0, inputs.push(p)) =~= run_states(y0, inputs).push(p.1),
{
}

/// Records one fixed-step run: a grid of time samples and the trajectory of
/// state samples index-aligned with it, both held as IEEE-754 bit patterns.
pub struct RunRecorder {
    n: usize,
    t0: u64,
    y0: u64,
    cur_t: u64,
    cur_y: u64,
    ts: Vec<u64>,
    ys: Vec<u64>,
    fed: Ghost<Seq<(u64, u64)>>,
}

impl RunRecorder {
    /// Number of steps this run was configured with.
    pub closed spec fn step_count(&self) -> nat {
        self.n as nat
    }

    /// Start time of the run, as bits.
    pub closed spec fn start_time(&self) -> u64 {
        self.t0
    }

    /// Start state of the run, as bits.
    pub closed spec fn start_state(&self) -> u64 {
        self.y0
    }

    /// Every step input fed to the run so far, oldest first.
    pub closed spec fn inputs(&self) -> Seq<(u64, u64)> {
        self.fed@
    }

    /// Time samples recorded so far.
    pub closed spec fn times(&self) -> Seq<u64> {
        self.ts@
    }

    /// State samples recorded so far.
    pub closed spec fn states(&self) -> Seq<u64> {
        self.ys@
    }

    /// The time of the sample that the next step will record.
    pub closed spec fn pending_time(&self) -> u64 {
        self.cur_t
    }

    /// The state of the sample that the next step will record.
    pub closed spec fn pending_state(&self) -> u64 {
        self.cur_y
    }

    /// Well-formedness: the recorded sequences are exactly the prefix of
    /// `run_times`/`run_states` already paid for by step inputs, and the
    /// pending sample is the next entry of each.
    pub closed spec fn wf(&self) -> bool {
        &&& 1 <= self.n
        &&& self.fed@.len() <= self.n + 1
        &&& self.ts@.len() == self.fed@.len()
        &&& self.ys@.len() == self.fed@.len()
        &&& self.ts@ == run_times(self.t0, self.fed@).take(self.fed@.len() as int)
        &&& self.ys@ == run_states(self.y0, self.fed@).take(self.fed@.len() as int)
        &&& self.cur_t == run_times(self.t0, self.fed@)[self.fed@.len() as int]
        &&& self.cur_y == run_states(self.y0, self.fed@)[self.fed@.len() as int]
    }

    /// Begin a run of `n` steps from the start sample `(t0_bits, y0_bits)`.
    ///
    /// A run of zero steps has no step size and is rejected with
    /// `SolverError::InvalidArgument`; every other configuration is
    /// accepted.
    pub fn new(t0_bits: u64, y0_bits: u64, n: usize) -> (r: Result<RunRecorder, SolverError>)
        ensures
            r is Err <==> n == 0,
            r is Err ==> r->Err_0 == SolverError::InvalidArgument,
            r is Ok ==> r->Ok_0.wf(),
            r is Ok ==> r->Ok_0.step_count() == n,
            r is Ok ==> r->Ok_0.start_time() == t0_bits,
            r is Ok ==> r->Ok_0.start_state() == y0_bits,
            r is Ok ==> r->Ok_0.inputs() == Seq::<(u64, u64)>::empty(),
            r is Ok ==> r->Ok_0.times() == Seq::<u64>::empty(),
            r is Ok ==> r->Ok_0.states() == Seq::<u64>::empty(),
            r is Ok ==> r->Ok_0.pending_time() == t0_bits,
            r is Ok ==> r->Ok_0.pending_state() == y0_bits,
    {
        if n == 0 {
            Err(SolverError::InvalidArgument)
        } else {
            let run = RunRecorder {
                n,
                t0: t0_bits,
                y0: y0_bits,
                cur_t: t0_bits,
                cur_y: y0_bits,
                ts: Vec::new(),
                ys: Vec::new(),
                fed: Ghost(Seq::empty()),
            };
            proof {
                assert(run.ts@ =~= run_times(t0_bits, run.fed@).take(0));
                assert(run.ys@ =~= run_states(y0_bits, run.fed@).take(0));
                assert(run_times(t0_bits, run.fed@)[0] == t0_bits);
                assert(run_states(y0_bits, run.fed@)[0] == y0_bits);
            }
            Ok(run)
        }
    }

    /// The time of the sample about to be recorded, as bits. The caller
    /// evaluates its floating-point work at this sample.
    pub fn pending_time_bits(&self) -> (r: u64)
        ensures
            r == self.pending_time(),
    {
        self.cur_t
    }

    /// The state of the sample about to be recorded, as bits.
    pub fn pending_state_bits(&self) -> (r: u64)
        ensures
            r == self.pending_state(),
    {
        self.cur_y
    }

    /// How many samples have been recorded so far.
    pub fn recorded(&self) -> (r: usize)
        ensures
            r == self.times().len(),
    {
        self.ts.len()
    }

    /// Whether another step is still owed: a run of `n` steps records
    /// exactly `n + 1` samples.
    pub fn needs_step(&self) -> (r: bool)
        requires
            self.wf(),
        ensures
            r <==> self.times().len() < self.step_count() + 1,
    {
        self.ts.len() <= self.n
    }

    /// Record the pending sample, then install the caller-computed next
    /// sample `(t_next_bits, y_next_bits)` as pending.
    pub fn step(&mut self, t_next_bits: u64, y_next_bits: u64)
        requires
            old(self).wf(),
            old(self).times().len() < old(self).step_count() + 1,
        ensures
            final(self).wf(),
            final(self).step_count() == old(self).step_count(),
            final(self).start_time() == old(self).start_time(),
            final(self).start_state() == old(self).start_state(),
            final(self).inputs() == old(self).inputs().push((t_next_bits, y_next_bits)),
            final(self).times() == old(self).times().push(old(self).pending_time()),
            final(self).states() == old(self).states().push(old(self).pending_state()),
            final(self).pending_time() == t_next_bits,
            final(self).pending_state() == y_next_bits,
    {
        let ghost prev = *self;
        self.ts.push(self.cur_t);
        self.ys.push(self.cur_y);
        self.cur_t = t_next_bits;
        self.cur_y = y_next_bits;
        let ghost p = (t_next_bits, y_next_bits);
        self.fed = Ghost(self.fed@.push(p));
        proof {
            lemma_run_extend(prev.t0, prev.y0, prev.fed@, p);
            let all_t = run_times(prev.t0, prev.fed@);
            let all_y = run_states(prev.y0, prev.fed@);
            let k: int = prev.fed@.len() as int;
            assert(self.ts@ =~= run_times(self.t0, self.fed@).take(k + 1)) by {
                assert(self.ts@ =~= all_t.take(k).push(all_t[k]));
                assert(all_t.take(k).push(all_t[k]) =~= all_t.take(k + 1));
                assert(run_times(self.t0, self.fed@).take(k + 1) =~= all_t.push(p.0).take(k + 1));
                assert(all_t.push(p.0).take(k + 1) =~= all_t.take(k + 1));
            }
            assert(self.ys@ =~= run_states(self.y0, self.fed@).take(k + 1)) by {
                assert(self.ys@ =~= all_y.take(k).push(all_y[k]));
                assert(all_y.take(k).push(all_y[k]) =~= all_y.take(k + 1));
                assert(run_states(self.y0, self.fed@).take(k + 1) =~= all_y.push(p.1).take(k + 1));
                assert(all_y.push(p.1).take(k + 1) =~= all_y.take(k + 1));
            }
            assert(run_times(self.t0, self.fed@)[k + 1] == p.0);
            assert(run_states(self.y0, self.fed@)[k + 1] == p.1);
        }
    }

    /// Hand back the recorded grid and trajectory.
    ///
    /// The grid and the trajectory both hold exactly `n + 1` samples; the
    /// grid starts with the exact bits of `t0` and the trajectory with the
    /// exact bits of `y0`; and both sequences are a pure function of the
    /// start sample and the step inputs.
    pub fn finish(self) -> (r: (Vec<u64>, Vec<u64>))
        requires
            self.wf(),
            self.times().len() == self.step_count() + 1,
        ensures
            r.0@ == self.times(),
            r.1@ == self.states(),
            r.0@ == run_times(self.start_time(), self.inputs()).take(self.step_count() as int + 1),
            r.1@ == run_states(self.start_state(), self.inputs()).take(self.step_count() as int + 1),
            r.0@.len() == self.step_count() + 1,
            r.1@.len() == self.step_count() + 1,
            r.0@[0] == self.start_time(),
            r.1@[0] == self.start_state(),
    {
        proof {
            assert(run_times(self.t0, self.fed@)[0] == self.t0);
            assert(run_states(self.y0, self.fed@)[0] == self.y0);
        }
        (self.ts, self.ys)
    }
}

/// Two runs from the same start sample, fed the same step inputs, have
/// recorded the same time and state sequences and hold the same pending
/// sample: the recorder keeps no hidden state, so driving the integrator
/// twice with identical inputs yields bit-identical output.
pub proof fn lemma_run_deterministic(a: RunRecorder, b: RunRecorder)
    requires
        a.wf(),
        b.wf(),
        a.start_time() == b.start_time(),
        a.start_state() == b.start_state(),
        a.inputs() == b.inputs(),
    ensures
        a.times() == b.times(),
        a.states() == b.states(),
        a.pending_time() == b.pending_time(),
        a.pending_state() == b.pending_state(),
{
}

} // verus!
