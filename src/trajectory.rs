use vstd::prelude::*;

use crate::simulator::Simulator;

verus! {

/// The oscillator index column of one step: `0, 1, ..., n - 1`.
pub open spec fn index_column(n: nat) -> Seq<u64> {
    Seq::new(n, |i: int| i as u64)
}

/// The rows that one time step hands to the writer, as four columns of equal
/// length: row `i` is `(time[i], oscillator[i], phase[i], frequency[i])`.
pub struct TrajectoryBatch<T> {
    time: Vec<u64>,
    oscillator: Vec<u64>,
    phase: Vec<T>,
    frequency: Vec<T>,
}

/// A copy of `v`, entry for entry.
fn copy_column<T: Copy>(v: &Vec<T>) -> (r: Vec<T>)
    ensures
        r@ == v@,
{
    let mut r: Vec<T> = Vec::with_capacity(v.len());
    let mut i: usize = 0;
    while i < v.len()
        invariant
            i <= v@.len(),
            r@ == v@.subrange(0, i as int),
        decreases v@.len() - i,
    {
        r.push(v[i]);
        i = i + 1;
    }
    assert(r@ =~= v@);
    r
}

impl<T: Copy> TrajectoryBatch<T> {
    pub closed spec fn spec_time(&self) -> Seq<u64> {
        self.time@
    }

    pub closed spec fn spec_oscillator(&self) -> Seq<u64> {
        self.oscillator@
    }

    pub closed spec fn spec_phase(&self) -> Seq<T> {
        self.phase@
    }

    pub closed spec fn spec_frequency(&self) -> Seq<T> {
        self.frequency@
    }

    /// The rows of the state `sim` reached after step `time` (counted from
    /// zero): one row per oscillator, in index order, each carrying the step's
    /// time index, the oscillator's index, its phase and its frequency.
    pub fn for_step(time: u64, sim: &Simulator<T>) -> (r: Self)
        requires
            sim.wf(),
        ensures
            r.spec_time() == Seq::new(sim.spec_phases()@.len(), |i: int| time),
            r.spec_oscillator() == index_column(sim.spec_phases()@.len()),
            r.spec_phase() == sim.spec_phases()@,
            r.spec_frequency() == sim.spec_frequencies()@,
    {
        let n = sim.len();
        let mut time_col: Vec<u64> = Vec::with_capacity(n);
        let mut oscillator_col: Vec<u64> = Vec::with_capacity(n);
        let mut i: usize = 0;
        while i < n
            invariant
                i <= n,
                time_col@ == Seq::new(i as nat, |k: int| time),
                oscillator_col@ == index_column(i as nat),
            decreases n - i,
        {
            time_col.push(time);
            oscillator_col.push(i as u64);
            i = i + 1;
            assert(time_col@ =~= Seq::new(i as nat, |k: int| time));
            assert(oscillator_col@ =~= index_column(i as nat));
        }
        TrajectoryBatch {
            time: time_col,
            oscillator: oscillator_col,
            phase: copy_column(sim.phases()),
            frequency: copy_column(sim.frequencies()),
        }
    }

    /// The number of rows.
    pub fn num_rows(&self) -> (r: usize)
        ensures
            r == self.spec_time().len(),
    {
        self.time.len()
    }

    /// The time index column.
    pub fn time(&self) -> (r: &Vec<u64>)
        ensures
            r@ == self.spec_time(),
    {
        &self.time
    }

    /// The oscillator index column.
    pub fn oscillator(&self) -> (r: &Vec<u64>)
        ensures
            r@ == self.spec_oscillator(),
    {
        &self.oscillator
    }

    /// The phase column.
    pub fn phase(&self) -> (r: &Vec<T>)
        ensures
            r@ == self.spec_phase(),
    {
        &self.phase
    }

    /// The frequency column.
    pub fn frequency(&self) -> (r: &Vec<T>)
        ensures
            r@ == self.spec_frequency(),
    {
        &self.frequency
    }

    /// The four columns, handed over whole.
    pub fn into_columns(self) -> (r: (Vec<u64>, Vec<u64>, Vec<T>, Vec<T>))
        ensures
            r.0@ == self.spec_time(),
            r.1@ == self.spec_oscillator(),
            r.2@ == self.spec_phase(),
            r.3@ == self.spec_frequency(),
    {
        (self.time, self.oscillator, self.phase, self.frequency)
    }
}

/// The rows of one step cover the oscillator indices `0..n` exactly once
/// each: no index repeats, and an index occurs exactly when it is below `n`.
pub proof fn lemma_step_rows_cover_oscillators_once(n: nat)
    requires
        n <= u64::MAX + 1,
    ensures
        index_column(n).no_duplicates(),
        forall|o: u64| index_column(n).contains(o) <==> o < n,
        index_column(n).len() == n,
{
    let c = index_column(n);
    assert forall|i: int, j: int| 0 <= i < c.len() && 0 <= j < c.len() && i != j implies c[i]
        != c[j] by {}
    assert forall|o: u64| c.contains(o) <==> o < n by {
        if o < n {
            assert(c[o as int] == o);
        }
    }
}

} // verus!
