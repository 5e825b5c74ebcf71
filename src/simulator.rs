use vstd::prelude::*;

verus! {

/// Why a simulator could not be built from the values handed in.
#[derive(Debug, Clone, Copy, PartialEq, Eq, Structural)]
pub enum ConfigurationError {
    /// The number of initial phases differs from the oscillator count.
    PhaseCountMismatch,
    /// The number of natural frequencies differs from the oscillator count.
    FrequencyCountMismatch,
}

/// The simulation state: one phase and one fixed natural frequency per
/// oscillator. `phases[i]` and `frequencies[i]` always describe the same
/// oscillator `i`.
pub struct Simulator<T> {
    phases: Vec<T>,
    frequencies: Vec<T>,
}

/// `new_phases` is what one synchronous update of `phases` gives: oscillator
/// `i`'s new phase is a result of `update` on the unchanged pre-step snapshot
/// and the index `i`.
pub open spec fn is_jacobi_update<T, F: Fn(&Vec<T>, &Vec<T>, usize) -> T>(
    update: F,
    phases: Vec<T>,
    frequencies: Vec<T>,
    new_phases: Vec<T>,
) -> bool {
    &&& new_phases@.len() == phases@.len()
    &&& forall|i: int|
        0 <= i < phases@.len() ==> call_ensures(
            update,
            (&phases, &frequencies, i as usize),
            #[trigger] new_phases@[i],
        )
}

/// `update` may be called on the snapshot for every oscillator index.
pub open spec fn update_callable<T, F: Fn(&Vec<T>, &Vec<T>, usize) -> T>(
    update: F,
    phases: Vec<T>,
    frequencies: Vec<T>,
) -> bool {
    forall|i: int|
        0 <= i < phases@.len() ==> #[trigger] call_requires(
            update,
            (&phases, &frequencies, i as usize),
        )
}

/// `update` gives at most one result for each snapshot and index.
pub open spec fn update_deterministic<T, F: Fn(&Vec<T>, &Vec<T>, usize) -> T>(update: F) -> bool {
    forall|phases: Vec<T>, frequencies: Vec<T>, i: usize, r1: T, r2: T|
        #[trigger] call_ensures(update, (&phases, &frequencies, i), r1) && #[trigger] call_ensures(
            update,
            (&phases, &frequencies, i),
            r2,
        ) ==> r1 == r2
}

/// `update` treats oscillators alike: two oscillators with the same phase and
/// the same frequency in a snapshot get the same result.
pub open spec fn update_symmetric<T, F: Fn(&Vec<T>, &Vec<T>, usize) -> T>(update: F) -> bool {
    forall|phases: Vec<T>, frequencies: Vec<T>, i: usize, j: usize, r1: T, r2: T|
        #![trigger call_ensures(update, (&phases, &frequencies, i), r1), call_ensures(update, (&phases, &frequencies, j), r2)]
        i < phases@.len() && j < phases@.len() && i < frequencies@.len() && j
            < frequencies@.len() && phases@[i as int] == phases@[j as int] && frequencies@[i as int]
            == frequencies@[j as int] && call_ensures(update, (&phases, &frequencies, i), r1)
            && call_ensures(update, (&phases, &frequencies, j), r2) ==> r1 == r2
}

/// Every entry of `s` is the same value.
pub open spec fn all_equal<T>(s: Seq<T>) -> bool {
    forall|i: int, j: int| 0 <= i < s.len() && 0 <= j < s.len() ==> s[i] == s[j]
}

/// `after` is `before` advanced by one step under `update`.
pub open spec fn is_step<T: Copy, F: Fn(&Vec<T>, &Vec<T>, usize) -> T>(
    update: F,
    before: Simulator<T>,
    after: Simulator<T>,
) -> bool {
    &&& before.wf()
    &&& after.wf()
    &&& after.spec_frequencies() == before.spec_frequencies()
    &&& is_jacobi_update(
        update,
        before.spec_phases(),
        before.spec_frequencies(),
        after.spec_phases(),
    )
}

/// Under an update that gives one result per snapshot and index, the
/// synchronous update of a snapshot is unique: any two ways of computing it,
/// one oscillator after the other or in any other order or split, agree on
/// every new phase. In particular two steps from the same state agree.
pub proof fn lemma_synchronous_update_unique<T, F: Fn(&Vec<T>, &Vec<T>, usize) -> T>(
    update: F,
    phases: Vec<T>,
    frequencies: Vec<T>,
    a: Vec<T>,
    b: Vec<T>,
)
    requires
        update_deterministic(update),
        is_jacobi_update(update, phases, frequencies, a),
        is_jacobi_update(update, phases, frequencies, b),
    ensures
        a@ == b@,
{
    assert forall|i: int| 0 <= i < a@.len() implies a@[i] == b@[i] by {
        assert(call_ensures(update, (&phases, &frequencies, i as usize), a@[i]));
        assert(call_ensures(update, (&phases, &frequencies, i as usize), b@[i]));
    }
    assert(a@ =~= b@);
}

/// The natural frequencies after any number of steps are those before the
/// first: in `states`, each state is the step of the one before it.
pub proof fn lemma_frequencies_fixed<T: Copy, F: Fn(&Vec<T>, &Vec<T>, usize) -> T>(
    update: F,
    states: Seq<Simulator<T>>,
)
    requires
        states.len() > 0,
        forall|k: int| 0 <= k < states.len() - 1 ==> is_step(update, #[trigger] states[k], states[k + 1]),
    ensures
        states.last().spec_frequencies() == states[0].spec_frequencies(),
    decreases states.len(),
{
    if states.len() > 1 {
        let prefix = states.drop_last();
        assert forall|k: int| 0 <= k < prefix.len() - 1 implies is_step(update, #[trigger] prefix[k], prefix[k + 1]) by {
            assert(is_step(update, states[k], states[k + 1]));
        }
        lemma_frequencies_fixed(update, prefix);
        assert(is_step(update, states[states.len() - 2], states[states.len() - 1]));
    }
}

/// Oscillators that all share one phase and one frequency stay locked
/// together: under an update that treats oscillators alike, the step gives
/// every oscillator the same new phase.
pub proof fn lemma_locked_phases_stay_locked<T, F: Fn(&Vec<T>, &Vec<T>, usize) -> T>(
    update: F,
    phases: Vec<T>,
    frequencies: Vec<T>,
    new_phases: Vec<T>,
)
    requires
        phases@.len() == frequencies@.len(),
        all_equal(phases@),
        all_equal(frequencies@),
        update_symmetric(update),
        is_jacobi_update(update, phases, frequencies, new_phases),
    ensures
        all_equal(new_phases@),
{
    assert forall|i: int, j: int|
        0 <= i < new_phases@.len() && 0 <= j < new_phases@.len() implies new_phases@[i]
        == new_phases@[j] by {
        assert(call_ensures(update, (&phases, &frequencies, i as usize), new_phases@[i]));
        assert(call_ensures(update, (&phases, &frequencies, j as usize), new_phases@[j]));
    }
}

impl<T: Copy> Simulator<T> {
    /// Both sequences have one entry per oscillator.
    pub open spec fn wf(&self) -> bool {
        self.spec_phases()@.len() == self.spec_frequencies()@.len()
    }

    pub closed spec fn spec_phases(&self) -> Vec<T> {
        self.phases
    }

    pub closed spec fn spec_frequencies(&self) -> Vec<T> {
        self.frequencies
    }

    /// Builds the state of `n` oscillators from their initial phases and
    /// natural frequencies, index `i` naming the same oscillator in both.
    /// No oscillators at all is a valid, empty state: its steps change
    /// nothing and its runs write no rows.
    pub fn new(n: usize, phases: Vec<T>, frequencies: Vec<T>) -> (r: Result<
        Self,
        ConfigurationError,
    >)
        ensures
            phases@.len() != n ==> r == Err::<Self, _>(ConfigurationError::PhaseCountMismatch),
            phases@.len() == n && frequencies@.len() != n ==> r == Err::<Self, _>(
                ConfigurationError::FrequencyCountMismatch,
            ),
            phases@.len() == n && frequencies@.len() == n ==> r is Ok,
            r matches Ok(s) ==> s.wf() && s.spec_phases() == phases && s.spec_frequencies()
                == frequencies,
    {
        if phases.len() != n {
            Err(ConfigurationError::PhaseCountMismatch)
        } else if frequencies.len() != n {
            Err(ConfigurationError::FrequencyCountMismatch)
        } else {
            Ok(Simulator { phases, frequencies })
        }
    }

    /// The number of oscillators.
    pub fn len(&self) -> (r: usize)
        ensures
            r == self.spec_phases()@.len(),
    {
        self.phases.len()
    }

    /// The current phases, by oscillator index.
    pub fn phases(&self) -> (r: &Vec<T>)
        ensures
            *r == self.spec_phases(),
    {
        &self.phases
    }

    /// The natural frequencies, by oscillator index.
    pub fn frequencies(&self) -> (r: &Vec<T>)
        ensures
            *r == self.spec_frequencies(),
    {
        &self.frequencies
    }

    /// Advances every oscillator by one time step. All new phases are computed
    /// by `update` from the same pre-step snapshot of phases and frequencies,
    /// and replace the old phases together once all are known; the
    /// frequencies are left as they were.
    pub fn step<F: Fn(&Vec<T>, &Vec<T>, usize) -> T>(&mut self, update: F)
        requires
            old(self).wf(),
            update_callable(update, old(self).spec_phases(), old(self).spec_frequencies()),
        ensures
            final(self).wf(),
            final(self).spec_frequencies() == old(self).spec_frequencies(),
            is_step(update, *old(self), *final(self)),
            is_jacobi_update(
                update,
                old(self).spec_phases(),
                old(self).spec_frequencies(),
                final(self).spec_phases(),
            ),
    {
        let n = self.phases.len();
        let mut new_phases: Vec<T> = Vec::with_capacity(n);
        let mut i: usize = 0;
        while i < n
            invariant
                n == self.phases@.len(),
                i <= n,
                new_phases@.len() == i,
                update_callable(update, self.phases, self.frequencies),
                forall|k: int|
                    0 <= k < i ==> call_ensures(
                        update,
                        (&self.phases, &self.frequencies, k as usize),
                        #[trigger] new_phases@[k],
                    ),
            decreases n - i,
        {
            assert(call_requires(update, (&self.phases, &self.frequencies, (i as int) as usize)));
            let p = update(&self.phases, &self.frequencies, i);
            new_phases.push(p);
            i = i + 1;
        }
        self.phases = new_phases;
    }
}

} // verus!
