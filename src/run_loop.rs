use vstd::prelude::*;

verus! {

/// Where a run stands.
#[derive(Debug, Clone, Copy, PartialEq, Eq, Structural)]
pub enum RunStage {
    /// Steps remain: the next one is to be taken and its rows appended.
    Stepping,
    /// Every step has been appended: the writer is to be finalized.
    Finalizing,
    /// The writer was finalized: the run succeeded.
    Finished,
    /// The writer failed: the run is over and failed.
    Failed,
}

/// What the driver of a run is to do next.
#[derive(Debug, Clone, Copy, PartialEq, Eq, Structural)]
pub enum RunAction {
    /// Take one step, then append the rows of the new state under this time
    /// index.
    StepAndAppend { time: u64 },
    /// Flush and close the writer.
    Finalize,
    /// Report success.
    Finish,
    /// Report the writer's failure.
    Abort,
}

/// What came of the action that was last performed.
#[derive(Debug, Clone, Copy, PartialEq, Eq, Structural)]
pub enum RunEvent {
    /// The step was taken and its rows were appended.
    Appended,
    /// Appending the step's rows failed.
    AppendFailed,
    /// The writer was finalized.
    Finalized,
    /// Finalizing the writer failed.
    FinalizeFailed,
}

/// A run as the step count, the number of steps appended so far, and the
/// stage.
pub type RunView = (u64, u64, RunStage);

/// The action that the run in state `v` asks for.
pub open spec fn spec_action(v: RunView) -> RunAction {
    match v.2 {
        RunStage::Stepping => RunAction::StepAndAppend { time: v.1 },
        RunStage::Finalizing => RunAction::Finalize,
        RunStage::Finished => RunAction::Finish,
        RunStage::Failed => RunAction::Abort,
    }
}

/// The state after event `e` in state `v`. An event that does not answer the
/// pending action leaves the state as it is.
pub open spec fn spec_on_event(v: RunView, e: RunEvent) -> RunView {
    match (v.2, e) {
        (RunStage::Stepping, RunEvent::Appended) => {
            let done = (v.1 + 1) as u64;
            (v.0, done, if done == v.0 { RunStage::Finalizing } else { RunStage::Stepping })
        },
        (RunStage::Stepping, RunEvent::AppendFailed) => (v.0, v.1, RunStage::Failed),
        (RunStage::Finalizing, RunEvent::Finalized) => (v.0, v.1, RunStage::Finished),
        (RunStage::Finalizing, RunEvent::FinalizeFailed) => (v.0, v.1, RunStage::Failed),
        _ => v,
    }
}

/// The state after the events of `events`, in order, from state `v`.
pub open spec fn spec_after(v: RunView, events: Seq<RunEvent>) -> RunView
    decreases events.len(),
{
    if events.len() == 0 {
        v
    } else {
        spec_on_event(spec_after(v, events.drop_last()), events.last())
    }
}

/// The state of a run of `n_steps` steps before anything is done.
pub open spec fn spec_start(n_steps: u64) -> RunView {
    (n_steps, 0, if n_steps == 0 { RunStage::Finalizing } else { RunStage::Stepping })
}

/// The counts agree with the stage.
pub open spec fn run_wf(v: RunView) -> bool {
    &&& v.1 <= v.0
    &&& v.2 == RunStage::Stepping ==> v.1 < v.0
    &&& (v.2 == RunStage::Finalizing || v.2 == RunStage::Finished) ==> v.1 == v.0
}

/// The decisions of a run: take the steps one after the other, append each
/// step's rows before the next step, finalize the writer after the last one,
/// and stop at the first failure of the writer.
pub struct RunLoop {
    n_steps: u64,
    completed: u64,
    stage: RunStage,
}

impl View for RunLoop {
    type V = RunView;

    closed spec fn view(&self) -> RunView {
        (self.n_steps, self.completed, self.stage)
    }
}

impl RunLoop {
    /// A run of `n_steps` steps. With no step to take, the first action is
    /// to finalize the writer, which leaves an empty output.
    pub fn new(n_steps: u64) -> (r: Self)
        ensures
            r@ == spec_start(n_steps),
            run_wf(r@),
    {
        let stage = if n_steps == 0 {
            RunStage::Finalizing
        } else {
            RunStage::Stepping
        };
        RunLoop { n_steps, completed: 0, stage }
    }

    /// The number of steps that were appended so far.
    pub fn completed(&self) -> (r: u64)
        ensures
            r == self@.1,
    {
        self.completed
    }

    /// The stage the run is in.
    pub fn stage(&self) -> (r: RunStage)
        ensures
            r == self@.2,
    {
        self.stage
    }

    /// What the driver is to do next.
    pub fn next_action(&self) -> (r: RunAction)
        ensures
            r == spec_action(self@),
    {
        match self.stage {
            RunStage::Stepping => RunAction::StepAndAppend { time: self.completed },
            RunStage::Finalizing => RunAction::Finalize,
            RunStage::Finished => RunAction::Finish,
            RunStage::Failed => RunAction::Abort,
        }
    }

    /// Takes in what came of the last action.
    pub fn on_event(&mut self, e: RunEvent)
        requires
            run_wf(old(self)@),
        ensures
            final(self)@ == spec_on_event(old(self)@, e),
            run_wf(final(self)@),
    {
        match (self.stage, e) {
            (RunStage::Stepping, RunEvent::Appended) => {
                self.completed = self.completed + 1;
                if self.completed == self.n_steps {
                    self.stage = RunStage::Finalizing;
                }
            },
            (RunStage::Stepping, RunEvent::AppendFailed) => {
                self.stage = RunStage::Failed;
            },
            (RunStage::Finalizing, RunEvent::Finalized) => {
                self.stage = RunStage::Finished;
            },
            (RunStage::Finalizing, RunEvent::FinalizeFailed) => {
                self.stage = RunStage::Failed;
            },
            _ => {},
        }
    }
}

/// In a run of `n_steps` steps where the writer never fails, the steps are
/// taken and appended in order: after `k` appended steps (`k < n_steps`) the
/// run asks for step `k` under time index `k`; after all of them it asks to
/// finalize. With `n_steps == 0` no step is taken and the writer is to be
/// finalized at once.
pub proof fn lemma_steps_appended_in_order(n_steps: u64, k: nat)
    requires
        k <= n_steps,
    ensures
        spec_after(spec_start(n_steps), Seq::new(k, |i: int| RunEvent::Appended)) == (
            n_steps,
            k as u64,
            if k == n_steps { RunStage::Finalizing } else { RunStage::Stepping },
        ),
        k < n_steps ==> spec_action(
            spec_after(spec_start(n_steps), Seq::new(k, |i: int| RunEvent::Appended)),
        ) == (RunAction::StepAndAppend { time: k as u64 }),
    decreases k,
{
    let evs = Seq::new(k, |i: int| RunEvent::Appended);
    if k > 0 {
        lemma_steps_appended_in_order(n_steps, (k - 1) as nat);
        assert(evs.drop_last() =~= Seq::new((k - 1) as nat, |i: int| RunEvent::Appended));
    }
}

/// A run of `n_steps` steps where the writer never fails ends in success
/// after exactly `n_steps` appended steps and one finalization.
pub proof fn lemma_full_run_finishes(n_steps: u64)
    ensures
        spec_after(
            spec_start(n_steps),
            Seq::new(n_steps as nat, |i: int| RunEvent::Appended).push(RunEvent::Finalized),
        ) == (n_steps, n_steps, RunStage::Finished),
{
    let all = Seq::new(n_steps as nat, |i: int| RunEvent::Appended);
    lemma_steps_appended_in_order(n_steps, n_steps as nat);
    assert(all.push(RunEvent::Finalized).drop_last() =~= all);
}

/// A failure of the writer ends the run: once failed, no event moves it, and
/// it only asks to report the failure.
pub proof fn lemma_failure_is_final(v: RunView, events: Seq<RunEvent>)
    requires
        v.2 == RunStage::Failed,
    ensures
        spec_after(v, events) == v,
        spec_action(spec_after(v, events)) == RunAction::Abort,
    decreases events.len(),
{
    if events.len() > 0 {
        lemma_failure_is_final(v, events.drop_last());
    }
}

} // verus!
