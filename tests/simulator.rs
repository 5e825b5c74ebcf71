use kuramoto::{ConfigurationError, RunAction, RunEvent, RunLoop, RunStage, Simulator, TrajectoryBatch};

const TWO_PI: f64 = 2.0 * std::f64::consts::PI;

fn kuramoto_update(k: f64, dt: f64) -> impl Fn(&Vec<f64>, &Vec<f64>, usize) -> f64 {
    move |phases: &Vec<f64>, frequencies: &Vec<f64>, i: usize| {
        let n = phases.len();
        let mut coupling = 0.0;
        for j in 0..n {
            coupling += (phases[j] - phases[i]).sin();
        }
        let increment = (k / n as f64) * coupling;
        (phases[i] + dt * (frequencies[i] + increment)).rem_euclid(TWO_PI)
    }
}

fn sample_simulator() -> Simulator<f64> {
    Simulator::new(4, vec![0.1, 1.5, 3.0, 6.2], vec![1.0, 0.7, 1.3, 0.9]).unwrap()
}

#[test]
fn new_accepts_matching_lengths() {
    let sim = Simulator::new(3, vec![0.0, 1.0, 2.0], vec![1.0, 1.1, 0.9]).unwrap();
    assert_eq!(sim.len(), 3);
    assert_eq!(sim.phases(), &vec![0.0, 1.0, 2.0]);
    assert_eq!(sim.frequencies(), &vec![1.0, 1.1, 0.9]);
}

#[test]
fn new_rejects_wrong_phase_count() {
    let r = Simulator::new(3, vec![0.0, 1.0], vec![1.0, 1.1, 0.9]);
    assert!(matches!(r, Err(ConfigurationError::PhaseCountMismatch)));
}

#[test]
fn new_rejects_wrong_frequency_count() {
    let r = Simulator::new(2, vec![0.0, 1.0], vec![1.0, 1.1, 0.9]);
    assert!(matches!(r, Err(ConfigurationError::FrequencyCountMismatch)));
}

#[test]
fn new_accepts_no_oscillators() {
    let sim: Simulator<f64> = Simulator::new(0, vec![], vec![]).unwrap();
    assert_eq!(sim.len(), 0);
}

#[test]
fn phases_stay_within_one_turn() {
    let mut sim = Simulator::new(3, vec![0.0, 6.28, 3.0], vec![-5.0, 4.0, 1.0]).unwrap();
    let update = kuramoto_update(2.5, 0.3);
    for _ in 0..50 {
        sim.step(&update);
        for &p in sim.phases() {
            assert!(p >= 0.0 && p < TWO_PI, "phase {} out of range", p);
        }
    }
}

#[test]
fn frequencies_unchanged_by_steps() {
    let mut sim = sample_simulator();
    let before: Vec<u64> = sim.frequencies().iter().map(|f| f.to_bits()).collect();
    let update = kuramoto_update(1.5, 0.01);
    for _ in 0..10 {
        sim.step(&update);
    }
    let after: Vec<u64> = sim.frequencies().iter().map(|f| f.to_bits()).collect();
    assert_eq!(before, after);
}

#[test]
fn step_reads_only_the_pre_step_snapshot() {
    // Each oscillator takes its left neighbour's phase. A synchronous update
    // rotates the vector; an in-place update would smear the first value.
    let mut sim = Simulator::new(4, vec![1.0, 2.0, 3.0, 4.0], vec![0.0; 4]).unwrap();
    sim.step(|p: &Vec<f64>, _f: &Vec<f64>, i: usize| p[(i + p.len() - 1) % p.len()]);
    assert_eq!(sim.phases(), &vec![4.0, 1.0, 2.0, 3.0]);
}

#[test]
fn zero_coupling_is_free_rotation() {
    let mut sim = sample_simulator();
    let dt = 0.5;
    let expected: Vec<f64> = sim
        .phases()
        .iter()
        .zip(sim.frequencies().iter())
        .map(|(p, f)| (p + dt * f).rem_euclid(TWO_PI))
        .collect();
    sim.step(kuramoto_update(0.0, dt));
    assert_eq!(sim.phases(), &expected);
}

#[test]
fn identical_oscillators_stay_locked() {
    let mut sim = Simulator::new(5, vec![2.0; 5], vec![1.0; 5]).unwrap();
    let update = kuramoto_update(3.0, 0.1);
    for _ in 0..20 {
        sim.step(&update);
        let first = sim.phases()[0];
        assert!(sim.phases().iter().all(|p| p.to_bits() == first.to_bits()));
    }
    assert!((sim.phases()[0] - (2.0 + 20.0 * 0.1)).abs() < 1e-9);
}

#[test]
fn steps_from_same_state_agree() {
    let mut a = sample_simulator();
    let mut b = sample_simulator();
    a.step(kuramoto_update(1.2, 0.05));
    b.step(kuramoto_update(1.2, 0.05));
    let bits_a: Vec<u64> = a.phases().iter().map(|p| p.to_bits()).collect();
    let bits_b: Vec<u64> = b.phases().iter().map(|p| p.to_bits()).collect();
    assert_eq!(bits_a, bits_b);
}

#[test]
fn batch_holds_one_row_per_oscillator() {
    let sim = Simulator::new(3, vec![0.5, 1.5, 2.5], vec![1.0, 2.0, 3.0]).unwrap();
    let batch = TrajectoryBatch::for_step(7, &sim);
    assert_eq!(batch.num_rows(), 3);
    assert_eq!(batch.time(), &vec![7, 7, 7]);
    assert_eq!(batch.oscillator(), &vec![0, 1, 2]);
    assert_eq!(batch.phase(), &vec![0.5, 1.5, 2.5]);
    assert_eq!(batch.frequency(), &vec![1.0, 2.0, 3.0]);
    let (t, o, p, f) = batch.into_columns();
    assert_eq!((t.len(), o.len(), p.len(), f.len()), (3, 3, 3, 3));
}

/// Drives a run whose writer collects rows in memory and fails on the given
/// append, if any.
fn drive(
    sim: &mut Simulator<f64>,
    n_steps: u64,
    fail_at: Option<u64>,
) -> (Result<(), ()>, Vec<(u64, u64, f64, f64)>) {
    let update = kuramoto_update(1.0, 0.1);
    let mut rows = Vec::new();
    let mut run = RunLoop::new(n_steps);
    loop {
        match run.next_action() {
            RunAction::StepAndAppend { time } => {
                sim.step(&update);
                if fail_at == Some(time) {
                    run.on_event(RunEvent::AppendFailed);
                    continue;
                }
                let batch = TrajectoryBatch::for_step(time, sim);
                for r in 0..batch.num_rows() {
                    rows.push((
                        batch.time()[r],
                        batch.oscillator()[r],
                        batch.phase()[r],
                        batch.frequency()[r],
                    ));
                }
                run.on_event(RunEvent::Appended);
            }
            RunAction::Finalize => run.on_event(RunEvent::Finalized),
            RunAction::Finish => return (Ok(()), rows),
            RunAction::Abort => return (Err(()), rows),
        }
    }
}

#[test]
fn run_writes_rows_by_step_and_oscillator() {
    let mut sim = Simulator::new(3, vec![0.1, 0.2, 0.3], vec![1.0, 1.0, 1.0]).unwrap();
    let (r, rows) = drive(&mut sim, 2, None);
    assert!(r.is_ok());
    assert_eq!(rows.len(), 6);
    let mut at_zero: Vec<u64> = rows.iter().filter(|r| r.0 == 0).map(|r| r.1).collect();
    assert_eq!(at_zero.len(), 3);
    at_zero.sort();
    assert_eq!(at_zero, vec![0, 1, 2]);
    let keys: Vec<(u64, u64)> = rows.iter().map(|r| (r.0, r.1)).collect();
    assert_eq!(keys, vec![(0, 0), (0, 1), (0, 2), (1, 0), (1, 1), (1, 2)]);
    for (k, row) in rows[3..].iter().enumerate() {
        assert_eq!(row.2, sim.phases()[k]);
    }
}

#[test]
fn zero_step_run_writes_nothing_and_succeeds() {
    let mut sim = Simulator::new(3, vec![0.1, 0.2, 0.3], vec![1.0, 1.0, 1.0]).unwrap();
    let run = RunLoop::new(0);
    assert_eq!(run.next_action(), RunAction::Finalize);
    let (r, rows) = drive(&mut sim, 0, None);
    assert!(r.is_ok());
    assert!(rows.is_empty());
    assert_eq!(sim.phases(), &vec![0.1, 0.2, 0.3]);
}

#[test]
fn append_failure_aborts_remaining_steps() {
    let mut sim = Simulator::new(2, vec![0.1, 0.2], vec![1.0, 1.0]).unwrap();
    let (r, rows) = drive(&mut sim, 5, Some(1));
    assert!(r.is_err());
    assert_eq!(rows.len(), 2);
}

#[test]
fn finalize_failure_fails_the_run() {
    let mut run = RunLoop::new(1);
    assert_eq!(run.next_action(), RunAction::StepAndAppend { time: 0 });
    run.on_event(RunEvent::Appended);
    assert_eq!(run.completed(), 1);
    assert_eq!(run.next_action(), RunAction::Finalize);
    run.on_event(RunEvent::FinalizeFailed);
    assert_eq!(run.stage(), RunStage::Failed);
    assert_eq!(run.next_action(), RunAction::Abort);
    run.on_event(RunEvent::Appended);
    assert_eq!(run.next_action(), RunAction::Abort);
}

#[test]
fn unexpected_event_is_ignored() {
    let mut run = RunLoop::new(2);
    run.on_event(RunEvent::Finalized);
    assert_eq!(run.stage(), RunStage::Stepping);
    assert_eq!(run.completed(), 0);
    assert_eq!(run.next_action(), RunAction::StepAndAppend { time: 0 });
}
