use arqonhpo::spsa::{SpsaCycle, SpsaPhase, SpsaStep};

#[test]
fn test_spsa_two_step_cycle() {
    let mut cycle = SpsaCycle::new(1, 1_000_000);
    assert_eq!(cycle.observe(0), SpsaStep::StartPlus { perturbation_id: 0 });
    assert_eq!(cycle.observe(1), SpsaStep::StartMinus { perturbation_id: 0 });
    assert_eq!(cycle.observe(2), SpsaStep::Complete { iteration: 0 });
    assert_eq!(cycle.iteration(), 1);
}

#[test]
fn two_step_cycle_phases() {
    let mut cycle = SpsaCycle::new(1, 1_000_000);
    cycle.observe(10);
    assert_eq!(cycle.phase, SpsaPhase::WaitingPlus { perturbation_id: 0, samples: 0, started_us: 10 });
    cycle.observe(20);
    assert_eq!(cycle.phase, SpsaPhase::WaitingMinus { perturbation_id: 0, samples: 0, started_us: 20 });
    cycle.observe(30);
    assert_eq!(cycle.phase, SpsaPhase::Ready);
    assert_eq!(cycle.observe(40), SpsaStep::StartPlus { perturbation_id: 1 });
}

#[test]
fn windows_wait_for_min_samples() {
    let mut cycle = SpsaCycle::new(3, 1_000_000);
    assert_eq!(cycle.observe(0), SpsaStep::StartPlus { perturbation_id: 0 });
    assert_eq!(cycle.observe(1), SpsaStep::AccumulatePlus);
    assert_eq!(cycle.observe(2), SpsaStep::AccumulatePlus);
    assert_eq!(cycle.observe(3), SpsaStep::StartMinus { perturbation_id: 0 });
    assert_eq!(cycle.observe(4), SpsaStep::AccumulateMinus);
    assert_eq!(cycle.observe(5), SpsaStep::AccumulateMinus);
    assert_eq!(cycle.observe(6), SpsaStep::Complete { iteration: 0 });
    assert_eq!(cycle.iteration(), 1);
}

#[test]
fn window_timeout_aborts_perturbation() {
    let mut cycle = SpsaCycle::new(2, 100);
    cycle.observe(0);
    assert_eq!(cycle.observe(101), SpsaStep::Timeout);
    assert_eq!(cycle.phase, SpsaPhase::Ready);
    assert_eq!(cycle.iteration(), 0);
    assert_eq!(cycle.observe(102), SpsaStep::StartPlus { perturbation_id: 1 });
}

#[test]
fn identical_observations_give_identical_steps() {
    let mut a = SpsaCycle::new(2, 50);
    let mut b = SpsaCycle::new(2, 50);
    for t in [0u64, 5, 10, 80, 81, 90, 95, 99, 200] {
        assert_eq!(a.observe(t), b.observe(t));
        assert_eq!(a, b);
    }
}
