use tick_interpolation::schedule::{Phase, Step};

fn run(steps: &[Step]) -> Option<Phase> {
    let mut phase = Phase::new();
    for step in steps {
        phase = phase.advance(*step)?;
    }
    Some(phase)
}

#[test]
fn schedule_starts_between_ticks() {
    assert_eq!(Phase::new(), Phase::BetweenTicks);
}

#[test]
fn tick_is_commit_simulate_capture() {
    assert_eq!(Phase::BetweenTicks.advance(Step::Commit), Some(Phase::Committed));
    assert_eq!(Phase::Committed.advance(Step::Simulate), Some(Phase::Simulated));
    assert_eq!(Phase::Simulated.advance(Step::Capture), Some(Phase::BetweenTicks));
}

#[test]
fn resample_runs_between_ticks_only() {
    assert_eq!(Phase::BetweenTicks.advance(Step::Resample), Some(Phase::BetweenTicks));
    assert_eq!(Phase::Committed.advance(Step::Resample), None);
    assert_eq!(Phase::Simulated.advance(Step::Resample), None);
}

#[test]
fn steps_out_of_order_are_refused() {
    assert_eq!(Phase::BetweenTicks.advance(Step::Simulate), None);
    assert_eq!(Phase::BetweenTicks.advance(Step::Capture), None);
    assert_eq!(Phase::Committed.advance(Step::Commit), None);
    assert_eq!(Phase::Committed.advance(Step::Capture), None);
    assert_eq!(Phase::Simulated.advance(Step::Commit), None);
    assert_eq!(Phase::Simulated.advance(Step::Simulate), None);
}

#[test]
fn permits_agrees_with_advance() {
    let phases = [Phase::BetweenTicks, Phase::Committed, Phase::Simulated];
    let steps = [Step::Commit, Step::Simulate, Step::Capture, Step::Resample];
    for phase in phases {
        for step in steps {
            assert_eq!(phase.permits(step), phase.advance(step).is_some());
        }
    }
}

#[test]
fn frame_is_whole_ticks_then_a_resample() {
    let tick = [Step::Commit, Step::Simulate, Step::Capture];
    let mut frames: Vec<Step> = Vec::new();
    frames.push(Step::Resample);
    frames.extend(tick);
    frames.push(Step::Resample);
    frames.extend(tick);
    frames.extend(tick);
    frames.extend(tick);
    frames.push(Step::Resample);
    frames.push(Step::Resample);
    assert_eq!(run(&frames), Some(Phase::BetweenTicks));
    assert_eq!(run(&[Step::Commit, Step::Simulate]), Some(Phase::Simulated));
    assert_eq!(run(&[Step::Commit, Step::Resample, Step::Simulate, Step::Capture]), None);
    assert_eq!(run(&[Step::Commit, Step::Simulate, Step::Capture, Step::Capture]), None);
    assert_eq!(run(&[Step::Commit, Step::Commit]), None);
}
