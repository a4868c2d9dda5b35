use unit_creation::runner::{Config, Runner, Termination, WaitEvent, WaitStep};
use unit_creation::units::Unit;

fn unit(hash: u64, round: usize, creator: usize) -> Unit {
    Unit { hash, round, creator, parents: Vec::new() }
}

fn conf(node_id: usize, n_members: usize, max_round: usize) -> Config {
    Config { node_id, n_members, max_round }
}

#[test]
fn two_rounds_from_scratch() {
    // N = 4, node 0, ceiling 2, starting round 0, zero-duration pacing: the
    // round-0 units of creators 1, 2, 3 arrive before the pacing timer.
    let mut runner = Runner::new(conf(0, 4, 2), 0);
    assert!(!runner.finished());
    assert!(!runner.is_behind());
    runner.begin_wait();
    assert_eq!(runner.wait_step(WaitEvent::UnitReceived(unit(11, 0, 1))), WaitStep::KeepWaiting);
    assert_eq!(runner.wait_step(WaitEvent::UnitReceived(unit(12, 0, 2))), WaitStep::KeepWaiting);
    assert_eq!(runner.wait_step(WaitEvent::UnitReceived(unit(13, 0, 3))), WaitStep::KeepWaiting);
    assert_eq!(runner.wait_step(WaitEvent::DelayElapsed), WaitStep::Ready);
    let (u0, parents0) = runner.create_next(100).expect("round 0 must be created");
    assert_eq!(u0.round, 0);
    assert_eq!(parents0, Vec::<u64>::new());
    // Round 1 is ready as soon as its pacing timer elapses: the own round-0
    // unit exists and 4 >= floor(8/3) + 1 = 3 round-0 units are known.
    assert!(!runner.finished());
    assert_eq!(runner.current_round(), 1);
    runner.begin_wait();
    assert_eq!(runner.wait_step(WaitEvent::DelayElapsed), WaitStep::Ready);
    let (u1, parents1) = runner.create_next(200).expect("round 1 must be created");
    assert_eq!(u1.round, 1);
    assert_eq!(parents1, vec![100, 11, 12, 13]);
    assert_eq!(u1.parents, vec![Some(100), Some(11), Some(12), Some(13)]);
    assert!(runner.finished());
    // The ceiling was reached: nothing more is created.
    assert!(runner.create_next(300).is_none());
}

#[test]
fn pacing_gate_alone_is_not_readiness() {
    let mut runner = Runner::new(conf(0, 4, 3), 1);
    runner.begin_wait();
    assert!(!runner.pacing_open());
    // Pacing elapsed, but round 1 needs the own round-0 unit and a quorum.
    assert_eq!(runner.wait_step(WaitEvent::DelayElapsed), WaitStep::KeepWaiting);
    assert!(runner.pacing_open());
    assert_eq!(runner.wait_step(WaitEvent::UnitReceived(unit(10, 0, 0))), WaitStep::KeepWaiting);
    assert_eq!(runner.wait_step(WaitEvent::UnitReceived(unit(11, 0, 1))), WaitStep::KeepWaiting);
    assert_eq!(runner.wait_step(WaitEvent::UnitReceived(unit(12, 0, 2))), WaitStep::Ready);
}

#[test]
fn readiness_alone_waits_for_pacing() {
    let mut runner = Runner::new(conf(0, 4, 1), 0);
    runner.begin_wait();
    // Round 0 is always ready, yet the pacing gate is still closed.
    assert_eq!(runner.wait_step(WaitEvent::UnitReceived(unit(11, 0, 1))), WaitStep::KeepWaiting);
    assert_eq!(runner.wait_step(WaitEvent::DelayElapsed), WaitStep::Ready);
}

#[test]
fn stream_closing_aborts_with_zero_events() {
    // The inbound stream closes before the round-0 wait is satisfied.
    let mut runner = Runner::new(conf(0, 4, 2), 0);
    runner.begin_wait();
    assert_eq!(
        runner.wait_step(WaitEvent::StreamClosed),
        WaitStep::Abort(Termination::InboundClosed)
    );
    // No creation event can follow.
    assert!(runner.create_next(100).is_none());
}

#[test]
fn cancellation_aborts_with_no_further_events() {
    let mut runner = Runner::new(conf(0, 4, 5), 0);
    runner.begin_wait();
    assert_eq!(runner.wait_step(WaitEvent::UnitReceived(unit(11, 0, 1))), WaitStep::KeepWaiting);
    assert_eq!(runner.wait_step(WaitEvent::Exit), WaitStep::Abort(Termination::Cancelled));
    assert!(runner.create_next(100).is_none());
}

#[test]
fn starting_at_the_ceiling_creates_nothing() {
    // Starting round equals max_round: the run is over before any wait.
    let runner = Runner::new(conf(0, 4, 2), 2);
    assert!(runner.finished());
    let mut runner = runner;
    assert!(runner.create_next(100).is_none());
}

#[test]
fn behind_rounds_are_skipped_without_waiting() {
    let mut runner = Runner::new(conf(0, 4, 5), 0);
    runner.begin_wait();
    // This node's own round-1 unit arrives: rounds 0 and 1 were already
    // produced in an earlier run.
    assert_eq!(runner.wait_step(WaitEvent::UnitReceived(unit(50, 1, 0))), WaitStep::KeepWaiting);
    assert!(runner.is_behind());
    runner.skip_round();
    assert_eq!(runner.current_round(), 1);
    assert!(runner.is_behind());
    runner.skip_round();
    assert_eq!(runner.current_round(), 2);
    assert!(!runner.is_behind());
}

#[test]
fn emitted_rounds_increase_strictly() {
    let mut runner = Runner::new(conf(0, 4, 4), 0);
    let mut emitted: Vec<usize> = Vec::new();
    for round in 0..3usize {
        runner.begin_wait();
        // Other nodes' units for the previous round arrived meanwhile.
        if round > 0 {
            for other in 1..4usize {
                let h = (round * 10 + other) as u64;
                runner.wait_step(WaitEvent::UnitReceived(unit(h, round - 1, other)));
            }
        }
        assert_eq!(runner.wait_step(WaitEvent::DelayElapsed), WaitStep::Ready);
        let (u, _) = runner.create_next(1000 + round as u64).expect("round must be created");
        emitted.push(u.round);
    }
    assert_eq!(emitted, vec![0, 1, 2]);
    for w in emitted.windows(2) {
        assert!(w[0] < w[1]);
    }
}
