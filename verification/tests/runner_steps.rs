use padlink::bus::BusPoll;
use padlink::bus::EventBus;
use padlink::events::ControllerEvent;
use padlink::runner::runner_step;
use padlink::runner::RunnerAction;
use padlink::runner::RunnerState;

/// Drives the runner the way the cadence loop does: `Starting` and
/// `Terminated` ignore the poll stream, `Running` consumes one poll per
/// step. Returns the actions performed, in order.
fn drive(polls: &[BusPoll]) -> Vec<RunnerAction> {
    let mut state = RunnerState::Starting;
    let mut actions = Vec::new();
    let mut next = polls.iter();
    loop {
        let poll = if state == RunnerState::Running {
            match next.next() {
                Some(p) => p.clone(),
                None => break,
            }
        } else {
            BusPoll::Empty
        };
        let (new_state, action) = runner_step(state, &poll);
        actions.push(action);
        if new_state == RunnerState::Terminated {
            break;
        }
        state = new_state;
    }
    actions
}

#[test]
fn press_then_release_dispatch_in_order_with_nothing_between() {
    let actions = drive(&[
        BusPoll::Event(ControllerEvent::Press { x: 2, y: 1 }),
        BusPoll::Event(ControllerEvent::Release { x: 2, y: 1 }),
    ]);
    assert_eq!(
        actions,
        vec![
            RunnerAction::InitializeScript,
            RunnerAction::DispatchPress { x: 2, y: 1 },
            RunnerAction::DispatchRelease { x: 2, y: 1 },
        ]
    );
}

#[test]
fn lag_restarts_and_reinitializes_exactly_once() {
    let actions = drive(&[
        BusPoll::Empty,
        BusPoll::Lagged(2),
        BusPoll::Event(ControllerEvent::Press { x: 0, y: 0 }),
    ]);
    assert_eq!(
        actions,
        vec![
            RunnerAction::InitializeScript,
            RunnerAction::Idle,
            RunnerAction::NoteLag { missed: 2 },
            RunnerAction::InitializeScript,
            RunnerAction::DispatchPress { x: 0, y: 0 },
        ]
    );
    let inits = actions
        .iter()
        .filter(|a| **a == RunnerAction::InitializeScript)
        .count();
    assert_eq!(inits, 2); // one at start, exactly one more for the one lag
}

#[test]
fn closed_channel_terminates_the_run() {
    assert_eq!(
        runner_step(RunnerState::Running, &BusPoll::Closed),
        (RunnerState::Terminated, RunnerAction::Finish)
    );
    assert_eq!(
        runner_step(RunnerState::Terminated, &BusPoll::Empty),
        (RunnerState::Terminated, RunnerAction::Finish)
    );
}

#[test]
fn events_other_than_press_and_release_are_observed_not_dispatched() {
    assert_eq!(
        runner_step(
            RunnerState::Running,
            &BusPoll::Event(ControllerEvent::ClearBoard)
        ),
        (RunnerState::Running, RunnerAction::ObserveEvent)
    );
    assert_eq!(
        runner_step(
            RunnerState::Running,
            &BusPoll::Event(ControllerEvent::Heartbeat)
        ),
        (RunnerState::Running, RunnerAction::ObserveEvent)
    );
}

#[test]
fn runner_driven_from_a_live_bus_dispatches_published_events() {
    let bus = EventBus::new(10);
    let mut rx = bus.subscribe();
    bus.publish(ControllerEvent::Press { x: 2, y: 1 }).unwrap();
    bus.publish(ControllerEvent::Release { x: 2, y: 1 }).unwrap();

    let mut state = RunnerState::Running;
    let mut actions = Vec::new();
    loop {
        let poll = rx.poll();
        if poll == BusPoll::Empty {
            break;
        }
        let (new_state, action) = runner_step(state, &poll);
        actions.push(action);
        state = new_state;
    }
    assert_eq!(
        actions,
        vec![
            RunnerAction::DispatchPress { x: 2, y: 1 },
            RunnerAction::DispatchRelease { x: 2, y: 1 },
        ]
    );
}
