//! The script runner's decision logic: a state machine from runner state
//! and bus poll outcome to next state and the one action the driving loop
//! must perform.
//!
//! States: Starting -> Running -> {Starting again on lag, Terminated on
//! close}. In `Starting` the script is initialized and a fresh subscription
//! taken; in `Running`, each cadence tick makes one non-blocking poll:
//! presses and releases are dispatched to the script, other events only
//! observed, an empty poll idles one tick, a closed channel terminates the
//! run, and a lag signal re-enters `Starting` in place — an iterative
//! restart, so recurring lag never grows the stack.

use vstd::prelude::*;

use crate::bus::BusPoll;
use crate::events::ControllerEvent;

verus! {

/// The state of one script run.
#[derive(Clone, Copy, Debug, PartialEq, Eq, Structural)]
pub enum RunnerState {
    /// The script must be (re)initialized and a fresh subscription taken.
    Starting,
    /// Events are being polled and dispatched on a fixed cadence.
    Running,
    /// The publisher is gone; the run is over and returns successfully.
    Terminated,
}

/// The one action the driving loop performs after a step.
#[derive(Clone, Copy, Debug, PartialEq, Eq, Structural)]
pub enum RunnerAction {
    /// Call the script's `initialize` once and take a fresh subscription.
    InitializeScript,
    /// Call the script's `on_press` with the event's coordinates.
    DispatchPress { x: u8, y: u8 },
    /// Call the script's `on_release` with the event's coordinates.
    DispatchRelease { x: u8, y: u8 },
    /// Observe (log) an event that is not dispatched to the script.
    ObserveEvent,
    /// Nothing pending: sleep one cadence tick.
    Idle,
    /// Note how many events the subscription skipped; the loss is accepted,
    /// never escalated.
    NoteLag { missed: u64 },
    /// Deliver nothing further; the run returns.
    Finish,
}

/// The runner's transition function: from state and poll outcome to next
/// state and action. Total: every state sees every poll outcome somewhere.
/// A poll made in `Starting` or `Terminated` is ignored — the driving loop
/// polls only while `Running`.
pub open spec fn spec_runner_step(state: RunnerState, poll: BusPoll) -> (
    RunnerState,
    RunnerAction,
) {
    match state {
        RunnerState::Starting => (RunnerState::Running, RunnerAction::InitializeScript),
        RunnerState::Terminated => (RunnerState::Terminated, RunnerAction::Finish),
        RunnerState::Running => match poll {
            BusPoll::Event(e) => match e {
                ControllerEvent::Press { x, y } => (
                    RunnerState::Running,
                    RunnerAction::DispatchPress { x, y },
                ),
                ControllerEvent::Release { x, y } => (
                    RunnerState::Running,
                    RunnerAction::DispatchRelease { x, y },
                ),
                _ => (RunnerState::Running, RunnerAction::ObserveEvent),
            },
            BusPoll::Empty => (RunnerState::Running, RunnerAction::Idle),
            BusPoll::Closed => (RunnerState::Terminated, RunnerAction::Finish),
            BusPoll::Lagged(n) => (RunnerState::Starting, RunnerAction::NoteLag { missed: n }),
        },
    }
}

/// One step of the runner, exactly as `spec_runner_step` pins it down.
pub fn runner_step(state: RunnerState, poll: &BusPoll) -> (r: (RunnerState, RunnerAction))
    ensures
        r == spec_runner_step(state, *poll),
{
    match state {
        RunnerState::Starting => (RunnerState::Running, RunnerAction::InitializeScript),
        RunnerState::Terminated => (RunnerState::Terminated, RunnerAction::Finish),
        RunnerState::Running => match poll {
            BusPoll::Event(e) => match e {
                ControllerEvent::Press { x, y } => (
                    RunnerState::Running,
                    RunnerAction::DispatchPress { x: *x, y: *y },
                ),
                ControllerEvent::Release { x, y } => (
                    RunnerState::Running,
                    RunnerAction::DispatchRelease { x: *x, y: *y },
                ),
                _ => (RunnerState::Running, RunnerAction::ObserveEvent),
            },
            BusPoll::Empty => (RunnerState::Running, RunnerAction::Idle),
            BusPoll::Closed => (RunnerState::Terminated, RunnerAction::Finish),
            BusPoll::Lagged(n) => (
                RunnerState::Starting,
                RunnerAction::NoteLag { missed: *n },
            ),
        },
    }
}

/// Ranks the states so that the trace below terminates: entering `Running`
/// from `Starting` consumes no poll but strictly lowers the rank.
pub open spec fn state_rank(state: RunnerState) -> int {
    match state {
        RunnerState::Starting => 1,
        RunnerState::Running => 0,
        RunnerState::Terminated => 0,
    }
}

/// The actions the driving loop performs from a given state over a given
/// stream of poll outcomes: `Starting` emits its initialization without
/// consuming a poll, `Running` consumes one poll per action, and a
/// terminated run emits nothing further.
pub open spec fn runner_trace(state: RunnerState, polls: Seq<BusPoll>) -> Seq<RunnerAction>
    decreases polls.len(), state_rank(state),
{
    match state {
        RunnerState::Terminated => Seq::empty(),
        RunnerState::Starting => seq![RunnerAction::InitializeScript].add(
            runner_trace(RunnerState::Running, polls),
        ),
        RunnerState::Running => {
            if polls.len() == 0 {
                Seq::empty()
            } else {
                let next = spec_runner_step(RunnerState::Running, polls.first());
                seq![next.1].add(runner_trace(next.0, polls.drop_first()))
            }
        },
    }
}

/// How many actions of a trace initialize the script.
pub open spec fn count_inits(actions: Seq<RunnerAction>) -> int
    decreases actions.len(),
{
    if actions.len() == 0 {
        0
    } else {
        (if actions.first() is InitializeScript {
            1int
        } else {
            0int
        }) + count_inits(actions.drop_first())
    }
}

/// How many poll outcomes of a stream are lag signals.
pub open spec fn count_lags(polls: Seq<BusPoll>) -> int
    decreases polls.len(),
{
    if polls.len() == 0 {
        0
    } else {
        (if polls.first() is Lagged {
            1int
        } else {
            0int
        }) + count_lags(polls.drop_first())
    }
}

/// The one action a `Running` runner performs for a delivered event.
pub open spec fn dispatch_of(poll: BusPoll) -> RunnerAction
    recommends
        poll is Event,
{
    spec_runner_step(RunnerState::Running, poll).1
}

/// A running script sees delivered events exactly in delivery order, one
/// dispatch per event and nothing in between: a press followed by its
/// release drives the press callback and then the release callback, with no
/// intervening action.
pub proof fn lemma_event_stream_dispatches_in_order(polls: Seq<BusPoll>)
    requires
        forall|k: int| 0 <= k < polls.len() ==> #[trigger] polls[k] is Event,
    ensures
        runner_trace(RunnerState::Running, polls).len() == polls.len(),
        forall|k: int|
            0 <= k < polls.len() ==> #[trigger] runner_trace(RunnerState::Running, polls)[k]
                == dispatch_of(polls[k]),
    decreases polls.len(),
{
    if polls.len() > 0 {
        let rest = polls.drop_first();
        assert forall|k: int| 0 <= k < rest.len() implies #[trigger] rest[k] is Event by {
            assert(rest[k] == polls[k + 1]);
        }
        lemma_event_stream_dispatches_in_order(rest);
        let next = spec_runner_step(RunnerState::Running, polls.first());
        assert(polls[0] is Event);
        assert(next.0 == RunnerState::Running);
        assert forall|k: int|
            0 <= k < polls.len() implies #[trigger] runner_trace(RunnerState::Running, polls)[k]
            == dispatch_of(polls[k]) by {
            if k > 0 {
                assert(runner_trace(RunnerState::Running, polls)[k] == runner_trace(
                    RunnerState::Running,
                    rest,
                )[k - 1]);
                assert(rest[k - 1] == polls[k]);
            }
        }
    }
}

proof fn lemma_count_inits_cons(a: RunnerAction, t: Seq<RunnerAction>)
    ensures
        count_inits(seq![a].add(t)) == (if a is InitializeScript {
            1int
        } else {
            0int
        }) + count_inits(t),
{
    let s = seq![a].add(t);
    assert(s.first() == a);
    assert(s.drop_first() =~= t);
}

/// While the channel stays open, a run that is already `Running`
/// re-initializes its script exactly once per lag signal: never zero times,
/// never more.
pub proof fn lemma_running_initializes_once_per_lag(polls: Seq<BusPoll>)
    requires
        forall|k: int| 0 <= k < polls.len() ==> !(#[trigger] polls[k] is Closed),
    ensures
        count_inits(runner_trace(RunnerState::Running, polls)) == count_lags(polls),
    decreases polls.len(),
{
    if polls.len() > 0 {
        let p = polls.first();
        let rest = polls.drop_first();
        assert(p == polls[0]);
        assert forall|k: int| 0 <= k < rest.len() implies !(#[trigger] rest[k] is Closed) by {
            assert(rest[k] == polls[k + 1]);
        }
        lemma_running_initializes_once_per_lag(rest);
        let next = spec_runner_step(RunnerState::Running, p);
        match p {
            BusPoll::Lagged(n) => {
                lemma_count_inits_cons(next.1, runner_trace(RunnerState::Starting, rest));
                lemma_count_inits_cons(
                    RunnerAction::InitializeScript,
                    runner_trace(RunnerState::Running, rest),
                );
            },
            _ => {
                assert(!(next.1 is InitializeScript));
                assert(next.0 == RunnerState::Running);
                lemma_count_inits_cons(next.1, runner_trace(RunnerState::Running, rest));
            },
        }
    }
}

/// A whole run initializes its script exactly once, plus exactly once per
/// lag signal it meets while the channel stays open: each lag causes one
/// restart, and each restart one further initialization.
pub proof fn lemma_lag_restarts_initialize_once(polls: Seq<BusPoll>)
    requires
        forall|k: int| 0 <= k < polls.len() ==> !(#[trigger] polls[k] is Closed),
    ensures
        count_inits(runner_trace(RunnerState::Starting, polls)) == 1 + count_lags(polls),
{
    lemma_running_initializes_once_per_lag(polls);
    lemma_count_inits_cons(
        RunnerAction::InitializeScript,
        runner_trace(RunnerState::Running, polls),
    );
}

} // verus!
