use vstd::prelude::*;
use crate::command::reported_state;
use crate::config::{FileConfig, Service};
use crate::poll::{PollAction, Poller};
use crate::reconcile::{
    ActionView, Event, OutcomeView, Phase, StepView, configure_from, fail, next_step, observed, wait_msg,
};
use crate::status::ServiceState;

verus! {

/// A tool that carries out every command it is given. Only the first status
/// query and the stop and start commands may answer anything.
pub struct CooperativeTool {
    /// The answer to the first status query: the service as it was found.
    pub initial: Result<Vec<u8>, Vec<String>>,
    pub stop_result: Result<Vec<u8>, Vec<String>>,
    pub start_result: Result<Vec<u8>, Vec<String>>,
    /// Status output that reports a stopped service.
    pub stopped: Vec<u8>,
    /// Status output that reports a running service.
    pub running: Vec<u8>,
    /// Output of a command that succeeded.
    pub done: Vec<u8>,
    /// An absolute path.
    pub resolved: String,
}

impl CooperativeTool {
    pub open spec fn wf(&self) -> bool {
        &&& reported_state(self.stopped@) == Some(ServiceState::Stopped)
        &&& reported_state(self.running@) == Some(ServiceState::Running)
    }

    /// What the tool answers to the action of `phase`.
    pub open spec fn answer(&self, phase: Phase) -> Event {
        match phase {
            Phase::QueryStatus => Event::ToolRan(self.initial),
            Phase::Stopping => Event::ToolRan(self.stop_result),
            Phase::Starting => Event::ToolRan(self.start_result),
            Phase::WaitStop(p) => if p.next == PollAction::Sleep {
                Event::Slept
            } else {
                Event::ToolRan(Ok(self.stopped))
            },
            Phase::WaitStart(p) => if p.next == PollAction::Sleep {
                Event::Slept
            } else {
                Event::ToolRan(Ok(self.running))
            },
            Phase::ResolvePath | Phase::ResolveDir => Event::PathResolved(Ok(self.resolved)),
            _ => Event::ToolRan(Ok(self.done)),
        }
    }
}

/// The outcome of reconciling `svc` from `phase` against `tool` within `fuel` steps.
pub open spec fn settle(cfg: FileConfig, svc: Service, tool: CooperativeTool, phase: Phase, fuel: nat) -> Option<
    OutcomeView,
>
    decreases fuel,
{
    if fuel == 0 {
        None
    } else {
        let s = next_step(cfg, svc, phase, tool.answer(phase));
        match s.action {
            ActionView::Finish(o) => Some(o),
            _ => settle(cfg, svc, tool, s.phase, (fuel - 1) as nat),
        }
    }
}

proof fn lemma_configured(cfg: FileConfig, svc: Service, tool: CooperativeTool, stage: nat, fuel: nat)
    requires
        tool.wf(),
        cfg.start_poll_count() > 0,
        stage <= 5,
        fuel >= 2 * (6 - stage) + 2,
    ensures
        ({
            let s = configure_from(cfg, svc, stage);
            match s.action {
                ActionView::Finish(o) => o == OutcomeView::Succeeded,
                _ => settle(cfg, svc, tool, s.phase, fuel) == Some(OutcomeView::Succeeded),
            }
        }),
    decreases 6 - stage,
{
    let s = configure_from(cfg, svc, stage);
    if s.phase == Phase::Starting {
        assert(settle(cfg, svc, tool, s.phase, fuel) == Some(OutcomeView::Succeeded)) by {
            reveal_with_fuel(settle, 3);
        }
    } else if s.phase == Phase::ResolveDir {
        lemma_configured(cfg, svc, tool, 1, (fuel - 2) as nat);
        reveal_with_fuel(settle, 3);
    } else if s.phase == Phase::SetParams {
        lemma_configured(cfg, svc, tool, 2, (fuel - 1) as nat);
    } else if s.phase == Phase::SetDescription {
        lemma_configured(cfg, svc, tool, 3, (fuel - 1) as nat);
    } else if s.phase == Phase::SetDeps {
        lemma_configured(cfg, svc, tool, 4, (fuel - 1) as nat);
    } else if s.phase == Phase::SetAccount {
        lemma_configured(cfg, svc, tool, 5, (fuel - 1) as nat);
    }
}

proof fn lemma_from_resolve(cfg: FileConfig, svc: Service, tool: CooperativeTool, fuel: nat)
    requires
        tool.wf(),
        cfg.start_poll_count() > 0,
        fuel >= 16,
    ensures
        settle(cfg, svc, tool, Phase::ResolvePath, fuel) == Some(OutcomeView::Succeeded),
{
    lemma_configured(cfg, svc, tool, 0, (fuel - 2) as nat);
    reveal_with_fuel(settle, 3);
}

proof fn lemma_from_remove(cfg: FileConfig, svc: Service, tool: CooperativeTool, fuel: nat)
    requires
        tool.wf(),
        cfg.start_poll_count() > 0,
        fuel >= 17,
    ensures
        settle(cfg, svc, tool, Phase::Removing, fuel) == Some(OutcomeView::Succeeded),
{
    lemma_from_resolve(cfg, svc, tool, (fuel - 1) as nat);
    reveal_with_fuel(settle, 2);
}

proof fn lemma_from_stopping(cfg: FileConfig, svc: Service, tool: CooperativeTool, fuel: nat)
    requires
        tool.wf(),
        cfg.stop_poll_count() > 0,
        cfg.start_poll_count() > 0,
        fuel >= 19,
    ensures
        settle(cfg, svc, tool, Phase::Stopping, fuel) == Some(OutcomeView::Succeeded),
{
    lemma_from_remove(cfg, svc, tool, (fuel - 2) as nat);
    reveal_with_fuel(settle, 3);
}

/// Reconciling a service succeeds whatever state it is found in, also where
/// an earlier run already set it up, when the tool carries out every
/// command, even if its stop or start command reports an error, and each
/// wait is allowed at least one attempt.
pub proof fn lemma_reconcile_converges(cfg: FileConfig, svc: Service, tool: CooperativeTool)
    requires
        tool.wf(),
        cfg.stop_poll_count() > 0,
        cfg.start_poll_count() > 0,
    ensures
        settle(cfg, svc, tool, Phase::QueryStatus, 20) == Some(OutcomeView::Succeeded),
{
    lemma_from_resolve(cfg, svc, tool, 19);
    lemma_from_remove(cfg, svc, tool, 19);
    lemma_from_stopping(cfg, svc, tool, 19);
    reveal_with_fuel(settle, 2);
}

/// What a wait is told: a sleep where it sleeps, else the answer to its
/// status query of attempt `i` (from 0), `answers[i]`.
pub open spec fn wait_answer(phase: Phase, answers: Seq<Result<Vec<u8>, Vec<String>>>) -> Event {
    match phase {
        Phase::WaitStop(p) | Phase::WaitStart(p) => if p.next == PollAction::Sleep {
            Event::Slept
        } else {
            Event::ToolRan(answers[p.queries as int])
        },
        _ => Event::Slept,
    }
}

/// Runs a stop wait for at most `fuel` steps, ending at the first step that
/// leaves the wait.
pub open spec fn run_stop_wait(
    cfg: FileConfig,
    svc: Service,
    phase: Phase,
    answers: Seq<Result<Vec<u8>, Vec<String>>>,
    fuel: nat,
) -> StepView
    decreases fuel,
{
    let s = next_step(cfg, svc, phase, wait_answer(phase, answers));
    if fuel <= 1 || !(s.phase is WaitStop) {
        s
    } else {
        run_stop_wait(cfg, svc, s.phase, answers, (fuel - 1) as nat)
    }
}

proof fn lemma_stop_wait_from(
    cfg: FileConfig,
    svc: Service,
    p: Poller,
    answers: Seq<Result<Vec<u8>, Vec<String>>>,
    fuel: nat,
)
    requires
        p.wf(),
        p.next == PollAction::Query,
        p.target == ServiceState::Stopped,
        answers.len() >= p.max_attempts,
        forall|i: int| p.queries <= i < p.max_attempts ==> observed(#[trigger] answers[i]) != Some(
            ServiceState::Stopped,
        ),
        fuel >= 1,
        fuel + 1 >= 2 * (p.max_attempts - p.queries),
    ensures
        run_stop_wait(cfg, svc, Phase::WaitStop(p), answers, fuel) == fail(
            seq![wait_msg(svc.name@, "stop"@)],
        ),
    decreases p.max_attempts - p.queries,
{
    let q = p.after_query(observed(answers[p.queries as int]));
    if q.next == PollAction::Sleep {
        lemma_stop_wait_from(cfg, svc, q.after_sleep(), answers, (fuel - 2) as nat);
        reveal_with_fuel(run_stop_wait, 3);
    } else {
        reveal_with_fuel(run_stop_wait, 2);
    }
}

/// A service found in any state but stopped is stopped and then waited for.
/// Where none of the `count` status queries of that wait reports it stopped,
/// whatever the stop command answered, its reconciliation fails with the one
/// layer "Unable to wait for service '<name>' to stop" and issues nothing more.
pub proof fn lemma_stop_timeout_fails(
    cfg: FileConfig,
    svc: Service,
    stop_result: Result<Vec<u8>, Vec<String>>,
    answers: Seq<Result<Vec<u8>, Vec<String>>>,
)
    requires
        cfg.stop_poll_count() > 0,
        answers.len() >= cfg.stop_poll_count(),
        forall|i: int|
            0 <= i < cfg.stop_poll_count() ==> observed(#[trigger] answers[i]) != Some(
                ServiceState::Stopped,
            ),
    ensures
        ({
            let p = Poller::initial(ServiceState::Stopped, cfg.stop_poll_ms(), cfg.stop_poll_count());
            let s = next_step(cfg, svc, Phase::Stopping, Event::ToolRan(stop_result));
            &&& s.phase == Phase::WaitStop(p)
            &&& s.action == ActionView::RunTool(seq!["status"@, svc.name@])
            &&& run_stop_wait(cfg, svc, s.phase, answers, (2 * cfg.stop_poll_count()) as nat) == fail(
                seq![wait_msg(svc.name@, "stop"@)],
            )
        }),
{
    let p = Poller::initial(ServiceState::Stopped, cfg.stop_poll_ms(), cfg.stop_poll_count());
    lemma_stop_wait_from(cfg, svc, p, answers, (2 * cfg.stop_poll_count()) as nat);
}

} // verus!
