use vstd::prelude::*;
use crate::config::FileConfig;
use crate::error::{ErrorKind, chain};
use crate::reconcile::{
    Action, ActionView, Event, Outcome, OutcomeView, Phase, Step, advance, begin, next_step,
};

verus! {

/// The reconciliation of every service of a configuration, one after the
/// other in their order. A service's failure ends that service only.
#[derive(Debug)]
pub struct Batch {
    /// The service being reconciled; all are done when it equals their number.
    pub index: usize,
    pub phase: Phase,
    /// The outcomes of the services done so far, in order.
    pub outcomes: Vec<Outcome>,
}

/// What the caller is asked to do next; `None` once every service is done.
#[derive(Debug)]
pub struct BatchStep {
    pub next: Option<Action>,
    pub warning: Option<Vec<ErrorKind>>,
}

pub open spec fn outcomes_view(v: Vec<Outcome>) -> Seq<OutcomeView> {
    v@.map_values(|o: Outcome| o@)
}

pub open spec fn warning_view(w: Option<Vec<ErrorKind>>) -> Option<Seq<Seq<char>>> {
    match w {
        Some(w) => Some(chain(w)),
        None => None,
    }
}

pub open spec fn next_view(n: Option<Action>) -> Option<ActionView> {
    match n {
        Some(a) => Some(a@),
        None => None,
    }
}

/// The first action for the service at `index`, if there is one.
pub open spec fn opening(cfg: FileConfig, index: int) -> Option<ActionView> {
    if 0 <= index < cfg.services@.len() {
        Some(ActionView::RunTool(seq!["status"@, cfg.services@[index].name@]))
    } else {
        None
    }
}

impl Batch {
    pub open spec fn wf(&self, cfg: FileConfig) -> bool {
        &&& self.index <= cfg.services@.len()
        &&& self.outcomes@.len() == self.index
        &&& self.phase.wf()
        &&& self.index == cfg.services@.len() ==> self.phase == Phase::Done
        &&& self.index < cfg.services@.len() ==> self.phase != Phase::Done
    }

    /// Takes one step of the current service on what came of the last action.
    /// When the service finishes, its outcome is recorded, whatever it is, and
    /// the next service begins.
    pub fn advance(&mut self, cfg: &FileConfig, event: Event) -> (r: BatchStep)
        requires
            old(self).wf(*cfg),
            old(self).index < cfg.services@.len(),
            old(self).phase.awaits(event),
        ensures
            final(self).wf(*cfg),
            ({
                let s = next_step(*cfg, cfg.services@[old(self).index as int], old(self).phase, event);
                &&& warning_view(r.warning) == s.warning
                &&& match s.action {
                    ActionView::Finish(o) => {
                        &&& outcomes_view(final(self).outcomes) == outcomes_view(old(self).outcomes).push(o)
                        &&& final(self).index == old(self).index + 1
                        &&& next_view(r.next) == opening(*cfg, final(self).index as int)
                        &&& final(self).index < cfg.services@.len() ==> final(self).phase == Phase::QueryStatus
                    },
                    _ => {
                        &&& final(self).outcomes == old(self).outcomes
                        &&& final(self).index == old(self).index
                        &&& final(self).phase == s.phase
                        &&& next_view(r.next) == Some(s.action)
                    },
                }
            }),
    {
        let count = cfg.services.len();
        let svc = &cfg.services[self.index];
        let Step { phase, action, warning } = advance(cfg, svc, self.phase, event);
        match action {
            Action::Finish(o) => {
                let ghost before = outcomes_view(self.outcomes);
                let ghost ov = o@;
                self.outcomes.push(o);
                assert(outcomes_view(self.outcomes) =~= before.push(ov));
                assert(self.index < count);
                self.index = self.index + 1;
                if self.index < count {
                    let b = begin(&cfg.services[self.index]);
                    self.phase = b.phase;
                    BatchStep { next: Some(b.action), warning }
                } else {
                    self.phase = Phase::Done;
                    BatchStep { next: None, warning }
                }
            },
            a => {
                proof {
                    assert(phase != Phase::Done);
                }
                self.phase = phase;
                BatchStep { next: Some(a), warning }
            },
        }
    }
}

/// Starts reconciling every service of `file_config`.
pub fn nssm_exec(file_config: &FileConfig) -> (r: (Batch, Option<Action>))
    ensures
        r.0.wf(*file_config),
        r.0.index == 0,
        file_config.services@.len() > 0 ==> r.0.phase == Phase::QueryStatus,
        next_view(r.1) == opening(*file_config, 0),
{
    if file_config.services.len() == 0 {
        (Batch { index: 0, phase: Phase::Done, outcomes: Vec::new() }, None)
    } else {
        let b = begin(&file_config.services[0]);
        (Batch { index: 0, phase: b.phase, outcomes: Vec::new() }, Some(b.action))
    }
}

} // verus!
