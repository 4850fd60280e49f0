use vstd::prelude::*;
use vstd::string::StringExecFns;
use crate::command::{is_white_space, reported_state, run_nssm_status_cmd_extract_status, shown_line};
use crate::config::{FileConfig, Service};
use crate::error::{ErrorKind, chain};
use crate::merge::{
    account_of, deps_of, effective_account, effective_deps, effective_start, merged, start_of,
};
use crate::poll::{PollAction, Poller};
use crate::status::ServiceState;

verus! {

/// Where one service's reconciliation stands.
#[derive(Clone, Copy, Debug)]
pub enum Phase {
    /// The status command was issued.
    QueryStatus,
    /// The stop command was issued.
    Stopping,
    /// Waiting for the service to stop.
    WaitStop(Poller),
    /// The remove command was issued.
    Removing,
    /// The executable's path is being made absolute.
    ResolvePath,
    /// The install command was issued.
    Installing,
    /// The startup directory is being made absolute.
    ResolveDir,
    SetDir,
    SetParams,
    SetDescription,
    SetDeps,
    SetAccount,
    /// The start command was issued.
    Starting,
    /// Waiting for the service to run.
    WaitStart(Poller),
    /// Nothing more to do for this service.
    Done,
}

/// The result of reconciling one service.
#[derive(Debug)]
pub enum Outcome {
    Succeeded,
    /// The causal chain, outermost layer first.
    Failed(Vec<ErrorKind>),
}

/// What the caller is asked to do next.
#[derive(Debug)]
pub enum Action {
    /// Run the tool with these arguments and report with `Event::ToolRan`.
    RunTool(Vec<String>),
    /// Make a path absolute and report with `Event::PathResolved`.
    ResolvePath(String),
    /// Sleep this many milliseconds and report with `Event::Slept`.
    Sleep(u64),
    /// The service's reconciliation ended.
    Finish(Outcome),
}

/// What came of the last action.
#[derive(Debug)]
pub enum Event {
    /// The tool's standard output on success, or the causal chain of its
    /// failure, outermost layer first.
    ToolRan(Result<Vec<u8>, Vec<String>>),
    /// The absolute path, or the cause of the failure.
    PathResolved(Result<String, String>),
    Slept,
}

/// One transition: the new phase, the next action, and a tolerated failure to report.
#[derive(Debug)]
pub struct Step {
    pub phase: Phase,
    pub action: Action,
    pub warning: Option<Vec<ErrorKind>>,
}

pub enum OutcomeView {
    Succeeded,
    Failed(Seq<Seq<char>>),
}

pub enum ActionView {
    RunTool(Seq<Seq<char>>),
    ResolvePath(Seq<char>),
    Sleep(u64),
    Finish(OutcomeView),
}

pub struct StepView {
    pub phase: Phase,
    pub action: ActionView,
    pub warning: Option<Seq<Seq<char>>>,
}

/// The texts of a list of strings.
pub open spec fn texts(v: Vec<String>) -> Seq<Seq<char>> {
    v@.map_values(|s: String| s@)
}

pub open spec fn argv(v: Vec<String>) -> Seq<Seq<char>> {
    v@.map_values(|s: String| s@)
}

impl View for Outcome {
    type V = OutcomeView;

    open spec fn view(&self) -> OutcomeView {
        match self {
            Outcome::Succeeded => OutcomeView::Succeeded,
            Outcome::Failed(c) => OutcomeView::Failed(chain(*c)),
        }
    }
}

impl View for Action {
    type V = ActionView;

    open spec fn view(&self) -> ActionView {
        match self {
            Action::RunTool(a) => ActionView::RunTool(argv(*a)),
            Action::ResolvePath(p) => ActionView::ResolvePath(p@),
            Action::Sleep(ms) => ActionView::Sleep(*ms),
            Action::Finish(o) => ActionView::Finish(o@),
        }
    }
}

impl View for Step {
    type V = StepView;

    open spec fn view(&self) -> StepView {
        StepView {
            phase: self.phase,
            action: self.action@,
            warning: match self.warning {
                Some(w) => Some(chain(w)),
                None => None,
            },
        }
    }
}

/// The maximal runs of characters without the White_Space property, in order.
pub open spec fn words_of(s: Seq<char>) -> Seq<Seq<char>>
    decreases s.len(),
{
    if s.len() == 0 {
        Seq::empty()
    } else if is_white_space(s.last()) {
        words_of(s.drop_last())
    } else if s.len() > 1 && !is_white_space(s.drop_last().last()) {
        let w = words_of(s.drop_last());
        w.update(w.len() - 1, w.last().push(s.last()))
    } else {
        words_of(s.drop_last()).push(seq![s.last()])
    }
}

/// Relies on `str::split_whitespace`: the runs of the text between characters
/// of the Unicode White_Space property, empty ones left out, in order.
#[verifier::external_body]
fn split_words(s: &str) -> (r: Vec<String>)
    ensures
        argv(r) == words_of(s@),
{
    s.split_whitespace().map(|w| w.to_string()).collect()
}

/// The message that wraps a cause for a service: "<description> service '<name>'".
pub open spec fn service_msg(description: Seq<char>, name: Seq<char>) -> Seq<char> {
    description + " service '"@ + name + "'"@
}

/// The message of a wait that ran out of attempts.
pub open spec fn wait_msg(name: Seq<char>, verb: Seq<char>) -> Seq<char> {
    "Unable to wait for service '"@ + name + "' to "@ + verb
}

pub open spec fn canon_path_desc(path: Seq<char>) -> Seq<char> {
    "Unable to canonicalize path '"@ + path + "' for"@
}

pub open spec fn canon_dir_desc(dir: Seq<char>) -> Seq<char> {
    "Unable to canonicalize startup directory path '"@ + dir + "' for"@
}

/// The text of an optional value, empty where there is none.
pub open spec fn dir_text(d: Option<String>) -> Seq<char> {
    match d {
        Some(d) => d@,
        None => Seq::empty(),
    }
}

/// The state that a status query observed; a failed query observes nothing.
pub open spec fn observed(res: Result<Vec<u8>, Vec<String>>) -> Option<ServiceState> {
    match res {
        Ok(out) => reported_state(out@),
        Err(_) => None,
    }
}

pub open spec fn go(phase: Phase, action: ActionView) -> StepView {
    StepView { phase, action, warning: None }
}

pub open spec fn fail(c: Seq<Seq<char>>) -> StepView {
    go(Phase::Done, ActionView::Finish(OutcomeView::Failed(c)))
}

/// A failure of `res` wrapped for the service, or `None` where it succeeded.
pub open spec fn tolerated<T>(res: Result<T, Vec<String>>, description: Seq<char>, name: Seq<char>) -> Option<
    Seq<Seq<char>>,
> {
    match res {
        Ok(_) => None,
        Err(c) => Some(seq![service_msg(description, name)] + texts(c)),
    }
}

/// The step that follows a fatal-on-failure command.
pub open spec fn checked(
    res: Result<Vec<u8>, Vec<String>>,
    description: Seq<char>,
    name: Seq<char>,
    next: StepView,
) -> StepView {
    match res {
        Ok(_) => next,
        Err(c) => fail(seq![service_msg(description, name)] + texts(c)),
    }
}

pub open spec fn set_argv(name: Seq<char>, field: Seq<char>, value: Seq<char>) -> Seq<Seq<char>> {
    seq!["set"@, name, field, value]
}

/// The first configuration step at or after `stage` that the service calls for:
/// startup directory, parameters, description, dependencies, account, start.
pub open spec fn configure_from(cfg: FileConfig, svc: Service, stage: nat) -> StepView
    decreases 6 - stage,
{
    let n = svc.name@;
    if stage == 0 && svc.startup_dir is Some {
        go(Phase::ResolveDir, ActionView::ResolvePath(svc.startup_dir->0@))
    } else if stage <= 1 && svc.args is Some {
        go(Phase::SetParams, ActionView::RunTool(set_argv(n, "AppParameters"@, svc.args->0@)))
    } else if stage <= 2 && svc.description is Some {
        go(
            Phase::SetDescription,
            ActionView::RunTool(set_argv(n, "Description"@, svc.description->0@)),
        )
    } else if stage <= 3 && merged(deps_of(svc.other), deps_of(cfg.global)) is Some {
        go(
            Phase::SetDeps,
            ActionView::RunTool(
                seq!["set"@, n, "DependOnService"@] + words_of(
                    merged(deps_of(svc.other), deps_of(cfg.global))->0@,
                ),
            ),
        )
    } else if stage <= 4 && merged(account_of(svc.other), account_of(cfg.global)) is Some {
        let a = merged(account_of(svc.other), account_of(cfg.global))->0;
        go(Phase::SetAccount, ActionView::RunTool(seq!["set"@, n, "ObjectName"@, a.user@, a.password@]))
    } else if stage <= 5 && merged(start_of(svc.other), start_of(cfg.global)) == Some(true) {
        go(Phase::Starting, ActionView::RunTool(seq!["start"@, n]))
    } else {
        go(Phase::Done, ActionView::Finish(OutcomeView::Succeeded))
    }
}

/// The step that follows a status query of a wait.
pub open spec fn wait_step(
    p: Poller,
    res: Result<Vec<u8>, Vec<String>>,
    name: Seq<char>,
    verb: Seq<char>,
    reached: StepView,
    waiting: Phase,
) -> StepView {
    let q = p.after_query(observed(res));
    if q.next == PollAction::Reached {
        reached
    } else if q.next == PollAction::TimedOut {
        fail(seq![wait_msg(name, verb)])
    } else {
        go(waiting, ActionView::Sleep(p.interval_ms))
    }
}

/// The step that issues a wait after a tolerated stop or start command.
pub open spec fn begin_wait(
    res: Result<Vec<u8>, Vec<String>>,
    description: Seq<char>,
    name: Seq<char>,
    verb: Seq<char>,
    p: Poller,
    waiting: Phase,
) -> StepView {
    let s = if p.next == PollAction::TimedOut {
        fail(seq![wait_msg(name, verb)])
    } else {
        go(waiting, ActionView::RunTool(seq!["status"@, name]))
    };
    StepView { warning: tolerated(res, description, name), ..s }
}

impl Phase {
    /// Whether the phase is consistent: a wait's poller is mid-run, with its target.
    pub open spec fn wf(self) -> bool {
        match self {
            Phase::WaitStop(p) => p.wf() && p.target == ServiceState::Stopped && (p.next
                == PollAction::Query || p.next == PollAction::Sleep),
            Phase::WaitStart(p) => p.wf() && p.target == ServiceState::Running && (p.next
                == PollAction::Query || p.next == PollAction::Sleep),
            _ => true,
        }
    }

    /// Whether `event` reports what this phase asked for.
    pub open spec fn awaits(self, event: Event) -> bool {
        match self {
            Phase::Done => false,
            Phase::ResolvePath | Phase::ResolveDir => event is PathResolved,
            Phase::WaitStop(p) | Phase::WaitStart(p) => if p.next == PollAction::Sleep {
                event is Slept
            } else {
                event is ToolRan
            },
            _ => event is ToolRan,
        }
    }
}

/// The step that the reconciliation of `svc` takes in `phase` on `event`.
pub open spec fn next_step(cfg: FileConfig, svc: Service, phase: Phase, event: Event) -> StepView {
    let n = svc.name@;
    let remove = go(Phase::Removing, ActionView::RunTool(seq!["remove"@, n, "confirm"@]));
    match (phase, event) {
        (Phase::QueryStatus, Event::ToolRan(res)) => match observed(res) {
            Some(ServiceState::Stopped) => remove,
            Some(_) => go(Phase::Stopping, ActionView::RunTool(seq!["stop"@, n])),
            None => go(Phase::ResolvePath, ActionView::ResolvePath(svc.path@)),
        },
        (Phase::Stopping, Event::ToolRan(res)) => {
            let p = Poller::initial(ServiceState::Stopped, cfg.stop_poll_ms(), cfg.stop_poll_count());
            begin_wait(
                res,
                "Service stopping returned error, temporarily allowing this for"@,
                n,
                "stop"@,
                p,
                Phase::WaitStop(p),
            )
        },
        (Phase::WaitStop(p), Event::ToolRan(res)) => wait_step(
            p,
            res,
            n,
            "stop"@,
            remove,
            Phase::WaitStop(p.after_query(observed(res))),
        ),
        (Phase::WaitStop(p), Event::Slept) => go(
            Phase::WaitStop(p.after_sleep()),
            ActionView::RunTool(seq!["status"@, n]),
        ),
        (Phase::Removing, Event::ToolRan(res)) => checked(
            res,
            "Unable to remove"@,
            n,
            go(Phase::ResolvePath, ActionView::ResolvePath(svc.path@)),
        ),
        (Phase::ResolvePath, Event::PathResolved(res)) => match res {
            Ok(p) => go(Phase::Installing, ActionView::RunTool(seq!["install"@, n, p@])),
            Err(c) => fail(seq![service_msg(canon_path_desc(svc.path@), n), c@]),
        },
        (Phase::Installing, Event::ToolRan(res)) => checked(
            res,
            "Unable to install"@,
            n,
            configure_from(cfg, svc, 0),
        ),
        (Phase::ResolveDir, Event::PathResolved(res)) => match res {
            Ok(d) => go(Phase::SetDir, ActionView::RunTool(set_argv(n, "AppDirectory"@, d@))),
            Err(c) => fail(seq![service_msg(canon_dir_desc(dir_text(svc.startup_dir)), n), c@]),
        },
        (Phase::SetDir, Event::ToolRan(res)) => checked(
            res,
            "Unable to set startup directory for"@,
            n,
            configure_from(cfg, svc, 1),
        ),
        (Phase::SetParams, Event::ToolRan(res)) => checked(
            res,
            "Unable to set 'AppParameters' for"@,
            n,
            configure_from(cfg, svc, 2),
        ),
        (Phase::SetDescription, Event::ToolRan(res)) => checked(
            res,
            "Unable to set 'Description' for"@,
            n,
            configure_from(cfg, svc, 3),
        ),
        (Phase::SetDeps, Event::ToolRan(res)) => checked(
            res,
            "Unable to set 'DependOnService' for"@,
            n,
            configure_from(cfg, svc, 4),
        ),
        (Phase::SetAccount, Event::ToolRan(res)) => checked(
            res,
            "Unable to set the username and password for"@,
            n,
            configure_from(cfg, svc, 5),
        ),
        (Phase::Starting, Event::ToolRan(res)) => {
            let p = Poller::initial(
                ServiceState::Running,
                cfg.start_poll_ms(),
                cfg.start_poll_count(),
            );
            begin_wait(
                res,
                "Service starting returned error, temporarily allowing this for"@,
                n,
                "start"@,
                p,
                Phase::WaitStart(p),
            )
        },
        (Phase::WaitStart(p), Event::ToolRan(res)) => wait_step(
            p,
            res,
            n,
            "start"@,
            go(Phase::Done, ActionView::Finish(OutcomeView::Succeeded)),
            Phase::WaitStart(p.after_query(observed(res))),
        ),
        (Phase::WaitStart(p), Event::Slept) => go(
            Phase::WaitStart(p.after_sleep()),
            ActionView::RunTool(seq!["status"@, n]),
        ),
        _ => fail(seq![service_msg("Unexpected answer to the pending action of"@, n)]),
    }
}

fn text(s: &str) -> (r: String)
    ensures
        r@ == s@,
{
    String::from_str(s)
}

fn push_arg(v: &mut Vec<String>, s: String)
    ensures
        argv(*final(v)) == argv(*old(v)).push(s@),
{
    v.push(s);
    assert(argv(*final(v)) =~= argv(*old(v)).push(s@));
}

fn tool_args(verb: &str, name: &String) -> (r: Vec<String>)
    ensures
        argv(r) == seq![verb@, name@],
{
    let mut v: Vec<String> = Vec::new();
    push_arg(&mut v, text(verb));
    push_arg(&mut v, name.clone());
    assert(argv(v) =~= seq![verb@, name@]);
    v
}

fn set_args(name: &String, field: &str, value: String) -> (r: Vec<String>)
    ensures
        argv(r) == set_argv(name@, field@, value@),
{
    let mut v = tool_args("set", name);
    push_arg(&mut v, text(field));
    push_arg(&mut v, value);
    assert(argv(v) =~= set_argv(name@, field@, value@));
    v
}

/// The arguments that set `field_name` of a service to `param`, where there is a value.
pub fn run_nssm_set_cmd_if_some(service_name: &String, field_name: &str, param: &Option<String>) -> (r:
    Option<Vec<String>>)
    ensures
        r is Some <==> param is Some,
        r is Some ==> argv(r->0) == set_argv(service_name@, field_name@, param->0@),
{
    match param {
        Some(v) => Some(set_args(service_name, field_name, v.clone())),
        None => None,
    }
}

/// Wraps a message for a service: "<description> service '<name>'".
pub fn chain_service_msg(description: &str, service_name: &str) -> (r: String)
    ensures
        r@ == service_msg(description@, service_name@),
{
    let mut m = String::from_str(description);
    m.append(" service '");
    m.append(service_name);
    m.append("'");
    m
}

fn one_layer(m: String) -> (r: Vec<ErrorKind>)
    ensures
        chain(r) == seq![m@],
{
    let mut v: Vec<ErrorKind> = Vec::new();
    v.push(ErrorKind::Msg(m));
    assert(chain(v) =~= seq![m@]);
    v
}

fn two_layers(first: String, cause: &String) -> (r: Vec<ErrorKind>)
    ensures
        chain(r) == seq![first@, cause@],
{
    let mut v: Vec<ErrorKind> = Vec::new();
    v.push(ErrorKind::Msg(first));
    v.push(ErrorKind::Msg(cause.clone()));
    assert(chain(v) =~= seq![first@, cause@]);
    v
}

fn wait_failure(name: &String, verb: &str) -> (r: Vec<ErrorKind>)
    ensures
        chain(r) == seq![wait_msg(name@, verb@)],
{
    let mut m = text("Unable to wait for service '");
    m.append(name.as_str());
    m.append("' to ");
    m.append(verb);
    one_layer(m)
}

fn finish_failed(c: Vec<ErrorKind>) -> (r: Step)
    ensures
        r@ == fail(chain(c)),
{
    Step { phase: Phase::Done, action: Action::Finish(Outcome::Failed(c)), warning: None }
}

fn with_causes(first: String, causes: &Vec<String>) -> (r: Vec<ErrorKind>)
    ensures
        chain(r) == seq![first@] + texts(*causes),
{
    let mut v: Vec<ErrorKind> = Vec::new();
    v.push(ErrorKind::Msg(first));
    let mut i: usize = 0;
    while i < causes.len()
        invariant
            i <= causes@.len(),
            chain(v) == seq![first@] + texts(*causes).subrange(0, i as int),
        decreases causes@.len() - i,
    {
        let ghost before = chain(v);
        v.push(ErrorKind::Msg(causes[i].clone()));
        assert(chain(v) =~= before.push(causes@[i as int]@));
        i = i + 1;
        assert(chain(v) =~= seq![first@] + texts(*causes).subrange(0, i as int));
    }
    assert(texts(*causes).subrange(0, i as int) =~= texts(*causes));
    v
}

fn command_failure(description: &str, name: &String, causes: &Vec<String>) -> (r: Step)
    ensures
        r@ == fail(seq![service_msg(description@, name@)] + texts(*causes)),
{
    finish_failed(with_causes(chain_service_msg(description, name.as_str()), causes))
}

fn service_failure(description: &str, name: &String, cause: &String) -> (r: Step)
    ensures
        r@ == fail(seq![service_msg(description@, name@), cause@]),
{
    finish_failed(two_layers(chain_service_msg(description, name.as_str()), cause))
}

fn observed_state(res: &Result<Vec<u8>, Vec<String>>) -> (r: Option<ServiceState>)
    ensures
        r == observed(*res),
{
    match res {
        Ok(out) => match run_nssm_status_cmd_extract_status(out.as_slice()) {
            Ok(s) => Some(s),
            Err(_) => None,
        },
        Err(_) => None,
    }
}

fn run_step(phase: Phase, args: Vec<String>) -> (r: Step)
    ensures
        r@ == go(phase, ActionView::RunTool(argv(args))),
{
    Step { phase, action: Action::RunTool(args), warning: None }
}

/// The first configuration step at or after `stage`.
fn configure(cfg: &FileConfig, svc: &Service, stage: u8) -> (r: Step)
    requires
        stage <= 5,
    ensures
        r@ == configure_from(*cfg, *svc, stage as nat),
{
    let n = &svc.name;
    if stage == 0 && svc.startup_dir.is_some() {
        let d = svc.startup_dir.as_ref().unwrap();
        return Step { phase: Phase::ResolveDir, action: Action::ResolvePath(d.clone()), warning: None };
    }
    if stage <= 1 {
        if let Some(v) = run_nssm_set_cmd_if_some(n, "AppParameters", &svc.args) {
            return run_step(Phase::SetParams, v);
        }
    }
    if stage <= 2 {
        if let Some(v) = run_nssm_set_cmd_if_some(n, "Description", &svc.description) {
            return run_step(Phase::SetDescription, v);
        }
    }
    let deps = effective_deps(&svc.other, &cfg.global);
    if stage <= 3 && deps.is_some() {
        let mut v = tool_args("set", n);
        push_arg(&mut v, text("DependOnService"));
        let ghost head = argv(v);
        let mut words = split_words(deps.unwrap().as_str());
        let ghost w = argv(words);
        v.append(&mut words);
        assert(argv(v) =~= head + w);
        assert(head =~= seq!["set"@, n@, "DependOnService"@]);
        return run_step(Phase::SetDeps, v);
    }
    let account = effective_account(&svc.other, &cfg.global);
    if stage <= 4 && account.is_some() {
        let a = account.unwrap();
        let mut v = tool_args("set", n);
        push_arg(&mut v, text("ObjectName"));
        push_arg(&mut v, a.user.clone());
        push_arg(&mut v, a.password.clone());
        assert(argv(v) =~= seq!["set"@, n@, "ObjectName"@, a.user@, a.password@]);
        return run_step(Phase::SetAccount, v);
    }
    if stage <= 5 && effective_start(&svc.other, &cfg.global) {
        return run_step(Phase::Starting, tool_args("start", n));
    }
    Step { phase: Phase::Done, action: Action::Finish(Outcome::Succeeded), warning: None }
}

fn tolerate(res: &Result<Vec<u8>, Vec<String>>, description: &str, name: &String) -> (r: Option<
    Vec<ErrorKind>,
>)
    ensures
        match r {
            Some(w) => Some(chain(w)),
            None => None::<Seq<Seq<char>>>,
        } == tolerated(*res, description@, name@),
{
    match res {
        Ok(_) => None,
        Err(c) => Some(with_causes(chain_service_msg(description, name.as_str()), c)),
    }
}

/// Starts a wait after a stop or start command whose failure is tolerated.
fn start_wait(
    res: &Result<Vec<u8>, Vec<String>>,
    description: &str,
    name: &String,
    verb: &str,
    p: Poller,
    waiting: Phase,
) -> (r: Step)
    requires
        p.wf(),
    ensures
        r@ == begin_wait(*res, description@, name@, verb@, p, waiting),
{
    let warning = tolerate(res, description, name);
    if p.next == PollAction::TimedOut {
        Step {
            phase: Phase::Done,
            action: Action::Finish(Outcome::Failed(wait_failure(name, verb))),
            warning,
        }
    } else {
        Step { phase: waiting, action: Action::RunTool(tool_args("status", name)), warning }
    }
}

/// Feeds a status query's result to a wait.
fn continue_wait(
    p: Poller,
    res: &Result<Vec<u8>, Vec<String>>,
    name: &String,
    verb: &str,
    reached: Step,
    stopping: bool,
) -> (r: Step)
    requires
        p.wf(),
        p.next == PollAction::Query,
    ensures
        r@ == wait_step(
            p,
            *res,
            name@,
            verb@,
            reached@,
            if stopping {
                Phase::WaitStop(p.after_query(observed(*res)))
            } else {
                Phase::WaitStart(p.after_query(observed(*res)))
            },
        ),
{
    let mut q = p;
    let next = q.observe(observed_state(res));
    if next == PollAction::Reached {
        reached
    } else if next == PollAction::TimedOut {
        finish_failed(wait_failure(name, verb))
    } else {
        let phase = if stopping {
            Phase::WaitStop(q)
        } else {
            Phase::WaitStart(q)
        };
        Step { phase, action: Action::Sleep(p.interval_ms), warning: None }
    }
}

impl Phase {
    /// Whether `event` reports what this phase asked for.
    pub fn accepts(&self, event: &Event) -> (r: bool)
        ensures
            r == self.awaits(*event),
    {
        match self {
            Phase::Done => false,
            Phase::ResolvePath | Phase::ResolveDir => matches!(event, Event::PathResolved(_)),
            Phase::WaitStop(p) | Phase::WaitStart(p) => if p.next == PollAction::Sleep {
                matches!(event, Event::Slept)
            } else {
                matches!(event, Event::ToolRan(_))
            },
            _ => matches!(event, Event::ToolRan(_)),
        }
    }
}

/// The first step of a service's reconciliation: query its status.
pub fn begin(svc: &Service) -> (r: Step)
    ensures
        r@ == go(Phase::QueryStatus, ActionView::RunTool(seq!["status"@, svc.name@])),
{
    run_step(Phase::QueryStatus, tool_args("status", &svc.name))
}

/// Takes one step of the reconciliation of `svc` in `phase`, on what came of
/// the action that the previous step asked for.
pub fn advance(cfg: &FileConfig, svc: &Service, phase: Phase, event: Event) -> (r: Step)
    requires
        phase.wf(),
        phase.awaits(event),
    ensures
        r@ == next_step(*cfg, *svc, phase, event),
        r.phase.wf(),
{
    let n = &svc.name;
    match (phase, event) {
        (Phase::QueryStatus, Event::ToolRan(res)) => match observed_state(&res) {
            Some(ServiceState::Stopped) => run_step(Phase::Removing, remove_args(n)),
            Some(_) => run_step(Phase::Stopping, tool_args("stop", n)),
            None => Step {
                phase: Phase::ResolvePath,
                action: Action::ResolvePath(svc.path.clone()),
                warning: None,
            },
        },
        (Phase::Stopping, Event::ToolRan(res)) => {
            let p = Poller::new(ServiceState::Stopped, cfg.stop_interval(), cfg.stop_count());
            start_wait(
                &res,
                "Service stopping returned error, temporarily allowing this for",
                n,
                "stop",
                p,
                Phase::WaitStop(p),
            )
        },
        (Phase::WaitStop(p), Event::ToolRan(res)) => {
            let reached = run_step(Phase::Removing, remove_args(n));
            continue_wait(p, &res, n, "stop", reached, true)
        },
        (Phase::WaitStop(p), Event::Slept) => {
            let mut q = p;
            q.slept();
            run_step(Phase::WaitStop(q), tool_args("status", n))
        },
        (Phase::Removing, Event::ToolRan(res)) => match res {
            Ok(_) => Step {
                phase: Phase::ResolvePath,
                action: Action::ResolvePath(svc.path.clone()),
                warning: None,
            },
            Err(c) => command_failure("Unable to remove", n, &c),
        },
        (Phase::ResolvePath, Event::PathResolved(res)) => match res {
            Ok(p) => {
                let mut v = tool_args("install", n);
                let ghost pv = p@;
                push_arg(&mut v, p);
                assert(argv(v) =~= seq!["install"@, n@, pv]);
                run_step(Phase::Installing, v)
            },
            Err(c) => {
                let mut d = text("Unable to canonicalize path '");
                d.append(svc.path.as_str());
                d.append("' for");
                service_failure(d.as_str(), n, &c)
            },
        },
        (Phase::Installing, Event::ToolRan(res)) => match res {
            Ok(_) => configure(cfg, svc, 0),
            Err(c) => command_failure("Unable to install", n, &c),
        },
        (Phase::ResolveDir, Event::PathResolved(res)) => match res {
            Ok(d) => run_step(Phase::SetDir, set_args(n, "AppDirectory", d)),
            Err(c) => {
                let mut d = text("Unable to canonicalize startup directory path '");
                let dir = match &svc.startup_dir {
                    Some(dir) => dir.clone(),
                    None => String::new(),
                };
                d.append(dir.as_str());
                d.append("' for");
                service_failure(d.as_str(), n, &c)
            },
        },
        (Phase::SetDir, Event::ToolRan(res)) => match res {
            Ok(_) => configure(cfg, svc, 1),
            Err(c) => command_failure("Unable to set startup directory for", n, &c),
        },
        (Phase::SetParams, Event::ToolRan(res)) => match res {
            Ok(_) => configure(cfg, svc, 2),
            Err(c) => command_failure("Unable to set 'AppParameters' for", n, &c),
        },
        (Phase::SetDescription, Event::ToolRan(res)) => match res {
            Ok(_) => configure(cfg, svc, 3),
            Err(c) => command_failure("Unable to set 'Description' for", n, &c),
        },
        (Phase::SetDeps, Event::ToolRan(res)) => match res {
            Ok(_) => configure(cfg, svc, 4),
            Err(c) => command_failure("Unable to set 'DependOnService' for", n, &c),
        },
        (Phase::SetAccount, Event::ToolRan(res)) => match res {
            Ok(_) => configure(cfg, svc, 5),
            Err(c) => command_failure("Unable to set the username and password for", n, &c),
        },
        (Phase::Starting, Event::ToolRan(res)) => {
            let p = Poller::new(ServiceState::Running, cfg.start_interval(), cfg.start_count());
            start_wait(
                &res,
                "Service starting returned error, temporarily allowing this for",
                n,
                "start",
                p,
                Phase::WaitStart(p),
            )
        },
        (Phase::WaitStart(p), Event::ToolRan(res)) => {
            let reached = Step {
                phase: Phase::Done,
                action: Action::Finish(Outcome::Succeeded),
                warning: None,
            };
            continue_wait(p, &res, n, "start", reached, false)
        },
        (Phase::WaitStart(p), Event::Slept) => {
            let mut q = p;
            q.slept();
            run_step(Phase::WaitStart(q), tool_args("status", n))
        },
        _ => {
            // `awaits` rules out every other pairing.
            proof {
                assert(false);
            }
            finish_failed(
                one_layer(chain_service_msg("Unexpected answer to the pending action of", n.as_str())),
            )
        },
    }
}

fn remove_args(name: &String) -> (r: Vec<String>)
    ensures
        argv(r) == seq!["remove"@, name@, "confirm"@],
{
    let mut v = tool_args("remove", name);
    push_arg(&mut v, text("confirm"));
    assert(argv(v) =~= seq!["remove"@, name@, "confirm"@]);
    v
}

/// Where the account is set, the password is passed as an argument of its
/// own, also when it is empty, and the command line shows an empty one as `""`.
pub proof fn lemma_password_explicit(cfg: FileConfig, svc: Service, stage: nat)
    requires
        stage <= 5,
        configure_from(cfg, svc, stage).phase == Phase::SetAccount,
    ensures
        ({
            let a = merged(account_of(svc.other), account_of(cfg.global))->0;
            let args = seq!["set"@, svc.name@, "ObjectName"@, a.user@, a.password@];
            &&& configure_from(cfg, svc, stage).action == ActionView::RunTool(args)
            &&& a.password@.len() == 0 ==> shown_line(args) == shown_line(args.drop_last()) + " "@
                + "\"\""@
        }),
{
    let a = merged(account_of(svc.other), account_of(cfg.global))->0;
    let args = seq!["set"@, svc.name@, "ObjectName"@, a.user@, a.password@];
    assert(args.last() == a.password@);
}

} // verus!
