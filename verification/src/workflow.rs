//! The order of one run: build, open a backend session, analyse, query,
//! close, present.
//!
//! The library cannot start a process or talk to one. It hands the caller one
//! [`Action`] at a time; the caller performs it and reports the [`Event`] that
//! followed. [`Workflow::step`] is total: an event that does not answer the
//! pending action ends the run, after closing the session if one is open.

use vstd::prelude::*;

use crate::build_driver::{
    binary_path, binary_path_of, build_command, build_of, BuildCommand, BuildCommandView,
};
use crate::options::{Opts, OptsView};
use crate::tool::{analysis_text, decompile_text, Tool};

verus! {

/// Why a run ended without a decompilation.
#[derive(Debug, Clone, Copy, PartialEq, Eq, Structural)]
pub enum Failure {
    /// The build program could not be started.
    BuildNotStarted,
    /// The build ran and did not succeed.
    BuildFailed,
    /// The backend could not be started on the binary.
    SpawnFailed,
    /// The backend failed on the analysis request.
    AnalysisFailed,
    /// The backend failed on the decompile query.
    QueryFailed,
    /// The caller reported an event that does not answer the pending action.
    OutOfTurn,
}

/// What the caller reports after performing an action.
#[derive(Debug, Clone, PartialEq, Eq)]
pub enum Event {
    /// The build program ran to its end, successfully or not.
    BuildExited { success: bool },
    /// The build program could not be started.
    BuildNotStarted,
    /// The backend runs and holds the binary.
    SessionOpened,
    /// The backend could not be started.
    SessionRefused,
    /// The backend answered the last request with this text.
    Reply(String),
    /// The backend failed on the last request.
    RequestFailed,
    /// The session is closed and its process released.
    SessionClosed,
}

/// The mathematical content of an [`Event`].
pub enum EventView {
    BuildExited { success: bool },
    BuildNotStarted,
    SessionOpened,
    SessionRefused,
    Reply(Seq<char>),
    RequestFailed,
    SessionClosed,
}

impl View for Event {
    type V = EventView;

    open spec fn view(&self) -> EventView {
        match *self {
            Event::BuildExited { success } => EventView::BuildExited { success },
            Event::BuildNotStarted => EventView::BuildNotStarted,
            Event::SessionOpened => EventView::SessionOpened,
            Event::SessionRefused => EventView::SessionRefused,
            Event::Reply(text) => EventView::Reply(text@),
            Event::RequestFailed => EventView::RequestFailed,
            Event::SessionClosed => EventView::SessionClosed,
        }
    }
}

/// What the caller is to do next.
#[derive(Debug, Clone, PartialEq, Eq)]
pub enum Action {
    /// Run this build and wait for its end.
    RunBuild(BuildCommand),
    /// Start this backend on the binary at this path.
    OpenSession { tool: Tool, path: String },
    /// Send this request to the open session and wait for the answer.
    Send(String),
    /// Close the open session and release its process.
    CloseSession,
    /// The run succeeded: this is the decompilation to present.
    Present(String),
    /// The run ended without a decompilation.
    Abort(Failure),
}

/// The mathematical content of an [`Action`].
pub enum ActionView {
    RunBuild(BuildCommandView),
    OpenSession { tool: Tool, path: Seq<char> },
    Send(Seq<char>),
    CloseSession,
    Present(Seq<char>),
    Abort(Failure),
}

impl View for Action {
    type V = ActionView;

    open spec fn view(&self) -> ActionView {
        match *self {
            Action::RunBuild(command) => ActionView::RunBuild(command@),
            Action::OpenSession { tool, path } => ActionView::OpenSession { tool, path: path@ },
            Action::Send(request) => ActionView::Send(request@),
            Action::CloseSession => ActionView::CloseSession,
            Action::Present(text) => ActionView::Present(text@),
            Action::Abort(failure) => ActionView::Abort(failure),
        }
    }
}

/// How far a run has come. Each phase but the last waits for the event that
/// answers the action handed out on entering it.
#[derive(Debug, PartialEq, Eq)]
pub enum Phase {
    /// The build was handed out.
    Building,
    /// The start of the backend was handed out.
    Opening,
    /// A session is open and the analysis request was handed out.
    Analysing,
    /// A session is open and the decompile query was handed out.
    Querying,
    /// The close of the session was handed out; the run ends with this
    /// outcome once the session is closed.
    Closing(Result<String, Failure>),
    /// The run is over.
    Finished,
}

/// The mathematical content of a [`Phase`].
pub enum PhaseView {
    Building,
    Opening,
    Analysing,
    Querying,
    Closing(Result<Seq<char>, Failure>),
    Finished,
}

/// The characters of a pending outcome.
pub open spec fn outcome_text(outcome: Result<String, Failure>) -> Result<Seq<char>, Failure> {
    match outcome {
        Ok(text) => Ok(text@),
        Err(failure) => Err(failure),
    }
}

impl View for Phase {
    type V = PhaseView;

    open spec fn view(&self) -> PhaseView {
        match *self {
            Phase::Building => PhaseView::Building,
            Phase::Opening => PhaseView::Opening,
            Phase::Analysing => PhaseView::Analysing,
            Phase::Querying => PhaseView::Querying,
            Phase::Closing(outcome) => PhaseView::Closing(outcome_text(outcome)),
            Phase::Finished => PhaseView::Finished,
        }
    }
}

impl PhaseView {
    /// A session is live while it is open and its close was not handed out.
    pub open spec fn live(self) -> bool {
        self is Analysing || self is Querying
    }
}

/// One run: its options and how far it has come.
#[derive(Debug, PartialEq, Eq)]
pub struct Workflow {
    pub opts: Opts,
    pub phase: Phase,
}

/// The mathematical content of a [`Workflow`].
pub struct WorkflowView {
    pub opts: OptsView,
    pub phase: PhaseView,
}

impl View for Workflow {
    type V = WorkflowView;

    open spec fn view(&self) -> WorkflowView {
        WorkflowView { opts: self.opts@, phase: self.phase@ }
    }
}

/// The action that ends a run with this outcome.
pub open spec fn last_action(outcome: Result<Seq<char>, Failure>) -> ActionView {
    match outcome {
        Ok(text) => ActionView::Present(text),
        Err(failure) => ActionView::Abort(failure),
    }
}

/// The first state of a run and its first action: the build.
pub open spec fn started(opts: OptsView, inherited_flags: Option<Seq<char>>) -> (
    WorkflowView,
    ActionView,
) {
    (
        WorkflowView { opts, phase: PhaseView::Building },
        ActionView::RunBuild(build_of(opts, inherited_flags)),
    )
}

/// The phase that follows `phase` on `event`, and the action handed out on
/// entering it.
///
/// - An unsuccessful build ends the run; a successful one is followed by the
///   start of the backend on the expected binary.
/// - An open session is sent the analysis request, then the decompile query.
///   The answer to the analysis is dropped; the answer to the query is the
///   outcome.
/// - Whatever happens while a session is live, its close is handed out next,
///   and the outcome is reported only once the session is closed.
/// - An event that does not answer the pending action is a failure of its
///   own.
pub open spec fn next(opts: OptsView, phase: PhaseView, event: EventView) -> (
    PhaseView,
    ActionView,
) {
    match phase {
        PhaseView::Building => match event {
            EventView::BuildExited { success } => if success {
                (
                    PhaseView::Opening,
                    ActionView::OpenSession { tool: opts.tool, path: binary_path_of(opts) },
                )
            } else {
                (PhaseView::Finished, ActionView::Abort(Failure::BuildFailed))
            },
            EventView::BuildNotStarted => (
                PhaseView::Finished,
                ActionView::Abort(Failure::BuildNotStarted),
            ),
            _ => (PhaseView::Finished, ActionView::Abort(Failure::OutOfTurn)),
        },
        PhaseView::Opening => match event {
            EventView::SessionOpened => (PhaseView::Analysing, ActionView::Send(analysis_text())),
            EventView::SessionRefused => (
                PhaseView::Finished,
                ActionView::Abort(Failure::SpawnFailed),
            ),
            _ => (PhaseView::Finished, ActionView::Abort(Failure::OutOfTurn)),
        },
        PhaseView::Analysing => match event {
            EventView::Reply(_) => (PhaseView::Querying, ActionView::Send(decompile_text(opts.s))),
            EventView::RequestFailed => (
                PhaseView::Closing(Err(Failure::AnalysisFailed)),
                ActionView::CloseSession,
            ),
            _ => (PhaseView::Closing(Err(Failure::OutOfTurn)), ActionView::CloseSession),
        },
        PhaseView::Querying => match event {
            EventView::Reply(text) => (PhaseView::Closing(Ok(text)), ActionView::CloseSession),
            EventView::RequestFailed => (
                PhaseView::Closing(Err(Failure::QueryFailed)),
                ActionView::CloseSession,
            ),
            _ => (PhaseView::Closing(Err(Failure::OutOfTurn)), ActionView::CloseSession),
        },
        PhaseView::Closing(outcome) => match event {
            EventView::SessionClosed => (PhaseView::Finished, last_action(outcome)),
            _ => (PhaseView::Finished, ActionView::Abort(Failure::OutOfTurn)),
        },
        PhaseView::Finished => (PhaseView::Finished, ActionView::Abort(Failure::OutOfTurn)),
    }
}

/// The state that follows `workflow` on `event`, and the action to perform.
pub open spec fn step_of(workflow: WorkflowView, event: EventView) -> (WorkflowView, ActionView) {
    let (phase, action) = next(workflow.opts, workflow.phase, event);
    (WorkflowView { opts: workflow.opts, phase }, action)
}

impl Workflow {
    /// Begins a run: the first action is the build for `opts`.
    /// `inherited_flags` is the value of the build-flags variable in the
    /// caller's environment, if it is set.
    pub fn start(opts: Opts, inherited_flags: Option<String>) -> (r: (Workflow, Action))
        ensures
            (r.0@, r.1@) == started(opts@, inherited_flags.deep_view()),
    {
        let command = build_command(&opts, inherited_flags);
        (Workflow { opts, phase: Phase::Building }, Action::RunBuild(command))
    }

    /// Takes the event that followed the last action and says what to do
    /// next.
    pub fn step(self, event: Event) -> (r: (Workflow, Action))
        ensures
            (r.0@, r.1@) == step_of(self@, event@),
    {
        let Workflow { opts, phase } = self;
        let (phase, action) = match phase {
            Phase::Building => match event {
                Event::BuildExited { success } => {
                    if success {
                        let path = binary_path(&opts);
                        (Phase::Opening, Action::OpenSession { tool: opts.tool, path })
                    } else {
                        (Phase::Finished, Action::Abort(Failure::BuildFailed))
                    }
                },
                Event::BuildNotStarted => (
                    Phase::Finished,
                    Action::Abort(Failure::BuildNotStarted),
                ),
                _ => (Phase::Finished, Action::Abort(Failure::OutOfTurn)),
            },
            Phase::Opening => match event {
                Event::SessionOpened => (
                    Phase::Analysing,
                    Action::Send(opts.tool.analysis_command()),
                ),
                Event::SessionRefused => (Phase::Finished, Action::Abort(Failure::SpawnFailed)),
                _ => (Phase::Finished, Action::Abort(Failure::OutOfTurn)),
            },
            Phase::Analysing => match event {
                Event::Reply(_) => (
                    Phase::Querying,
                    Action::Send(opts.tool.decompile_query(opts.s.as_str())),
                ),
                Event::RequestFailed => (
                    Phase::Closing(Err(Failure::AnalysisFailed)),
                    Action::CloseSession,
                ),
                _ => (Phase::Closing(Err(Failure::OutOfTurn)), Action::CloseSession),
            },
            Phase::Querying => match event {
                Event::Reply(text) => (Phase::Closing(Ok(text)), Action::CloseSession),
                Event::RequestFailed => (
                    Phase::Closing(Err(Failure::QueryFailed)),
                    Action::CloseSession,
                ),
                _ => (Phase::Closing(Err(Failure::OutOfTurn)), Action::CloseSession),
            },
            Phase::Closing(outcome) => match event {
                Event::SessionClosed => match outcome {
                    Ok(text) => (Phase::Finished, Action::Present(text)),
                    Err(failure) => (Phase::Finished, Action::Abort(failure)),
                },
                _ => (Phase::Finished, Action::Abort(Failure::OutOfTurn)),
            },
            Phase::Finished => (Phase::Finished, Action::Abort(Failure::OutOfTurn)),
        };
        (Workflow { opts, phase }, action)
    }
}

/// What a run has done so far: where it stands, every action handed out in
/// order, and how many sessions the caller reported open in answer to the
/// start of the backend.
pub struct Trace {
    pub end: WorkflowView,
    pub actions: Seq<ActionView>,
    pub sessions: nat,
}

/// How many of these actions close a session.
pub open spec fn closes(actions: Seq<ActionView>) -> nat
    decreases actions.len(),
{
    if actions.len() == 0 {
        0
    } else {
        closes(actions.drop_last()) + if actions.last() is CloseSession {
            1nat
        } else {
            0nat
        }
    }
}

/// The run that begins with these options and is then told `events`, one
/// after the other.
pub open spec fn run(
    opts: OptsView,
    inherited_flags: Option<Seq<char>>,
    events: Seq<EventView>,
) -> Trace
    decreases events.len(),
{
    if events.len() == 0 {
        let (first, action) = started(opts, inherited_flags);
        Trace { end: first, actions: seq![action], sessions: 0 }
    } else {
        let before = run(opts, inherited_flags, events.drop_last());
        let (end, action) = step_of(before.end, events.last());
        Trace {
            end,
            actions: before.actions.push(action),
            sessions: before.sessions + if before.end.phase is Opening && events.last()
                is SessionOpened {
                1nat
            } else {
                0nat
            },
        }
    }
}

/// Every session is closed exactly once. Whatever the caller reports, and
/// whether the requests succeed or fail: a run is given at most one session;
/// while that session is live no close was handed out; and from the moment
/// it is no longer live, which includes every finished run, exactly one
/// close was handed out for it and none without it.
pub proof fn session_closed_exactly_once(
    opts: OptsView,
    inherited_flags: Option<Seq<char>>,
    events: Seq<EventView>,
)
    ensures
        ({
            let trace = run(opts, inherited_flags, events);
            &&& trace.sessions <= 1
            &&& trace.end.phase.live() ==> trace.sessions == 1 && closes(trace.actions) == 0
            &&& !trace.end.phase.live() ==> closes(trace.actions) == trace.sessions
            &&& (trace.end.phase is Building || trace.end.phase is Opening) ==> trace.sessions
                == 0
            &&& trace.end.phase is Closing ==> trace.sessions == 1
        }),
    decreases events.len(),
{
    if events.len() == 0 {
        let first = started(opts, inherited_flags).1;
        assert(seq![first].drop_last() =~= Seq::<ActionView>::empty());
        assert(closes(Seq::<ActionView>::empty()) == 0);
        assert(seq![first].last() is RunBuild);
    } else {
        session_closed_exactly_once(opts, inherited_flags, events.drop_last());
        let before = run(opts, inherited_flags, events.drop_last());
        let action = step_of(before.end, events.last()).1;
        assert(before.actions.push(action).drop_last() =~= before.actions);
    }
}

/// The close stands between a live session and the outcome. A step hands out
/// the close exactly when it leaves a live session; no step goes from a live
/// session straight to the end of the run; and the decompilation is presented
/// only on the report that the session is closed, as the answer that was
/// held back until then.
pub proof fn close_precedes_outcome(workflow: WorkflowView, event: EventView)
    ensures
        step_of(workflow, event).1 is Present ==> {
            &&& workflow.phase is Closing
            &&& event is SessionClosed
            &&& workflow.phase->Closing_0 == Ok::<Seq<char>, Failure>(
                step_of(workflow, event).1->Present_0,
            )
        },
        step_of(workflow, event).1 is CloseSession <==> workflow.phase.live() && !step_of(
            workflow,
            event,
        ).0.phase.live(),
        step_of(workflow, event).0.phase is Finished ==> !workflow.phase.live(),
{
}

/// One process at a time, in a fixed order. A step never hands out a build:
/// the only build is the one a run starts with. The backend is started only
/// once that build has ended well. A request is sent exactly by the steps
/// that end in a live session: the analysis when the session opens, the
/// query when the analysis is answered. The options never change.
pub proof fn actions_keep_their_order(workflow: WorkflowView, event: EventView)
    ensures
        ({
            let (after, action) = step_of(workflow, event);
            &&& !(action is RunBuild)
            &&& action is OpenSession ==> {
                &&& workflow.phase is Building
                &&& event == (EventView::BuildExited { success: true })
                &&& after.phase is Opening
            }
            &&& action is Send <==> after.phase.live()
            &&& after.phase is Analysing ==> workflow.phase is Opening && event is SessionOpened
            &&& after.phase is Querying ==> workflow.phase is Analysing && event is Reply
            &&& after.opts == workflow.opts
        }),
{
}

} // verus!
