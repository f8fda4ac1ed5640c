//! The workflow that draws the sample diagram.
//!
//! Six calls are made in a fixed order: two that clean up what an earlier run
//! may have left, one that creates the diagram, two that add a class each and
//! one that joins the classes. A later call names what an earlier call
//! created, so the identifiers captured so far travel with the workflow.
//!
//! The workflow itself sends nothing. [`Workflow::request`] says what to send
//! next, and [`Workflow::handle`] takes what came back and decides how to go
//! on. A cleanup call may fail without consequence; any other failure ends
//! the run.

use crate::envelope::{build, Envelope, EnvelopeView, PROTOCOL_VERSION, TOOLS_CALL};
use crate::identifier::{extract, identifier_in, is_piece_of, text_of};
use crate::json::{Json, JsonView};
use crate::response::{interpret, interpret_spec, Outcome, OutcomeView};
use crate::sample::{
    car_arguments, car_arguments_spec, create_diagram_arguments, create_diagram_arguments_spec,
    delete_arguments, delete_arguments_spec, edge_arguments, edge_arguments_spec,
    person_arguments, person_arguments_spec, EMPTY_DIAGRAM_ID, PREVIOUS_DIAGRAM_ID,
};
use crate::step::Step;
use vstd::prelude::*;
use vstd::string::*;

verus! {

/// The identifiers captured so far in one run.
#[derive(Debug, PartialEq, Eq)]
pub struct WorkflowContext {
    pub diagram_id: Option<String>,
    pub entity_a_id: Option<String>,
    pub entity_b_id: Option<String>,
}

/// The mathematical model of a [`WorkflowContext`].
pub struct ContextView {
    pub diagram_id: Option<Seq<char>>,
    pub entity_a_id: Option<Seq<char>>,
    pub entity_b_id: Option<Seq<char>>,
}

impl View for WorkflowContext {
    type V = ContextView;

    open spec fn view(&self) -> ContextView {
        ContextView {
            diagram_id: text_of(self.diagram_id),
            entity_a_id: text_of(self.entity_a_id),
            entity_b_id: text_of(self.entity_b_id),
        }
    }
}

impl ContextView {
    /// The context of a run that has captured nothing yet.
    pub open spec fn empty() -> ContextView {
        ContextView { diagram_id: None, entity_a_id: None, entity_b_id: None }
    }

    /// The context after `step` has yielded the identifier `id`.
    pub open spec fn record(self, step: Step, id: Seq<char>) -> ContextView {
        match step {
            Step::CreateDiagram => ContextView { diagram_id: Some(id), ..self },
            Step::CreateEntityA => ContextView { entity_a_id: Some(id), ..self },
            Step::CreateEntityB => ContextView { entity_b_id: Some(id), ..self },
            _ => self,
        }
    }
}

/// Why a run ended early.
#[derive(Debug, PartialEq, Eq)]
pub enum Cause {
    /// The call could not be sent, or no readable response came back.
    TransportFailure(String),
    /// The service reported a failure; the payload is its report.
    ServerError(Json),
    /// The response had neither an error nor a result text; the payload is
    /// the whole response.
    Malformed(Json),
    /// The result text carried no identifier; the payload is that text.
    MissingIdentifier(String),
}

/// The mathematical model of a [`Cause`].
pub enum CauseView {
    TransportFailure(Seq<char>),
    ServerError(JsonView),
    Malformed(JsonView),
    MissingIdentifier(Seq<char>),
}

impl View for Cause {
    type V = CauseView;

    open spec fn view(&self) -> CauseView {
        match self {
            Cause::TransportFailure(message) => CauseView::TransportFailure(message@),
            Cause::ServerError(payload) => CauseView::ServerError(payload@),
            Cause::Malformed(body) => CauseView::Malformed(body@),
            Cause::MissingIdentifier(text) => CauseView::MissingIdentifier(text@),
        }
    }
}

/// The diagnostic of a run that failed: the step that failed, and why, with
/// the payload that shows it.
#[derive(Debug, PartialEq, Eq)]
pub struct Failure {
    pub step: Step,
    pub cause: Cause,
}

/// The mathematical model of a [`Failure`].
pub struct FailureView {
    pub step: Step,
    pub cause: CauseView,
}

impl View for Failure {
    type V = FailureView;

    open spec fn view(&self) -> FailureView {
        FailureView { step: self.step, cause: self.cause@ }
    }
}

/// The line that reports a failure: the name of the step, then the cause, and
/// the text at fault where the cause has one.
pub open spec fn headline_spec(failure: FailureView) -> Seq<char> {
    failure.step.spec_name() + ": "@ + match failure.cause {
        CauseView::TransportFailure(message) => "transport failure: "@ + message,
        CauseView::ServerError(_) => "the server returned an error"@,
        CauseView::Malformed(_) => "the response carries no result text"@,
        CauseView::MissingIdentifier(text) => "no identifier found in: "@ + text,
    }
}

impl Failure {
    /// The line that reports this failure. A payload of the service is not
    /// part of the line: it stays in `cause`.
    pub fn headline(&self) -> (line: String)
        ensures
            line@ == headline_spec(self@),
    {
        let mut line = String::from_str(self.step.name());
        line.append(": ");
        match &self.cause {
            Cause::TransportFailure(message) => {
                line.append("transport failure: ");
                line.append(message.as_str());
                assert(line@ =~= headline_spec(self@));
            },
            Cause::ServerError(_) => {
                line.append("the server returned an error");
            },
            Cause::Malformed(_) => {
                line.append("the response carries no result text");
            },
            Cause::MissingIdentifier(text) => {
                line.append("no identifier found in: ");
                line.append(text.as_str());
                assert(line@ =~= headline_spec(self@));
            },
        }
        line
    }
}

/// What the caller of a workflow brings back from a call.
#[derive(Debug, PartialEq, Eq)]
pub enum Event {
    /// The body of the response.
    Response(Json),
    /// The call could not be sent, or its response could not be read.
    TransportFailure(String),
}

/// The mathematical model of an [`Event`].
pub enum EventView {
    Response(JsonView),
    TransportFailure(Seq<char>),
}

impl View for Event {
    type V = EventView;

    open spec fn view(&self) -> EventView {
        match self {
            Event::Response(body) => EventView::Response(body@),
            Event::TransportFailure(message) => EventView::TransportFailure(message@),
        }
    }
}

/// What a workflow made of an event, for the caller's log.
#[derive(Debug, PartialEq, Eq)]
pub enum Notice {
    /// The step went well and the workflow moved on.
    Advanced,
    /// A cleanup step met an error of the service, which is carried here, and
    /// the workflow moved on all the same.
    Tolerated(Json),
    /// The step failed and the run has ended.
    Halted,
    /// The run had ended before; nothing changed.
    Ignored,
}

/// The mathematical model of a [`Notice`].
pub enum NoticeView {
    Advanced,
    Tolerated(JsonView),
    Halted,
    Ignored,
}

impl View for Notice {
    type V = NoticeView;

    open spec fn view(&self) -> NoticeView {
        match self {
            Notice::Advanced => NoticeView::Advanced,
            Notice::Tolerated(payload) => NoticeView::Tolerated(payload@),
            Notice::Halted => NoticeView::Halted,
            Notice::Ignored => NoticeView::Ignored,
        }
    }
}

/// The mathematical model of a [`Workflow`].
pub struct WorkflowView {
    pub step: Step,
    pub context: ContextView,
    pub failure: Option<FailureView>,
}

impl WorkflowView {
    /// The start of a run.
    pub open spec fn initial() -> WorkflowView {
        WorkflowView { step: Step::CleanupPrevious, context: ContextView::empty(), failure: None }
    }

    /// The last step that the run has reached: the one that failed, or else
    /// the one at which it stands.
    pub open spec fn reached(self) -> Step {
        match self.failure {
            Some(failure) => failure.step,
            None => self.step,
        }
    }

    /// What holds of every workflow: it has a failure exactly when it stands
    /// at `Failed`, the step that failed was a call, and it holds exactly the
    /// identifiers that the steps before the one reached have yielded.
    pub open spec fn wf(self) -> bool {
        &&& self.step is Failed <==> self.failure is Some
        &&& self.failure matches Some(failure) ==> !failure.step.is_terminal()
        &&& self.context.diagram_id is Some <==> self.reached().rank() > Step::CreateDiagram.rank()
        &&& self.context.entity_a_id is Some <==> self.reached().rank()
            > Step::CreateEntityA.rank()
        &&& self.context.entity_b_id is Some <==> self.reached().rank()
            > Step::CreateEntityB.rank()
    }

    /// The workflow after its current step has failed for `cause`.
    pub open spec fn fail(self, cause: CauseView) -> WorkflowView {
        WorkflowView {
            step: Step::Failed,
            context: self.context,
            failure: Some(FailureView { step: self.step, cause }),
        }
    }
}

/// The arguments of the call that `step` makes with the identifiers in
/// `context`. There are none at an end of the run, and none while an
/// identifier that the call has to name is missing.
pub open spec fn arguments_spec(step: Step, context: ContextView) -> Option<
    Seq<(Seq<char>, JsonView)>,
> {
    match step {
        Step::CleanupPrevious => Some(delete_arguments_spec(PREVIOUS_DIAGRAM_ID@)),
        Step::CleanupEmpty => Some(delete_arguments_spec(EMPTY_DIAGRAM_ID@)),
        Step::CreateDiagram => Some(create_diagram_arguments_spec()),
        Step::CreateEntityA => match context.diagram_id {
            Some(diagram) => Some(person_arguments_spec(diagram)),
            None => None,
        },
        Step::CreateEntityB => match context.diagram_id {
            Some(diagram) => Some(car_arguments_spec(diagram)),
            None => None,
        },
        Step::CreateEdge => match (context.diagram_id, context.entity_a_id, context.entity_b_id) {
            (Some(diagram), Some(source), Some(target)) => Some(
                edge_arguments_spec(diagram, source, target),
            ),
            _ => None,
        },
        Step::Done => None,
        Step::Failed => None,
    }
}

/// The request that a workflow has to send next, if any.
pub open spec fn request_spec(workflow: WorkflowView) -> Option<EnvelopeView> {
    match (
        workflow.step.spec_tool_name(),
        workflow.step.request_id(),
        arguments_spec(workflow.step, workflow.context),
    ) {
        (Some(tool_name), Some(request_id), Some(arguments)) => Some(
            EnvelopeView {
                protocol_version: PROTOCOL_VERSION@,
                method: TOOLS_CALL@,
                tool_name,
                arguments,
                request_id,
            },
        ),
        _ => None,
    }
}

/// The workflow after an interpreted response.
///
/// `identifier` is what was found in the text of a successful outcome and
/// `body` is the response as it came. An end of the run stays as it is. A
/// cleanup step moves on whatever the outcome. Any other step moves on only on
/// success, and a step that has to yield an identifier only if one was found;
/// else the run fails at this step.
pub open spec fn advance_spec(
    workflow: WorkflowView,
    outcome: OutcomeView,
    identifier: Option<Seq<char>>,
    body: JsonView,
) -> WorkflowView {
    if workflow.step.is_terminal() {
        workflow
    } else if workflow.step.is_cleanup() {
        WorkflowView { step: workflow.step.next(), ..workflow }
    } else {
        match outcome {
            OutcomeView::ServerError(payload) => workflow.fail(CauseView::ServerError(payload)),
            OutcomeView::Malformed => workflow.fail(CauseView::Malformed(body)),
            OutcomeView::Success(text) => match (workflow.step.captures(), identifier) {
                (None, _) => WorkflowView { step: workflow.step.next(), ..workflow },
                (Some(_), Some(id)) => WorkflowView {
                    step: workflow.step.next(),
                    context: workflow.context.record(workflow.step, id),
                    ..workflow
                },
                (Some(_), None) => workflow.fail(CauseView::MissingIdentifier(text)),
            },
        }
    }
}

/// What the caller is told after an interpreted response.
pub open spec fn notice_spec(
    workflow: WorkflowView,
    outcome: OutcomeView,
    identifier: Option<Seq<char>>,
) -> NoticeView {
    if workflow.step.is_terminal() {
        NoticeView::Ignored
    } else if workflow.step.is_cleanup() {
        match outcome {
            OutcomeView::ServerError(payload) => NoticeView::Tolerated(payload),
            _ => NoticeView::Advanced,
        }
    } else {
        match outcome {
            OutcomeView::Success(_) => if workflow.step.captures() is Some && identifier is None {
                NoticeView::Halted
            } else {
                NoticeView::Advanced
            },
            _ => NoticeView::Halted,
        }
    }
}

/// The workflow after a call that could not be made or read: the run fails,
/// at whichever call it stood.
pub open spec fn abort_spec(workflow: WorkflowView, message: Seq<char>) -> WorkflowView {
    if workflow.step.is_terminal() {
        workflow
    } else {
        workflow.fail(CauseView::TransportFailure(message))
    }
}

/// The identifier that a step looks for in an outcome: the one that a
/// successful text carries under the step's convention.
pub open spec fn wanted_identifier(step: Step, outcome: OutcomeView) -> Option<Seq<char>> {
    match (step.captures(), outcome) {
        (Some(kind), OutcomeView::Success(text)) => identifier_in(text, kind),
        _ => None,
    }
}

/// Whatever identifier a step finds in a successful response is a stretch of
/// the text of that response.
pub open spec fn found_in_text(step: Step, body: JsonView) -> bool {
    interpret_spec(body) matches OutcomeView::Success(text) ==> (wanted_identifier(
        step,
        interpret_spec(body),
    ) matches Some(id) ==> is_piece_of(id, text))
}

/// The workflow after an event.
pub open spec fn handle_spec(workflow: WorkflowView, event: EventView) -> WorkflowView {
    match event {
        EventView::TransportFailure(message) => abort_spec(workflow, message),
        EventView::Response(body) => advance_spec(
            workflow,
            interpret_spec(body),
            wanted_identifier(workflow.step, interpret_spec(body)),
            body,
        ),
    }
}

/// What the caller is told after an event.
pub open spec fn handle_notice_spec(workflow: WorkflowView, event: EventView) -> NoticeView {
    match event {
        EventView::TransportFailure(_) => if workflow.step.is_terminal() {
            NoticeView::Ignored
        } else {
            NoticeView::Halted
        },
        EventView::Response(body) => notice_spec(
            workflow,
            interpret_spec(body),
            wanted_identifier(workflow.step, interpret_spec(body)),
        ),
    }
}

/// The models of a list of events, in order.
pub open spec fn events_view(events: Seq<Event>) -> Seq<EventView> {
    Seq::new(events.len(), |i: int| events[i]@)
}

/// The workflow after a list of events, taken one after the other.
pub open spec fn run_spec(workflow: WorkflowView, events: Seq<EventView>) -> WorkflowView
    decreases events.len(),
{
    if events.len() == 0 {
        workflow
    } else {
        handle_spec(run_spec(workflow, events.drop_last()), events.last())
    }
}

/// One run of the workflow: the step at which it stands, the identifiers
/// captured so far and, once it has failed, the failure.
#[derive(Debug, PartialEq, Eq)]
pub struct Workflow {
    step: Step,
    context: WorkflowContext,
    failure: Option<Failure>,
}

impl View for Workflow {
    type V = WorkflowView;

    closed spec fn view(&self) -> WorkflowView {
        WorkflowView {
            step: self.step,
            context: self.context@,
            failure: match self.failure {
                Some(failure) => Some(failure@),
                None => None,
            },
        }
    }
}

impl Workflow {
    /// Every workflow that exists is well-formed.
    #[verifier::type_invariant]
    spec fn well_formed(&self) -> bool {
        self@.wf()
    }

    /// A run at its start: nothing sent, nothing captured.
    pub fn new() -> (workflow: Workflow)
        ensures
            workflow@ == WorkflowView::initial(),
    {
        Workflow {
            step: Step::CleanupPrevious,
            context: WorkflowContext { diagram_id: None, entity_a_id: None, entity_b_id: None },
            failure: None,
        }
    }

    /// The step at which the run stands.
    pub fn step(&self) -> (step: Step)
        ensures
            step == self@.step,
    {
        self.step
    }

    /// The identifiers captured so far.
    pub fn context(&self) -> (context: &WorkflowContext)
        ensures
            context@ == self@.context,
    {
        &self.context
    }

    /// The failure that ended the run, once it has failed.
    pub fn failure(&self) -> (failure: Option<&Failure>)
        ensures
            match failure {
                Some(failure) => self@.failure == Some(failure@),
                None => self@.failure is None,
            },
            failure is Some <==> self@.step is Failed,
    {
        proof {
            use_type_invariant(self);
        }
        self.failure.as_ref()
    }

    /// The request to send next: the call of the current step, with the
    /// identifiers that it has to name. A run that has ended asks for nothing.
    pub fn request(&self) -> (envelope: Option<Envelope>)
        ensures
            match envelope {
                Some(envelope) => request_spec(self@) == Some(envelope@),
                None => request_spec(self@) is None,
            },
            envelope is Some <==> !self@.step.is_terminal(),
    {
        proof {
            use_type_invariant(self);
        }
        let arguments = match self.step {
            Step::CleanupPrevious => delete_arguments(PREVIOUS_DIAGRAM_ID),
            Step::CleanupEmpty => delete_arguments(EMPTY_DIAGRAM_ID),
            Step::CreateDiagram => create_diagram_arguments(),
            Step::CreateEntityA => match &self.context.diagram_id {
                Some(diagram) => person_arguments(diagram.as_str()),
                None => {
                    return None;
                },
            },
            Step::CreateEntityB => match &self.context.diagram_id {
                Some(diagram) => car_arguments(diagram.as_str()),
                None => {
                    return None;
                },
            },
            Step::CreateEdge => match (
                &self.context.diagram_id,
                &self.context.entity_a_id,
                &self.context.entity_b_id,
            ) {
                (Some(diagram), Some(source), Some(target)) => edge_arguments(
                    diagram.as_str(),
                    source.as_str(),
                    target.as_str(),
                ),
                _ => {
                    return None;
                },
            },
            Step::Done => {
                return None;
            },
            Step::Failed => {
                return None;
            },
        };
        match (self.step.tool_name(), self.step.request_id()) {
            (Some(tool_name), Some(request_id)) => Some(
                build(TOOLS_CALL, tool_name, arguments, request_id),
            ),
            _ => None,
        }
    }

    /// Ends the run with the failure of its current step.
    fn fail(self, cause: Cause) -> (failed: Workflow)
        requires
            !self@.step.is_terminal(),
        ensures
            failed@ == self@.fail(cause@),
    {
        proof {
            use_type_invariant(&self);
        }
        Workflow {
            step: Step::Failed,
            context: self.context,
            failure: Some(Failure { step: self.step, cause }),
        }
    }

    /// Moves on to the next step, with the identifier `id` recorded where the
    /// current step yields one.
    fn proceed(self, id: Option<String>) -> (following: Workflow)
        requires
            !self@.step.is_terminal(),
            self@.step.captures() is Some <==> id is Some,
        ensures
            following@ == (match text_of(id) {
                Some(id) => WorkflowView {
                    step: self@.step.next(),
                    context: self@.context.record(self@.step, id),
                    ..self@
                },
                None => WorkflowView { step: self@.step.next(), ..self@ },
            }),
    {
        proof {
            use_type_invariant(&self);
        }
        let Workflow { step, context, failure } = self;
        let context = match step {
            Step::CreateDiagram => WorkflowContext { diagram_id: id, ..context },
            Step::CreateEntityA => WorkflowContext { entity_a_id: id, ..context },
            Step::CreateEntityB => WorkflowContext { entity_b_id: id, ..context },
            _ => context,
        };
        Workflow { step: step.next(), context, failure }
    }

    /// Takes an interpreted response and decides how the run goes on.
    ///
    /// `identifier` is what was found in the text of the outcome, and `body`
    /// is the response that the outcome was read from. A cleanup step moves on
    /// whatever came back. Any other step moves on after a success, a step
    /// that has to yield an identifier only with one; otherwise the run ends
    /// as failed at this step, with the cause and its payload.
    pub fn advance(self, outcome: Outcome, identifier: Option<String>, body: Json) -> (result: (
        Workflow,
        Notice,
    ))
        ensures
            result.0@ == advance_spec(self@, outcome@, text_of(identifier), body@),
            result.1@ == notice_spec(self@, outcome@, text_of(identifier)),
            result.0@.wf(),
    {
        proof {
            use_type_invariant(&self);
        }
        let step = self.step;
        if step.is_terminal() {
            (self, Notice::Ignored)
        } else if step.is_cleanup() {
            let notice = match outcome {
                Outcome::ServerError(payload) => Notice::Tolerated(payload),
                _ => Notice::Advanced,
            };
            (self.proceed(None), notice)
        } else {
            match outcome {
                Outcome::ServerError(payload) => (
                    self.fail(Cause::ServerError(payload)),
                    Notice::Halted,
                ),
                Outcome::Malformed => (self.fail(Cause::Malformed(body)), Notice::Halted),
                Outcome::Success(text) => match (step.captures(), identifier) {
                    (None, _) => (self.proceed(None), Notice::Advanced),
                    (Some(_), Some(id)) => (self.proceed(Some(id)), Notice::Advanced),
                    (Some(_), None) => (
                        self.fail(Cause::MissingIdentifier(text)),
                        Notice::Halted,
                    ),
                },
            }
        }
    }

    /// Takes the news that the call of the current step could not be made, or
    /// that its response could not be read: the run ends as failed.
    pub fn abort(self, message: String) -> (result: (Workflow, Notice))
        ensures
            result.0@ == abort_spec(self@, message@),
            result.1@ == (if self@.step.is_terminal() {
                NoticeView::Ignored
            } else {
                NoticeView::Halted
            }),
            result.0@.wf(),
    {
        proof {
            use_type_invariant(&self);
        }
        if self.step.is_terminal() {
            (self, Notice::Ignored)
        } else {
            (self.fail(Cause::TransportFailure(message)), Notice::Halted)
        }
    }

    /// Takes what came back from the call of the current step and decides how
    /// the run goes on: interprets a response, looks for the identifier that
    /// the step has to yield, and advances. An identifier that is found is a
    /// stretch of the text of the result.
    pub fn handle(self, event: Event) -> (result: (Workflow, Notice))
        ensures
            result.0@ == handle_spec(self@, event@),
            result.1@ == handle_notice_spec(self@, event@),
            result.0@.wf(),
            event@ matches EventView::Response(body) ==> found_in_text(self@.step, body),
    {
        match event {
            Event::TransportFailure(message) => self.abort(message),
            Event::Response(body) => {
                let outcome = interpret(&body);
                let identifier = match (self.step.captures(), &outcome) {
                    (Some(kind), Outcome::Success(text)) => extract(text.as_str(), kind),
                    _ => None,
                };
                self.advance(outcome, identifier, body)
            },
        }
    }

    /// Takes a list of events, one after the other, as [`Workflow::handle`]
    /// takes each. Events that follow the end of the run change nothing.
    pub fn run(self, events: Vec<Event>) -> (last: Workflow)
        ensures
            last@ == run_spec(self@, events_view(events@)),
            last@.wf(),
    {
        proof {
            use_type_invariant(&self);
        }
        let ghost all = events@;
        let ghost start = self@;
        let mut workflow = self;
        for event in taken: events
            invariant
                taken.seq() == all,
                workflow@ == run_spec(start, events_view(all.take(taken.index() as int))),
                workflow@.wf(),
        {
            proof {
                let done = taken.index() as int;
                assert(events_view(all.take(done + 1)).drop_last() =~= events_view(all.take(done)));
                assert(events_view(all.take(done + 1)).last() == event@);
            }
            let (next, _) = workflow.handle(event);
            workflow = next;
        }
        proof {
            assert(all.take(all.len() as int) =~= all);
        }
        workflow
    }
}

} // verus!
