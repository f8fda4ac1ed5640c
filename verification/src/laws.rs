//! What holds of the client as a whole, stated over the models of its values
//! and proved.

use crate::envelope::{wire_form, EnvelopeView, PROTOCOL_VERSION, TOOLS_CALL};
use crate::identifier::{identifier_in, PatternKind};
use crate::json::{member_from, Decimal, JsonView};
use crate::response::{interpret_spec, success_text, OutcomeView};
use crate::sample::{edge_arguments_spec, text_member_spec};
use crate::step::Step;
use crate::workflow::{
    abort_spec, advance_spec, handle_spec, request_spec, run_spec, CauseView, ContextView,
    EventView, FailureView, WorkflowView,
};
use vstd::prelude::*;

verus! {

/// A response of the shape that the service gives to a call that went well:
/// `{"result": {"content": [{"text": text}]}}`.
pub open spec fn success_body(text: Seq<char>) -> JsonView {
    JsonView::Object(
        seq![
            (
                "result"@,
                JsonView::Object(
                    seq![
                        (
                            "content"@,
                            JsonView::Array(
                                seq![JsonView::Object(seq![("text"@, JsonView::Text(text))])],
                            ),
                        ),
                    ],
                ),
            ),
        ],
    )
}

/// The events of a run in which every call is answered: one response for
/// each body, in order.
pub open spec fn responses(bodies: Seq<JsonView>) -> Seq<EventView> {
    Seq::new(bodies.len(), |i: int| EventView::Response(bodies[i]))
}

/// A key names the first member that carries it: the value found from
/// position `from` on stands under `key` at some position, no member between
/// `from` and that position has this key, and nothing is found exactly when no
/// member from `from` on has it.
pub proof fn law_member_is_the_first_with_its_key(
    members: Seq<(Seq<char>, JsonView)>,
    key: Seq<char>,
    from: int,
)
    requires
        0 <= from,
    ensures
        match member_from(members, key, from) {
            Some(value) => exists|at: int|
                {
                    &&& from <= at < members.len()
                    &&& #[trigger] members[at] == (key, value)
                    &&& forall|before: int| from <= before < at ==> members[before].0 != key
                },
            None => forall|at: int| from <= at < members.len() ==> members[at].0 != key,
        },
    decreases members.len() - from,
{
    if from < members.len() {
        if members[from].0 == key {
            assert(members[from] == (key, members[from].1));
        } else {
            law_member_is_the_first_with_its_key(members, key, from + 1);
            match member_from(members, key, from + 1) {
                Some(value) => {
                    let at = choose|at: int|
                        {
                            &&& from + 1 <= at < members.len()
                            &&& #[trigger] members[at] == (key, value)
                            &&& forall|before: int|
                                from + 1 <= before < at ==> members[before].0 != key
                        };
                    assert(from <= at < members.len() && members[at] == (key, value));
                    assert forall|before: int| from <= before < at implies members[before].0
                        != key by {
                        if before > from {
                            assert(from + 1 <= before < at);
                        }
                    }
                },
                None => {},
            }
        }
    }
}

/// The wire form of an envelope holds the protocol version under `jsonrpc`,
/// the method under `method`, the id under `id`, and under `params` the
/// name of the tool and its arguments.
pub proof fn law_wire_form_holds_the_envelope(envelope: EnvelopeView)
    ensures
        wire_form(envelope).member("jsonrpc"@) == Some(JsonView::Text(envelope.protocol_version)),
        wire_form(envelope).member("method"@) == Some(JsonView::Text(envelope.method)),
        wire_form(envelope).member("id"@) == Some(JsonView::Number(envelope.request_id)),
        wire_form(envelope).member("params"@) matches Some(params) && {
            &&& params.member("name"@) == Some(JsonView::Text(envelope.tool_name))
            &&& params.member("arguments"@) == Some(JsonView::Object(envelope.arguments))
        },
{
    reveal_with_fuel(member_from, 5);
    reveal_strlit("jsonrpc");
    reveal_strlit("method");
    reveal_strlit("params");
    reveal_strlit("id");
    reveal_strlit("name");
    reveal_strlit("arguments");
    let members = wire_form(envelope)->Object_0;
    assert(members[0].0 == "jsonrpc"@ && members[1].0 == "method"@);
    assert(members[2].0 == "params"@ && members[3].0 == "id"@);
    assert("jsonrpc"@.len() == 7 && "method"@.len() == 6 && "id"@.len() == 2);
    assert("method"@[0] != "params"@[0]);
    let params = members[2].1->Object_0;
    assert(params[0].0 == "name"@ && params[1].0 == "arguments"@);
    assert("name"@.len() != "arguments"@.len());
}

/// A response with an `error` member is a server error that carries this
/// member, whatever else the response holds.
pub proof fn law_error_member_means_server_error(body: JsonView)
    requires
        body.member("error"@) is Some,
    ensures
        interpret_spec(body) == OutcomeView::ServerError(body.member("error"@)->Some_0),
{
}

/// A response without an `error` member is a success exactly when it holds a
/// string at `result.content[0].text`, and malformed otherwise.
pub proof fn law_no_error_member_means_success_or_malformed(body: JsonView)
    requires
        body.member("error"@) is None,
    ensures
        success_text(body) matches Some(text) ==> interpret_spec(body) == OutcomeView::Success(
            text,
        ),
        success_text(body) is None ==> interpret_spec(body) == OutcomeView::Malformed,
{
}

/// A response of the success shape is interpreted as a success with the very
/// text that it carries.
pub proof fn law_success_body_yields_its_text(text: Seq<char>)
    ensures
        interpret_spec(success_body(text)) == OutcomeView::Success(text),
{
    reveal_with_fuel(member_from, 3);
    reveal_strlit("error");
    reveal_strlit("result");
    let body = success_body(text);
    assert("result"@.len() != "error"@.len());
    assert(body->Object_0[0].0 == "result"@);
    assert(body.member("error"@) is None);
    assert(success_text(body) == Some(text));
}

/// The start of a run is well-formed, and so is whatever an event makes of a
/// well-formed workflow.
pub proof fn law_well_formedness_is_kept(workflow: WorkflowView, event: EventView)
    requires
        workflow.wf(),
    ensures
        WorkflowView::initial().wf(),
        handle_spec(workflow, event).wf(),
{
}

/// An interpreted response keeps a well-formed workflow well-formed, whatever
/// identifier comes with it.
pub proof fn law_advance_keeps_well_formedness(
    workflow: WorkflowView,
    outcome: OutcomeView,
    identifier: Option<Seq<char>>,
    body: JsonView,
)
    requires
        workflow.wf(),
    ensures
        advance_spec(workflow, outcome, identifier, body).wf(),
{
}

/// Every call has a request id of its own.
pub proof fn law_request_ids_are_distinct(one: Step, other: Step)
    requires
        !one.is_terminal(),
        !other.is_terminal(),
        one != other,
    ensures
        one.request_id() is Some,
        other.request_id() is Some,
        one.request_id() != other.request_id(),
{
}

/// An identifier, once captured, stays as it is: no event loses or replaces
/// it.
pub proof fn law_captured_identifiers_stay(workflow: WorkflowView, event: EventView)
    requires
        workflow.wf(),
    ensures
        ({
            let after = handle_spec(workflow, event);
            &&& workflow.context.diagram_id is Some ==> after.context.diagram_id
                == workflow.context.diagram_id
            &&& workflow.context.entity_a_id is Some ==> after.context.entity_a_id
                == workflow.context.entity_a_id
            &&& workflow.context.entity_b_id is Some ==> after.context.entity_b_id
                == workflow.context.entity_b_id
        }),
{
}

/// An event leaves a workflow where it stands, moves it to the next step or
/// ends it as failed; it never skips a step and never goes back.
pub proof fn law_one_step_at_a_time(workflow: WorkflowView, event: EventView)
    ensures
        ({
            let after = handle_spec(workflow, event);
            ||| after == workflow
            ||| after.step == workflow.step.next() && after.failure == workflow.failure
            ||| after == workflow.fail(after.failure->Some_0.cause)
        }),
{
}

/// A well-formed workflow asks for a call exactly as long as it has not
/// ended: every identifier that the call has to name has been captured.
pub proof fn law_request_until_the_end(workflow: WorkflowView)
    requires
        workflow.wf(),
    ensures
        request_spec(workflow) is Some <==> !workflow.step.is_terminal(),
{
}

/// No call is asked for while an identifier that it has to name is missing:
/// none that adds a class without the diagram, and none that joins the
/// classes without the diagram and both classes. This holds of every
/// workflow value, well-formed or not.
pub proof fn law_no_request_without_identifiers(workflow: WorkflowView)
    ensures
        (workflow.step is CreateEntityA || workflow.step is CreateEntityB) && request_spec(
            workflow,
        ) is Some ==> workflow.context.diagram_id is Some,
        workflow.step is CreateEdge && request_spec(workflow) is Some ==> {
            &&& workflow.context.diagram_id is Some
            &&& workflow.context.entity_a_id is Some
            &&& workflow.context.entity_b_id is Some
        },
{
}

/// A response with an `error` member, at a step that is no cleanup step, ends
/// the run as failed at that step: the workflow does not move past it, holds
/// the payload of the error, and asks for no further call.
pub proof fn law_server_error_halts(workflow: WorkflowView, body: JsonView)
    requires
        !workflow.step.is_terminal(),
        !workflow.step.is_cleanup(),
        body.member("error"@) is Some,
    ensures
        ({
            let after = handle_spec(workflow, EventView::Response(body));
            &&& after.step is Failed
            &&& after.context == workflow.context
            &&& after.failure == Some(
                FailureView {
                    step: workflow.step,
                    cause: CauseView::ServerError(body.member("error"@)->Some_0),
                },
            )
            &&& request_spec(after) is None
        }),
{
}

/// A cleanup step moves on to the next step whatever the response: a server
/// error does not end the run, and nothing is captured or lost.
pub proof fn law_cleanup_never_blocks(workflow: WorkflowView, body: JsonView)
    requires
        workflow.step.is_cleanup(),
    ensures
        handle_spec(workflow, EventView::Response(body)) == (WorkflowView {
            step: workflow.step.next(),
            ..workflow
        }),
        workflow.step is CleanupEmpty ==> handle_spec(
            workflow,
            EventView::Response(body),
        ).step is CreateDiagram,
{
}

/// Whatever the two cleanup calls bring back as responses, the run then
/// stands at the creation of the diagram.
pub proof fn law_cleanup_leads_to_create_diagram(first: JsonView, second: JsonView)
    ensures
        handle_spec(
            handle_spec(WorkflowView::initial(), EventView::Response(first)),
            EventView::Response(second),
        ) == (WorkflowView { step: Step::CreateDiagram, ..WorkflowView::initial() }),
{
}

/// A call that could not be made ends the run at any step, cleanup or not.
pub proof fn law_transport_failure_halts(workflow: WorkflowView, message: Seq<char>)
    requires
        !workflow.step.is_terminal(),
    ensures
        handle_spec(workflow, EventView::TransportFailure(message)) == workflow.fail(
            CauseView::TransportFailure(message),
        ),
        abort_spec(workflow, message).step is Failed,
{
}

/// A response that is neither an error nor a well-shaped result ends the run
/// at any step that is no cleanup step, with the whole response as payload.
pub proof fn law_malformed_halts(workflow: WorkflowView, body: JsonView)
    requires
        !workflow.step.is_terminal(),
        !workflow.step.is_cleanup(),
        interpret_spec(body) is Malformed,
    ensures
        handle_spec(workflow, EventView::Response(body)) == workflow.fail(
            CauseView::Malformed(body),
        ),
{
}

/// A success without the identifier that the step has to yield ends the run
/// at that step, with the text that was searched as payload.
pub proof fn law_missing_identifier_halts(
    workflow: WorkflowView,
    text: Seq<char>,
    body: JsonView,
)
    requires
        workflow.step.captures() is Some,
    ensures
        advance_spec(workflow, OutcomeView::Success(text), None, body) == workflow.fail(
            CauseView::MissingIdentifier(text),
        ),
{
}

/// A run that has ended stays as it is, whatever events follow, and asks for
/// no call: after a failure the classes are never joined.
pub proof fn law_ended_run_stays_ended(workflow: WorkflowView, events: Seq<EventView>)
    requires
        workflow.step.is_terminal(),
    ensures
        run_spec(workflow, events) == workflow,
        request_spec(run_spec(workflow, events)) is None,
    decreases events.len(),
{
    if events.len() > 0 {
        law_ended_run_stays_ended(workflow, events.drop_last());
    }
}

/// A server error at the first class ends the run there, and whatever events
/// follow, the run stays failed and the call that joins the classes is never
/// asked for.
pub proof fn law_failed_class_never_joins(
    workflow: WorkflowView,
    body: JsonView,
    later: Seq<EventView>,
)
    requires
        workflow.step is CreateEntityA,
        body.member("error"@) is Some,
    ensures
        ({
            let failed = handle_spec(workflow, EventView::Response(body));
            &&& failed.step is Failed
            &&& run_spec(failed, later) == failed
            &&& request_spec(run_spec(failed, later)) is None
        }),
{
    let failed = handle_spec(workflow, EventView::Response(body));
    law_ended_run_stays_ended(failed, later);
}

/// A run in which every call goes well, and whose three creating calls yield
/// the identifiers `diagram`, `source` and `target`, ends by asking for the
/// call that joins exactly these: `create_edge` with `diagramId`, `sourceId`
/// and `targetId` set to them.
pub proof fn law_edge_joins_what_was_captured(
    responses: Seq<(OutcomeView, JsonView)>,
    texts: Seq<Seq<char>>,
    diagram: Seq<char>,
    source: Seq<char>,
    target: Seq<char>,
)
    requires
        responses.len() == 5,
        texts.len() == 3,
        responses[2].0 == OutcomeView::Success(texts[0]),
        responses[3].0 == OutcomeView::Success(texts[1]),
        responses[4].0 == OutcomeView::Success(texts[2]),
    ensures
        ({
            let after_previous = advance_spec(
                WorkflowView::initial(),
                responses[0].0,
                None,
                responses[0].1,
            );
            let after_empty = advance_spec(after_previous, responses[1].0, None, responses[1].1);
            let after_diagram = advance_spec(
                after_empty,
                responses[2].0,
                Some(diagram),
                responses[2].1,
            );
            let after_first = advance_spec(
                after_diagram,
                responses[3].0,
                Some(source),
                responses[3].1,
            );
            let after_second = advance_spec(
                after_first,
                responses[4].0,
                Some(target),
                responses[4].1,
            );
            let arguments = edge_arguments_spec(diagram, source, target);
            &&& after_second.step is CreateEdge
            &&& request_spec(after_second) == Some(
                EnvelopeView {
                    protocol_version: PROTOCOL_VERSION@,
                    method: TOOLS_CALL@,
                    tool_name: "create_edge"@,
                    arguments,
                    request_id: Decimal { mantissa: 4, exponent: 0 },
                },
            )
            &&& JsonView::Object(arguments).member("diagramId"@) == Some(JsonView::Text(diagram))
            &&& JsonView::Object(arguments).member("sourceId"@) == Some(JsonView::Text(source))
            &&& JsonView::Object(arguments).member("targetId"@) == Some(JsonView::Text(target))
        }),
{
    reveal_with_fuel(member_from, 5);
    reveal_strlit("diagramId");
    reveal_strlit("edgeType");
    reveal_strlit("sourceId");
    reveal_strlit("targetId");
    let arguments = edge_arguments_spec(diagram, source, target);
    assert("diagramId"@.len() != "sourceId"@.len());
    assert("edgeType"@[0] != "sourceId"@[0]);
    assert("edgeType"@[0] != "targetId"@[0]);
    assert("sourceId"@[0] != "targetId"@[0]);
    assert(arguments[0] == text_member_spec("diagramId"@, diagram));
    assert(arguments[2] == text_member_spec("sourceId"@, source));
    assert(arguments[3] == text_member_spec("targetId"@, target));
}

/// A run from the start whose five responses before the last call all go
/// well, and whose three creating calls are answered with texts that yield
/// the identifiers `diagram`, `source` and `target`, holds exactly these
/// identifiers and asks for the call that joins them.
pub proof fn law_run_joins_what_the_responses_yield(
    bodies: Seq<JsonView>,
    texts: Seq<Seq<char>>,
    diagram: Seq<char>,
    source: Seq<char>,
    target: Seq<char>,
)
    requires
        bodies.len() == 5,
        texts.len() == 3,
        interpret_spec(bodies[2]) == OutcomeView::Success(texts[0]),
        interpret_spec(bodies[3]) == OutcomeView::Success(texts[1]),
        interpret_spec(bodies[4]) == OutcomeView::Success(texts[2]),
    ensures
        identifier_in(texts[0], PatternKind::Diagram) == Some(diagram) && identifier_in(
            texts[1],
            PatternKind::Entity,
        ) == Some(source) && identifier_in(texts[2], PatternKind::Entity) == Some(target) ==> ({
            let after = run_spec(WorkflowView::initial(), responses(bodies));
            &&& after.step is CreateEdge
            &&& after.failure is None
            &&& after.context == (ContextView {
                diagram_id: Some(diagram),
                entity_a_id: Some(source),
                entity_b_id: Some(target),
            })
            &&& request_spec(after) == Some(
                EnvelopeView {
                    protocol_version: PROTOCOL_VERSION@,
                    method: TOOLS_CALL@,
                    tool_name: "create_edge"@,
                    arguments: edge_arguments_spec(diagram, source, target),
                    request_id: Decimal { mantissa: 4, exponent: 0 },
                },
            )
        }),
{
    let events = responses(bodies);
    let one = events.take(1);
    let two = events.take(2);
    let three = events.take(3);
    let four = events.take(4);
    assert(run_spec(WorkflowView::initial(), one.drop_last()) == WorkflowView::initial());
    assert(one =~= two.drop_last());
    assert(two =~= three.drop_last());
    assert(three =~= four.drop_last());
    assert(four =~= events.drop_last());
    let first = run_spec(WorkflowView::initial(), one);
    let second = run_spec(WorkflowView::initial(), two);
    let third = run_spec(WorkflowView::initial(), three);
    let fourth = run_spec(WorkflowView::initial(), four);
    assert(first == handle_spec(WorkflowView::initial(), events[0]));
    assert(second == handle_spec(first, events[1]));
    assert(third == handle_spec(second, events[2]));
    assert(fourth == handle_spec(third, events[3]));
    assert(run_spec(WorkflowView::initial(), events) == handle_spec(fourth, events[4]));
}

} // verus!
