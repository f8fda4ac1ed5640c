//! The workflow, driven by scripted responses.

use tasklist_mcp_client::envelope::Envelope;
use tasklist_mcp_client::json::{Decimal, Json};
use tasklist_mcp_client::response::Outcome;
use tasklist_mcp_client::sample::{EMPTY_DIAGRAM_ID, PREVIOUS_DIAGRAM_ID};
use tasklist_mcp_client::step::Step;
use tasklist_mcp_client::workflow::{Cause, Event, Failure, Notice, Workflow, WorkflowContext};

fn member(key: &str, value: Json) -> (String, Json) {
    (key.to_string(), value)
}

fn text(value: &str) -> Json {
    Json::Text(value.to_string())
}

fn success(message: &str) -> Json {
    Json::Object(vec![member(
        "result",
        Json::Object(vec![member(
            "content",
            Json::Array(vec![Json::Object(vec![member("text", text(message))])]),
        )]),
    )])
}

fn server_error(message: &str) -> Json {
    Json::Object(vec![member("error", Json::Object(vec![member("message", text(message))]))])
}

fn error_payload(message: &str) -> Json {
    Json::Object(vec![member("message", text(message))])
}

/// Plays the part of the transport: sends nothing, answers from a script,
/// and keeps what the workflow asked for.
fn run(script: Vec<Event>) -> (Workflow, Vec<Envelope>, Vec<Notice>) {
    let mut workflow = Workflow::new();
    let mut sent = Vec::new();
    let mut notices = Vec::new();
    let mut script = script.into_iter();
    while let Some(request) = workflow.request() {
        sent.push(request);
        let event = match script.next() {
            Some(event) => event,
            None => break,
        };
        let (next, notice) = workflow.handle(event);
        workflow = next;
        notices.push(notice);
    }
    (workflow, sent, notices)
}

fn calls_of(sent: &[Envelope], tool: &str) -> usize {
    sent.iter().filter(|envelope| envelope.tool_name() == tool).count()
}

fn happy_script() -> Vec<Event> {
    vec![
        Event::Response(success("Deleted")),
        Event::Response(success("Deleted")),
        Event::Response(success("Created diagram with ID: d1")),
        Event::Response(success("Added class Person. ID: a1")),
        Event::Response(success("Added class Car. ID: b1")),
        Event::Response(success("Edge created")),
    ]
}

#[test]
fn new_workflow_starts_with_the_first_cleanup() {
    let workflow = Workflow::new();
    assert_eq!(workflow.step(), Step::CleanupPrevious);
    assert_eq!(
        workflow.context(),
        &WorkflowContext { diagram_id: None, entity_a_id: None, entity_b_id: None }
    );
    assert_eq!(workflow.failure(), None);
    let request = workflow.request().unwrap();
    assert_eq!(request.method(), "tools/call");
    assert_eq!(request.tool_name(), "delete_diagram");
    assert_eq!(request.arguments(), &vec![member("diagramId", text(PREVIOUS_DIAGRAM_ID))]);
    assert_eq!(request.request_id(), Decimal { mantissa: 0, exponent: 0 });
}

#[test]
fn steps_are_lined_up() {
    assert_eq!(Step::CleanupPrevious.next(), Step::CleanupEmpty);
    assert_eq!(Step::CleanupEmpty.next(), Step::CreateDiagram);
    assert_eq!(Step::CreateDiagram.next(), Step::CreateEntityA);
    assert_eq!(Step::CreateEntityA.next(), Step::CreateEntityB);
    assert_eq!(Step::CreateEntityB.next(), Step::CreateEdge);
    assert_eq!(Step::CreateEdge.next(), Step::Done);
    assert_eq!(Step::Done.next(), Step::Done);
    assert_eq!(Step::Failed.next(), Step::Failed);
    assert!(Step::CleanupPrevious.is_cleanup() && Step::CleanupEmpty.is_cleanup());
    assert!(!Step::CreateDiagram.is_cleanup() && !Step::CreateEdge.is_cleanup());
    assert!(Step::Done.is_terminal() && Step::Failed.is_terminal());
    assert!(!Step::CleanupPrevious.is_terminal() && !Step::CreateEdge.is_terminal());
    assert_eq!(Step::CreateEntityB.name(), "CreateEntityB");
    assert_eq!(Step::CreateEdge.tool_name(), Some("create_edge"));
    assert_eq!(Step::Done.tool_name(), None);
    assert_eq!(Step::CleanupEmpty.request_id(), Some(Decimal { mantissa: 5, exponent: -1 }));
    assert_eq!(Step::Failed.request_id(), None);
}

#[test]
fn all_six_steps_succeed() {
    let (workflow, sent, notices) = run(happy_script());
    assert_eq!(workflow.step(), Step::Done);
    assert_eq!(workflow.failure(), None);
    assert_eq!(workflow.request(), None);
    assert_eq!(
        workflow.context(),
        &WorkflowContext {
            diagram_id: Some("d1".to_string()),
            entity_a_id: Some("a1".to_string()),
            entity_b_id: Some("b1".to_string()),
        }
    );
    let tools: Vec<&str> = sent.iter().map(|envelope| envelope.tool_name()).collect();
    assert_eq!(
        tools,
        vec![
            "delete_diagram",
            "delete_diagram",
            "create_diagram",
            "add_uml_class",
            "add_uml_class",
            "create_edge"
        ]
    );
    assert_eq!(notices.len(), 6);
    assert!(notices.iter().all(|notice| *notice == Notice::Advanced));
}

#[test]
fn edge_call_names_the_captured_identifiers() {
    let script = vec![
        Event::Response(success("Deleted")),
        Event::Response(success("Deleted")),
        Event::Response(success("Created diagram with ID: d1")),
        Event::Response(success("Added class Person. ID: a1")),
        Event::Response(success("Added class Car. ID: b1")),
    ];
    let (workflow, sent, _) = run(script);
    assert_eq!(workflow.step(), Step::CreateEdge);
    let edge = sent.last().unwrap();
    assert_eq!(edge.tool_name(), "create_edge");
    assert_eq!(edge.request_id(), Decimal { mantissa: 4, exponent: 0 });
    let arguments = Json::Object(edge.arguments().clone());
    assert_eq!(arguments.get("diagramId"), Some(&text("d1")));
    assert_eq!(arguments.get("sourceId"), Some(&text("a1")));
    assert_eq!(arguments.get("targetId"), Some(&text("b1")));
    assert_eq!(arguments.get("edgeType"), Some(&text("association")));
    assert_eq!(arguments.get("label"), Some(&text("owns")));
    assert_eq!(edge.arguments().len(), 5);
}

#[test]
fn requests_carry_distinct_ids_and_the_captured_diagram() {
    let (_, sent, _) = run(happy_script());
    let ids: Vec<Decimal> = sent.iter().map(|envelope| envelope.request_id()).collect();
    assert_eq!(
        ids,
        vec![
            Decimal { mantissa: 0, exponent: 0 },
            Decimal { mantissa: 5, exponent: -1 },
            Decimal { mantissa: 1, exponent: 0 },
            Decimal { mantissa: 2, exponent: 0 },
            Decimal { mantissa: 3, exponent: 0 },
            Decimal { mantissa: 4, exponent: 0 },
        ]
    );
    assert_eq!(sent[1].arguments(), &vec![member("diagramId", text(EMPTY_DIAGRAM_ID))]);
    let person = Json::Object(sent[3].arguments().clone());
    assert_eq!(person.get("diagramId"), Some(&text("d1")));
    assert_eq!(person.get("name"), Some(&text("Person")));
    let car = Json::Object(sent[4].arguments().clone());
    assert_eq!(car.get("diagramId"), Some(&text("d1")));
    assert_eq!(car.get("name"), Some(&text("Car")));
}

#[test]
fn cleanup_error_does_not_block() {
    let script = vec![
        Event::Response(server_error("no such diagram")),
        Event::Response(server_error("no such diagram either")),
    ];
    let (workflow, sent, notices) = run(script);
    assert_eq!(workflow.step(), Step::CreateDiagram);
    assert_eq!(workflow.failure(), None);
    assert_eq!(
        notices,
        vec![
            Notice::Tolerated(error_payload("no such diagram")),
            Notice::Tolerated(error_payload("no such diagram either")),
        ]
    );
    assert_eq!(sent.len(), 3);
    assert_eq!(sent[2].tool_name(), "create_diagram");
}

#[test]
fn cleanup_takes_any_response() {
    let script = vec![Event::Response(Json::Null), Event::Response(Json::Array(vec![]))];
    let (workflow, _, notices) = run(script);
    assert_eq!(workflow.step(), Step::CreateDiagram);
    assert_eq!(notices, vec![Notice::Advanced, Notice::Advanced]);
}

#[test]
fn server_error_at_first_class_ends_the_run() {
    let mut script = vec![
        Event::Response(success("Deleted")),
        Event::Response(success("Deleted")),
        Event::Response(success("Created diagram with ID: d1")),
        Event::Response(server_error("class refused")),
    ];
    script.push(Event::Response(success("Added class Car. ID: b1")));
    script.push(Event::Response(success("Edge created")));
    let (workflow, sent, notices) = run(script);
    assert_eq!(workflow.step(), Step::Failed);
    assert_eq!(
        workflow.failure(),
        Some(&Failure {
            step: Step::CreateEntityA,
            cause: Cause::ServerError(error_payload("class refused")),
        })
    );
    assert_eq!(notices.last(), Some(&Notice::Halted));
    assert_eq!(sent.len(), 4);
    assert_eq!(calls_of(&sent, "create_edge"), 0);
    assert_eq!(calls_of(&sent, "add_uml_class"), 1);
    assert_eq!(workflow.request(), None);
    assert_eq!(workflow.context().diagram_id, Some("d1".to_string()));
    assert_eq!(workflow.context().entity_a_id, None);
}

#[test]
fn server_error_ends_every_creating_step() {
    for failing in 2..6 {
        let mut script = happy_script();
        script[failing] = Event::Response(server_error("refused"));
        let (workflow, sent, _) = run(script);
        assert_eq!(workflow.step(), Step::Failed);
        assert_eq!(sent.len(), failing + 1);
        let failure = workflow.failure().unwrap();
        assert_eq!(failure.cause, Cause::ServerError(error_payload("refused")));
        assert_eq!(failure.step.tool_name(), Some(sent[failing].tool_name()));
    }
}

#[test]
fn malformed_response_ends_the_run() {
    let mut script = happy_script();
    let body = Json::Object(vec![member("result", Json::Object(vec![]))]);
    script[2] = Event::Response(body.clone());
    let (workflow, sent, _) = run(script);
    assert_eq!(
        workflow.failure(),
        Some(&Failure { step: Step::CreateDiagram, cause: Cause::Malformed(body) })
    );
    assert_eq!(sent.len(), 3);
}

#[test]
fn missing_identifier_ends_the_run() {
    let mut script = happy_script();
    script[4] = Event::Response(success("Added class Car, but I will not say where"));
    let (workflow, sent, _) = run(script);
    assert_eq!(
        workflow.failure(),
        Some(&Failure {
            step: Step::CreateEntityB,
            cause: Cause::MissingIdentifier(
                "Added class Car, but I will not say where".to_string()
            ),
        })
    );
    assert_eq!(calls_of(&sent, "create_edge"), 0);
    assert_eq!(workflow.context().entity_a_id, Some("a1".to_string()));
    assert_eq!(workflow.context().entity_b_id, None);
}

#[test]
fn diagram_text_must_use_the_diagram_convention() {
    let mut script = happy_script();
    script[2] = Event::Response(success("Created. ID: d1"));
    let (workflow, _, _) = run(script);
    assert_eq!(
        workflow.failure(),
        Some(&Failure {
            step: Step::CreateDiagram,
            cause: Cause::MissingIdentifier("Created. ID: d1".to_string()),
        })
    );
}

#[test]
fn transport_failure_ends_even_a_cleanup_step() {
    let script = vec![Event::TransportFailure("connection refused".to_string())];
    let (workflow, sent, notices) = run(script);
    assert_eq!(workflow.step(), Step::Failed);
    assert_eq!(
        workflow.failure(),
        Some(&Failure {
            step: Step::CleanupPrevious,
            cause: Cause::TransportFailure("connection refused".to_string()),
        })
    );
    assert_eq!(notices, vec![Notice::Halted]);
    assert_eq!(sent.len(), 1);
}

#[test]
fn ended_run_ignores_what_follows() {
    let (done, _, _) = run(happy_script());
    let (still_done, notice) = done.handle(Event::Response(server_error("late")));
    assert_eq!(still_done.step(), Step::Done);
    assert_eq!(notice, Notice::Ignored);
    let (still_done, notice) = still_done.abort("late".to_string());
    assert_eq!(still_done.step(), Step::Done);
    assert_eq!(notice, Notice::Ignored);

    let (failed, notice) = Workflow::new().abort("down".to_string());
    assert_eq!(notice, Notice::Halted);
    let (failed, notice) = failed.handle(Event::Response(success("Created diagram with ID: d1")));
    assert_eq!(notice, Notice::Ignored);
    assert_eq!(failed.step(), Step::Failed);
    assert_eq!(failed.failure().unwrap().step, Step::CleanupPrevious);
    assert_eq!(failed.context().diagram_id, None);
}

#[test]
fn advance_takes_the_identifier_as_given() {
    let workflow = Workflow::new();
    let (workflow, _) = workflow.advance(Outcome::Malformed, None, Json::Null);
    let (workflow, _) =
        workflow.advance(Outcome::ServerError(Json::Null), Some("unused".to_string()), Json::Null);
    assert_eq!(workflow.step(), Step::CreateDiagram);
    assert_eq!(workflow.context().diagram_id, None);
    let (workflow, notice) = workflow.advance(
        Outcome::Success("whatever the text".to_string()),
        Some("D1".to_string()),
        Json::Null,
    );
    assert_eq!(notice, Notice::Advanced);
    assert_eq!(workflow.step(), Step::CreateEntityA);
    assert_eq!(workflow.context().diagram_id, Some("D1".to_string()));
    let (workflow, _) =
        workflow.advance(Outcome::Success("t".to_string()), Some("A1".to_string()), Json::Null);
    let (workflow, _) =
        workflow.advance(Outcome::Success("t".to_string()), Some("B1".to_string()), Json::Null);
    assert_eq!(workflow.step(), Step::CreateEdge);
    let request = workflow.request().unwrap();
    assert_eq!(
        request.arguments(),
        &vec![
            member("diagramId", text("D1")),
            member("edgeType", text("association")),
            member("sourceId", text("A1")),
            member("targetId", text("B1")),
            member("label", text("owns")),
        ]
    );
    let (workflow, notice) = workflow.advance(Outcome::Success("t".to_string()), None, Json::Null);
    assert_eq!(notice, Notice::Advanced);
    assert_eq!(workflow.step(), Step::Done);
}

#[test]
fn advance_without_identifier_fails_a_capturing_step() {
    let (workflow, _) = Workflow::new().advance(Outcome::Malformed, None, Json::Null);
    let (workflow, _) = workflow.advance(Outcome::Malformed, None, Json::Null);
    let (workflow, notice) =
        workflow.advance(Outcome::Success("no id".to_string()), None, Json::Null);
    assert_eq!(notice, Notice::Halted);
    assert_eq!(
        workflow.failure(),
        Some(&Failure {
            step: Step::CreateDiagram,
            cause: Cause::MissingIdentifier("no id".to_string()),
        })
    );
}

#[test]
fn headline_names_step_and_cause() {
    let failure = Failure {
        step: Step::CreateEntityA,
        cause: Cause::ServerError(error_payload("class refused")),
    };
    assert_eq!(failure.headline(), "CreateEntityA: the server returned an error");
    let failure = Failure { step: Step::CreateDiagram, cause: Cause::Malformed(Json::Null) };
    assert_eq!(failure.headline(), "CreateDiagram: the response carries no result text");
    let failure = Failure {
        step: Step::CreateEntityB,
        cause: Cause::MissingIdentifier("Added class Car".to_string()),
    };
    assert_eq!(failure.headline(), "CreateEntityB: no identifier found in: Added class Car");
    let failure = Failure {
        step: Step::CleanupEmpty,
        cause: Cause::TransportFailure("connection refused".to_string()),
    };
    assert_eq!(failure.headline(), "CleanupEmpty: transport failure: connection refused");
}

#[test]
fn run_takes_events_one_after_the_other() {
    let workflow = Workflow::new().run(happy_script());
    assert_eq!(workflow.step(), Step::Done);
    assert_eq!(
        workflow.context(),
        &WorkflowContext {
            diagram_id: Some("d1".to_string()),
            entity_a_id: Some("a1".to_string()),
            entity_b_id: Some("b1".to_string()),
        }
    );

    let untouched = Workflow::new().run(vec![]);
    assert_eq!(untouched, Workflow::new());

    let mut script = happy_script();
    script.truncate(3);
    let midway = Workflow::new().run(script);
    assert_eq!(midway.step(), Step::CreateEntityA);
    assert_eq!(midway.context().diagram_id, Some("d1".to_string()));
    assert_eq!(midway.context().entity_a_id, None);
}

#[test]
fn run_ignores_what_follows_a_failure() {
    let mut script = happy_script();
    script[3] = Event::Response(server_error("class refused"));
    let workflow = Workflow::new().run(script);
    assert_eq!(workflow.step(), Step::Failed);
    assert_eq!(
        workflow.failure(),
        Some(&Failure {
            step: Step::CreateEntityA,
            cause: Cause::ServerError(error_payload("class refused")),
        })
    );
    assert_eq!(workflow.context().entity_b_id, None);
    assert_eq!(workflow.request(), None);

    let mut script = happy_script();
    script.push(Event::TransportFailure("too late".to_string()));
    assert_eq!(Workflow::new().run(script).step(), Step::Done);
}
