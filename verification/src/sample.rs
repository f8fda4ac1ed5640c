//! The arguments of the calls that draw the sample diagram: two classes,
//! `Person` and `Car`, joined by an association.

use crate::json::{items_view, members_view, Decimal, Json, JsonView};
use vstd::prelude::*;

verus! {

/// The diagram that an earlier run may have left behind.
pub const PREVIOUS_DIAGRAM_ID: &'static str = "9abb0ddb-4026-4a19-926e-0b63b1d395ea";

/// The empty sample diagram that the service may hold from the start.
pub const EMPTY_DIAGRAM_ID: &'static str = "2b7c78b0-96e5-4ecc-b1da-de9ca391ce17";

/// The decimal exponent of a number that is given in tenths.
pub const TENTHS: i32 = -1;

/// An object member that holds a string.
pub open spec fn text_member_spec(key: Seq<char>, value: Seq<char>) -> (Seq<char>, JsonView) {
    (key, JsonView::Text(value))
}

/// A private attribute of a class.
pub open spec fn attribute_spec(name: Seq<char>, kind: Seq<char>) -> JsonView {
    JsonView::Object(
        seq![
            text_member_spec("name"@, name),
            text_member_spec("type"@, kind),
            text_member_spec("visibility"@, "private"@),
        ],
    )
}

/// A public method without parameters.
pub open spec fn getter_spec(name: Seq<char>, result: Seq<char>) -> JsonView {
    JsonView::Object(
        seq![
            text_member_spec("name"@, name),
            text_member_spec("returnType"@, result),
            text_member_spec("visibility"@, "public"@),
        ],
    )
}

/// A public method that takes one parameter and returns nothing.
pub open spec fn setter_spec(name: Seq<char>, parameter: Seq<char>, kind: Seq<char>) -> JsonView {
    JsonView::Object(
        seq![
            text_member_spec("name"@, name),
            text_member_spec("returnType"@, "void"@),
            text_member_spec("visibility"@, "public"@),
            (
                "parameters"@,
                JsonView::Array(
                    seq![
                        JsonView::Object(
                            seq![
                                text_member_spec("name"@, parameter),
                                text_member_spec("type"@, kind),
                            ],
                        ),
                    ],
                ),
            ),
        ],
    )
}

/// A place on the canvas, in tenths of a unit.
pub open spec fn position_spec(x_tenths: i64, y_tenths: i64) -> JsonView {
    JsonView::Object(
        seq![
            ("x"@, JsonView::Number(Decimal { mantissa: x_tenths, exponent: TENTHS })),
            ("y"@, JsonView::Number(Decimal { mantissa: y_tenths, exponent: TENTHS })),
        ],
    )
}

/// The arguments of a call that deletes a diagram.
pub open spec fn delete_arguments_spec(diagram_id: Seq<char>) -> Seq<(Seq<char>, JsonView)> {
    seq![text_member_spec("diagramId"@, diagram_id)]
}

/// The arguments of the call that creates the diagram.
pub open spec fn create_diagram_arguments_spec() -> Seq<(Seq<char>, JsonView)> {
    seq![
        text_member_spec("diagramType"@, "uml"@),
        text_member_spec("name"@, "Sample UML Diagram"@),
    ]
}

/// The arguments of the call that adds the class `Person`.
pub open spec fn person_arguments_spec(diagram_id: Seq<char>) -> Seq<(Seq<char>, JsonView)> {
    seq![
        text_member_spec("diagramId"@, diagram_id),
        text_member_spec("name"@, "Person"@),
        (
            "attributes"@,
            JsonView::Array(
                seq![
                    attribute_spec("id"@, "int"@),
                    attribute_spec("name"@, "String"@),
                    attribute_spec("age"@, "int"@),
                    attribute_spec("email"@, "String"@),
                ],
            ),
        ),
        (
            "methods"@,
            JsonView::Array(
                seq![
                    getter_spec("getName"@, "String"@),
                    setter_spec("setAge"@, "age"@, "int"@),
                    getter_spec("getEmail"@, "String"@),
                ],
            ),
        ),
        ("position"@, position_spec(1000, 1000)),
    ]
}

/// The arguments of the call that adds the class `Car`.
pub open spec fn car_arguments_spec(diagram_id: Seq<char>) -> Seq<(Seq<char>, JsonView)> {
    seq![
        text_member_spec("diagramId"@, diagram_id),
        text_member_spec("name"@, "Car"@),
        (
            "attributes"@,
            JsonView::Array(
                seq![
                    attribute_spec("model"@, "String"@),
                    attribute_spec("year"@, "int"@),
                    attribute_spec("color"@, "String"@),
                ],
            ),
        ),
        (
            "methods"@,
            JsonView::Array(
                seq![getter_spec("getModel"@, "String"@), setter_spec("setYear"@, "year"@, "int"@)],
            ),
        ),
        ("position"@, position_spec(3500, 1000)),
    ]
}

/// The arguments of the call that joins two classes by the association `owns`.
pub open spec fn edge_arguments_spec(
    diagram_id: Seq<char>,
    source_id: Seq<char>,
    target_id: Seq<char>,
) -> Seq<(Seq<char>, JsonView)> {
    seq![
        text_member_spec("diagramId"@, diagram_id),
        text_member_spec("edgeType"@, "association"@),
        text_member_spec("sourceId"@, source_id),
        text_member_spec("targetId"@, target_id),
        text_member_spec("label"@, "owns"@),
    ]
}

/// An object member that holds a string.
pub fn text_member(key: &str, value: &str) -> (member: (String, Json))
    ensures
        (member.0@, member.1@) == text_member_spec(key@, value@),
{
    (key.to_owned(), Json::text(value))
}

/// A private attribute of a class.
pub fn attribute(name: &str, kind: &str) -> (json: Json)
    ensures
        json@ == attribute_spec(name@, kind@),
{
    let mut members: Vec<(String, Json)> = Vec::new();
    members.push(text_member("name", name));
    members.push(text_member("type", kind));
    members.push(text_member("visibility", "private"));
    assert(members_view(members@) =~= attribute_spec(name@, kind@)->Object_0);
    Json::object(members)
}

/// A public method without parameters.
pub fn getter(name: &str, result: &str) -> (json: Json)
    ensures
        json@ == getter_spec(name@, result@),
{
    let mut members: Vec<(String, Json)> = Vec::new();
    members.push(text_member("name", name));
    members.push(text_member("returnType", result));
    members.push(text_member("visibility", "public"));
    assert(members_view(members@) =~= getter_spec(name@, result@)->Object_0);
    Json::object(members)
}

/// A public method that takes one parameter and returns nothing.
pub fn setter(name: &str, parameter: &str, kind: &str) -> (json: Json)
    ensures
        json@ == setter_spec(name@, parameter@, kind@),
{
    let mut taken: Vec<(String, Json)> = Vec::new();
    taken.push(text_member("name", parameter));
    taken.push(text_member("type", kind));
    assert(members_view(taken@) =~= seq![
        text_member_spec("name"@, parameter@),
        text_member_spec("type"@, kind@),
    ]);
    let mut parameters: Vec<Json> = Vec::new();
    parameters.push(Json::object(taken));
    assert(items_view(parameters@) =~= seq![
        JsonView::Object(
            seq![text_member_spec("name"@, parameter@), text_member_spec("type"@, kind@)],
        ),
    ]);
    let mut members: Vec<(String, Json)> = Vec::new();
    members.push(text_member("name", name));
    members.push(text_member("returnType", "void"));
    members.push(text_member("visibility", "public"));
    members.push(("parameters".to_owned(), Json::array(parameters)));
    assert(members_view(members@) =~= setter_spec(name@, parameter@, kind@)->Object_0);
    Json::object(members)
}

/// A place on the canvas, in tenths of a unit.
pub fn position(x_tenths: i64, y_tenths: i64) -> (json: Json)
    ensures
        json@ == position_spec(x_tenths, y_tenths),
{
    let mut members: Vec<(String, Json)> = Vec::new();
    members.push(("x".to_owned(), Json::decimal(x_tenths, TENTHS)));
    members.push(("y".to_owned(), Json::decimal(y_tenths, TENTHS)));
    assert(members_view(members@) =~= position_spec(x_tenths, y_tenths)->Object_0);
    Json::object(members)
}

/// The arguments of a call that deletes a diagram.
pub fn delete_arguments(diagram_id: &str) -> (arguments: Vec<(String, Json)>)
    ensures
        members_view(arguments@) == delete_arguments_spec(diagram_id@),
{
    let mut arguments: Vec<(String, Json)> = Vec::new();
    arguments.push(text_member("diagramId", diagram_id));
    assert(members_view(arguments@) =~= delete_arguments_spec(diagram_id@));
    arguments
}

/// The arguments of the call that creates the diagram.
pub fn create_diagram_arguments() -> (arguments: Vec<(String, Json)>)
    ensures
        members_view(arguments@) == create_diagram_arguments_spec(),
{
    let mut arguments: Vec<(String, Json)> = Vec::new();
    arguments.push(text_member("diagramType", "uml"));
    arguments.push(text_member("name", "Sample UML Diagram"));
    assert(members_view(arguments@) =~= create_diagram_arguments_spec());
    arguments
}

/// The arguments of the call that adds the class `Person`.
pub fn person_arguments(diagram_id: &str) -> (arguments: Vec<(String, Json)>)
    ensures
        members_view(arguments@) == person_arguments_spec(diagram_id@),
{
    let mut attributes: Vec<Json> = Vec::new();
    attributes.push(attribute("id", "int"));
    attributes.push(attribute("name", "String"));
    attributes.push(attribute("age", "int"));
    attributes.push(attribute("email", "String"));
    assert(items_view(attributes@) =~= seq![
        attribute_spec("id"@, "int"@),
        attribute_spec("name"@, "String"@),
        attribute_spec("age"@, "int"@),
        attribute_spec("email"@, "String"@),
    ]);
    let mut methods: Vec<Json> = Vec::new();
    methods.push(getter("getName", "String"));
    methods.push(setter("setAge", "age", "int"));
    methods.push(getter("getEmail", "String"));
    assert(items_view(methods@) =~= seq![
        getter_spec("getName"@, "String"@),
        setter_spec("setAge"@, "age"@, "int"@),
        getter_spec("getEmail"@, "String"@),
    ]);
    let mut arguments: Vec<(String, Json)> = Vec::new();
    arguments.push(text_member("diagramId", diagram_id));
    arguments.push(text_member("name", "Person"));
    arguments.push(("attributes".to_owned(), Json::array(attributes)));
    arguments.push(("methods".to_owned(), Json::array(methods)));
    arguments.push(("position".to_owned(), position(1000, 1000)));
    assert(members_view(arguments@) =~= person_arguments_spec(diagram_id@));
    arguments
}

/// The arguments of the call that adds the class `Car`.
pub fn car_arguments(diagram_id: &str) -> (arguments: Vec<(String, Json)>)
    ensures
        members_view(arguments@) == car_arguments_spec(diagram_id@),
{
    let mut attributes: Vec<Json> = Vec::new();
    attributes.push(attribute("model", "String"));
    attributes.push(attribute("year", "int"));
    attributes.push(attribute("color", "String"));
    assert(items_view(attributes@) =~= seq![
        attribute_spec("model"@, "String"@),
        attribute_spec("year"@, "int"@),
        attribute_spec("color"@, "String"@),
    ]);
    let mut methods: Vec<Json> = Vec::new();
    methods.push(getter("getModel", "String"));
    methods.push(setter("setYear", "year", "int"));
    assert(items_view(methods@) =~= seq![
        getter_spec("getModel"@, "String"@),
        setter_spec("setYear"@, "year"@, "int"@),
    ]);
    let mut arguments: Vec<(String, Json)> = Vec::new();
    arguments.push(text_member("diagramId", diagram_id));
    arguments.push(text_member("name", "Car"));
    arguments.push(("attributes".to_owned(), Json::array(attributes)));
    arguments.push(("methods".to_owned(), Json::array(methods)));
    arguments.push(("position".to_owned(), position(3500, 1000)));
    assert(members_view(arguments@) =~= car_arguments_spec(diagram_id@));
    arguments
}

/// The arguments of the call that joins two classes by the association `owns`.
pub fn edge_arguments(diagram_id: &str, source_id: &str, target_id: &str) -> (arguments: Vec<
    (String, Json),
>)
    ensures
        members_view(arguments@) == edge_arguments_spec(diagram_id@, source_id@, target_id@),
{
    let mut arguments: Vec<(String, Json)> = Vec::new();
    arguments.push(text_member("diagramId", diagram_id));
    arguments.push(text_member("edgeType", "association"));
    arguments.push(text_member("sourceId", source_id));
    arguments.push(text_member("targetId", target_id));
    arguments.push(text_member("label", "owns"));
    assert(members_view(arguments@) =~= edge_arguments_spec(diagram_id@, source_id@, target_id@));
    arguments
}

} // verus!
