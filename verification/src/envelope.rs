//! Request envelopes of the JSON-RPC tool-call protocol.

use crate::json::{clone_members, members_view, Decimal, Json, JsonView};
use vstd::prelude::*;

verus! {

/// The protocol version that every envelope carries.
pub const PROTOCOL_VERSION: &'static str = "2.0";

/// The method of a tool call.
pub const TOOLS_CALL: &'static str = "tools/call";

/// A request: which tool to call, with which arguments, under which id.
///
/// An envelope is made by [`build`] and cannot be changed afterwards.
#[derive(Debug, PartialEq, Eq)]
pub struct Envelope {
    protocol_version: String,
    method: String,
    tool_name: String,
    arguments: Vec<(String, Json)>,
    request_id: Decimal,
}

/// The mathematical model of an [`Envelope`].
pub struct EnvelopeView {
    pub protocol_version: Seq<char>,
    pub method: Seq<char>,
    pub tool_name: Seq<char>,
    pub arguments: Seq<(Seq<char>, JsonView)>,
    pub request_id: Decimal,
}

impl View for Envelope {
    type V = EnvelopeView;

    closed spec fn view(&self) -> EnvelopeView {
        EnvelopeView {
            protocol_version: self.protocol_version@,
            method: self.method@,
            tool_name: self.tool_name@,
            arguments: members_view(self.arguments@),
            request_id: self.request_id,
        }
    }
}

/// The envelope as it goes over the wire:
/// `{"jsonrpc": .., "method": .., "params": {"name": .., "arguments": {..}}, "id": ..}`.
pub open spec fn wire_form(envelope: EnvelopeView) -> JsonView {
    JsonView::Object(
        seq![
            ("jsonrpc"@, JsonView::Text(envelope.protocol_version)),
            ("method"@, JsonView::Text(envelope.method)),
            (
                "params"@,
                JsonView::Object(
                    seq![
                        ("name"@, JsonView::Text(envelope.tool_name)),
                        ("arguments"@, JsonView::Object(envelope.arguments)),
                    ],
                ),
            ),
            ("id"@, JsonView::Number(envelope.request_id)),
        ],
    )
}

/// Makes the envelope of one call. Every call yields an envelope of its own,
/// and nothing can go wrong.
pub fn build(
    method: &str,
    tool_name: &str,
    arguments: Vec<(String, Json)>,
    request_id: Decimal,
) -> (envelope: Envelope)
    ensures
        envelope@ == (EnvelopeView {
            protocol_version: PROTOCOL_VERSION@,
            method: method@,
            tool_name: tool_name@,
            arguments: members_view(arguments@),
            request_id,
        }),
{
    Envelope {
        protocol_version: PROTOCOL_VERSION.to_owned(),
        method: method.to_owned(),
        tool_name: tool_name.to_owned(),
        arguments,
        request_id,
    }
}

impl Envelope {
    /// The protocol version.
    pub fn protocol_version(&self) -> (version: &str)
        ensures
            version@ == self@.protocol_version,
    {
        self.protocol_version.as_str()
    }

    /// The method.
    pub fn method(&self) -> (method: &str)
        ensures
            method@ == self@.method,
    {
        self.method.as_str()
    }

    /// The name of the tool that is called.
    pub fn tool_name(&self) -> (name: &str)
        ensures
            name@ == self@.tool_name,
    {
        self.tool_name.as_str()
    }

    /// The arguments of the call, in the order in which they were given.
    pub fn arguments(&self) -> (arguments: &Vec<(String, Json)>)
        ensures
            members_view(arguments@) == self@.arguments,
    {
        &self.arguments
    }

    /// The id of the request.
    pub fn request_id(&self) -> (id: Decimal)
        ensures
            id == self@.request_id,
    {
        self.request_id
    }

    /// The envelope as a JSON value, in its wire form.
    pub fn to_json(&self) -> (wire: Json)
        ensures
            wire@ == wire_form(self@),
    {
        let arguments = Json::object(clone_members(&self.arguments));
        let mut params: Vec<(String, Json)> = Vec::new();
        params.push(("name".to_owned(), Json::text(self.tool_name.as_str())));
        params.push(("arguments".to_owned(), arguments));
        assert(members_view(params@) =~= seq![
            ("name"@, JsonView::Text(self@.tool_name)),
            ("arguments"@, JsonView::Object(self@.arguments)),
        ]);
        let mut members: Vec<(String, Json)> = Vec::new();
        members.push(("jsonrpc".to_owned(), Json::text(self.protocol_version.as_str())));
        members.push(("method".to_owned(), Json::text(self.method.as_str())));
        members.push(("params".to_owned(), Json::object(params)));
        members.push(("id".to_owned(), Json::Number(self.request_id)));
        assert(members_view(members@) =~= wire_form(self@)->Object_0);
        Json::object(members)
    }
}

} // verus!
