//! The caller-facing wire messages, framed byte for byte.
//!
//! Every message this backend sends is a small JSON object.  Object keys are
//! emitted in lexicographic order, matching a canonical map serializer.

use vstd::prelude::*;

use crate::bytes::ascii_of;
use crate::bytes::join_of;
use crate::bytes::push_bytes;
use crate::bytes::push_lit;
use crate::events::EventModel;
use crate::events::ToolInvocationEvent;
use crate::json::json_string_of;
use crate::json::push_json_string;

verus! {

/// `{"content":C,"type":T}` with a string content.
pub open spec fn simple_message_of(msg_type: Seq<u8>, content: Seq<u8>) -> Seq<u8> {
    ascii_of("{\"content\":"@) + json_string_of(content) + ascii_of(",\"type\":"@)
        + json_string_of(msg_type) + ascii_of("}"@)
}

/// Renders a plain `{"content": "...", "type": "..."}` message.
pub fn simple_message(msg_type: &Vec<u8>, content: &Vec<u8>) -> (r: Vec<u8>)
    ensures
        r@ == simple_message_of(msg_type@, content@),
{
    proof {
        reveal_strlit("{\"content\":");
        reveal_strlit(",\"type\":");
        reveal_strlit("}");
    }
    let mut r: Vec<u8> = Vec::new();
    push_lit(&mut r, "{\"content\":");
    push_json_string(&mut r, content);
    push_lit(&mut r, ",\"type\":");
    push_json_string(&mut r, msg_type);
    push_lit(&mut r, "}");
    assert(r@ =~= simple_message_of(msg_type@, content@));
    r
}

/// The notification for a call that started: the tool's name and its raw
/// argument object.
pub open spec fn tool_call_message_of(name: Seq<u8>, args_json: Seq<u8>) -> Seq<u8> {
    ascii_of("{\"content\":{\"toolArgs\":"@) + args_json + ascii_of(",\"toolName\":"@)
        + json_string_of(name) + ascii_of("},\"type\":\"tool_call\"}"@)
}

/// The notification for a call that finished: the tool's name and the capped
/// result text.
pub open spec fn tool_result_message_of(name: Seq<u8>, result: Seq<u8>) -> Seq<u8> {
    ascii_of("{\"content\":{\"result\":"@) + json_string_of(result) + ascii_of(",\"toolName\":"@)
        + json_string_of(name) + ascii_of("},\"type\":\"tool_result\"}"@)
}

/// The wire image of an event: `tool_call` for `Started`, `tool_result` for
/// `Finished`.
pub open spec fn event_message_of(e: EventModel) -> Seq<u8> {
    match e {
        EventModel::Started { name, args } => tool_call_message_of(name, args),
        EventModel::Finished { name, result } => tool_result_message_of(name, result),
    }
}

/// Renders one tool event for the caller.
pub fn event_message(e: &ToolInvocationEvent) -> (r: Vec<u8>)
    ensures
        r@ == event_message_of(e@),
{
    proof {
        reveal_strlit("{\"content\":{\"toolArgs\":");
        reveal_strlit("{\"content\":{\"result\":");
        reveal_strlit(",\"toolName\":");
        reveal_strlit("},\"type\":\"tool_call\"}");
        reveal_strlit("},\"type\":\"tool_result\"}");
    }
    let mut r: Vec<u8> = Vec::new();
    match e {
        ToolInvocationEvent::Started { tool_name, arguments } => {
            push_lit(&mut r, "{\"content\":{\"toolArgs\":");
            push_bytes(&mut r, arguments);
            push_lit(&mut r, ",\"toolName\":");
            push_json_string(&mut r, tool_name);
            push_lit(&mut r, "},\"type\":\"tool_call\"}");
            assert(r@ =~= event_message_of(e@));
        },
        ToolInvocationEvent::Finished { tool_name, result } => {
            push_lit(&mut r, "{\"content\":{\"result\":");
            push_json_string(&mut r, result);
            push_lit(&mut r, ",\"toolName\":");
            push_json_string(&mut r, tool_name);
            push_lit(&mut r, "},\"type\":\"tool_result\"}");
            assert(r@ =~= event_message_of(e@));
        },
    }
    r
}

/// The turn's terminal message carrying the answer text.
pub open spec fn response_message_of(text: Seq<u8>) -> Seq<u8> {
    ascii_of("{\"content\":{\"images\":[],\"text\":"@) + json_string_of(text) + ascii_of(
        ",\"widgets\":[]},\"type\":\"response\"}"@,
    )
}

/// Renders the final response of a turn.
pub fn response_message(text: &Vec<u8>) -> (r: Vec<u8>)
    ensures
        r@ == response_message_of(text@),
{
    proof {
        reveal_strlit("{\"content\":{\"images\":[],\"text\":");
        reveal_strlit(",\"widgets\":[]},\"type\":\"response\"}");
    }
    let mut r: Vec<u8> = Vec::new();
    push_lit(&mut r, "{\"content\":{\"images\":[],\"text\":");
    push_json_string(&mut r, text);
    push_lit(&mut r, ",\"widgets\":[]},\"type\":\"response\"}");
    assert(r@ =~= response_message_of(text@));
    r
}

/// `{"content":{"servers":[ ... ]},"type":"mcp_server_status"}` around
/// already-rendered per-provider entries.
pub open spec fn server_status_message_of(entries: Seq<Seq<u8>>) -> Seq<u8> {
    ascii_of("{\"content\":{\"servers\":["@) + join_of(entries, ascii_of(","@)) + ascii_of(
        "]},\"type\":\"mcp_server_status\"}"@,
    )
}

/// Renders the provider status report.
pub fn server_status_message(entries: &Vec<Vec<u8>>) -> (r: Vec<u8>)
    ensures
        r@ == server_status_message_of(entries@.map_values(|p: Vec<u8>| p@)),
{
    proof {
        reveal_strlit("{\"content\":{\"servers\":[");
        reveal_strlit("]},\"type\":\"mcp_server_status\"}");
        reveal_strlit(",");
    }
    let mut r: Vec<u8> = Vec::new();
    push_lit(&mut r, "{\"content\":{\"servers\":[");
    let sep = crate::bytes::lit(",");
    let mut joined = crate::bytes::join_bytes(entries, &sep);
    r.append(&mut joined);
    push_lit(&mut r, "]},\"type\":\"mcp_server_status\"}");
    assert(r@ =~= server_status_message_of(entries@.map_values(|p: Vec<u8>| p@)));
    r
}

/// `{"content":{"tools":[ ... ]},"type":"active_tools"}` around
/// already-rendered tool entries.
pub open spec fn active_tools_message_of(entries: Seq<Seq<u8>>) -> Seq<u8> {
    ascii_of("{\"content\":{\"tools\":["@) + join_of(entries, ascii_of(","@)) + ascii_of(
        "]},\"type\":\"active_tools\"}"@,
    )
}

/// Renders the active-tools report.
pub fn active_tools_message(entries: &Vec<Vec<u8>>) -> (r: Vec<u8>)
    ensures
        r@ == active_tools_message_of(entries@.map_values(|p: Vec<u8>| p@)),
{
    proof {
        reveal_strlit("{\"content\":{\"tools\":[");
        reveal_strlit("]},\"type\":\"active_tools\"}");
        reveal_strlit(",");
    }
    let mut r: Vec<u8> = Vec::new();
    push_lit(&mut r, "{\"content\":{\"tools\":[");
    let sep = crate::bytes::lit(",");
    let mut joined = crate::bytes::join_bytes(entries, &sep);
    r.append(&mut joined);
    push_lit(&mut r, "]},\"type\":\"active_tools\"}");
    assert(r@ =~= active_tools_message_of(entries@.map_values(|p: Vec<u8>| p@)));
    r
}

} // verus!
