//! Tool invocation events and the notifying proxy's instrumentation rules.
//!
//! Every call routed through the notifying proxy is announced by exactly one
//! `Started` event and closed by exactly one `Finished` event.  The result
//! carried on the `Finished` event is capped at a fixed byte ceiling; the
//! value returned to the reasoning loop is never touched.

use vstd::prelude::*;

use crate::bytes::ascii_of;
use crate::bytes::dec_of;
use crate::bytes::lemma_dec_of_len_u64;
use crate::bytes::push_lit;
use crate::bytes::push_u64_dec;

verus! {

/// Ceiling, in bytes, on a result as carried on the notification path.
pub const MAX_RESULT_BYTES: usize = 32768;

/// One observable step of one tool invocation.
#[derive(Debug)]
pub enum ToolInvocationEvent {
    Started { tool_name: Vec<u8>, arguments: Vec<u8> },
    Finished { tool_name: Vec<u8>, result: Vec<u8> },
}

/// The mathematical image of an event.
pub enum EventModel {
    Started { name: Seq<u8>, args: Seq<u8> },
    Finished { name: Seq<u8>, result: Seq<u8> },
}

impl EventModel {
    /// The tool name the event speaks of.
    pub open spec fn name(self) -> Seq<u8> {
        match self {
            EventModel::Started { name, .. } => name,
            EventModel::Finished { name, .. } => name,
        }
    }

    pub open spec fn is_started(self) -> bool {
        self is Started
    }

    pub open spec fn is_finished(self) -> bool {
        self is Finished
    }
}

impl View for ToolInvocationEvent {
    type V = EventModel;

    open spec fn view(&self) -> EventModel {
        match self {
            ToolInvocationEvent::Started { tool_name, arguments } => EventModel::Started {
                name: tool_name@,
                args: arguments@,
            },
            ToolInvocationEvent::Finished { tool_name, result } => EventModel::Finished {
                name: tool_name@,
                result: result@,
            },
        }
    }
}

/// The marker that replaces a truncated result's tail, stating the original
/// byte count.
pub open spec fn marker_of(n: nat) -> Seq<u8> {
    ascii_of("... [truncated "@) + crate::bytes::emdash_of() + ascii_of(" "@) + dec_of(n)
        + ascii_of(" bytes total]"@)
}

/// A result as delivered on the notification path: unchanged when it fits
/// the ceiling, else a prefix with the marker in place of the tail, the whole
/// exactly at the ceiling — always strictly shorter than an oversized
/// original.
pub open spec fn truncated_of(s: Seq<u8>) -> Seq<u8> {
    if s.len() <= MAX_RESULT_BYTES {
        s
    } else {
        s.take(MAX_RESULT_BYTES - marker_of(s.len()).len()) + marker_of(s.len())
    }
}

/// Caps a serialized result for the notification path.
pub fn truncate_result(s: &Vec<u8>) -> (r: Vec<u8>)
    ensures
        r@ == truncated_of(s@),
{
    if s.len() <= MAX_RESULT_BYTES {
        crate::bytes::copy_bytes(s)
    } else {
        proof {
            reveal_strlit("... [truncated ");
            reveal_strlit(" ");
            reveal_strlit(" bytes total]");
            lemma_dec_of_len_u64(s.len() as u64);
        }
        let mut marker = crate::bytes::lit("... [truncated ");
        crate::bytes::push_emdash(&mut marker);
        push_lit(&mut marker, " ");
        push_u64_dec(&mut marker, s.len() as u64);
        push_lit(&mut marker, " bytes total]");
        assert(marker@ == marker_of(s@.len()));
        let keep = MAX_RESULT_BYTES - marker.len();
        let mut r: Vec<u8> = Vec::new();
        let mut i: usize = 0;
        while i < keep
            invariant
                i <= keep < MAX_RESULT_BYTES < s.len(),
                r@ == s@.take(i as int),
            decreases keep - i,
        {
            r.push(s[i]);
            i = i + 1;
        }
        r.append(&mut marker);
        assert(r@ =~= truncated_of(s@));
        r
    }
}

/// Truncation is the identity up to the ceiling and idempotent everywhere;
/// above the ceiling the delivered form sits exactly at the ceiling — so
/// strictly below any oversized original's length — and states the original
/// byte count inside the marker.
pub proof fn lemma_truncation_boundary(s: Seq<u8>)
    requires
        s.len() <= u64::MAX,
    ensures
        s.len() <= MAX_RESULT_BYTES ==> truncated_of(s) == s,
        s.len() > MAX_RESULT_BYTES ==> truncated_of(s).len() == MAX_RESULT_BYTES,
        s.len() > MAX_RESULT_BYTES ==> truncated_of(s).len() < s.len(),
        truncated_of(truncated_of(s)) == truncated_of(s),
        s.len() > MAX_RESULT_BYTES ==> truncated_of(s).subrange(
            MAX_RESULT_BYTES - marker_of(s.len()).len(),
            MAX_RESULT_BYTES as int,
        ) == marker_of(s.len()),
        s.len() > MAX_RESULT_BYTES ==> crate::bytes::contains_seq(truncated_of(s), dec_of(s.len())),
{
    reveal_strlit("... [truncated ");
    reveal_strlit(" ");
    reveal_strlit(" bytes total]");
    assert(ascii_of("... [truncated "@).len() == 15);
    assert(ascii_of(" bytes total]"@).len() == 13);
    lemma_dec_of_len_u64(s.len() as u64);
    if s.len() > MAX_RESULT_BYTES {
        let t = truncated_of(s);
        let d = dec_of(s.len());
        let m = marker_of(s.len());
        let keep = MAX_RESULT_BYTES - m.len();
        assert(t.subrange(keep, MAX_RESULT_BYTES as int) =~= m);
        assert(crate::bytes::match_at(t, d, keep + 19));
    }
}

/// The two events that one routed invocation contributes to the stream, in
/// emission order: its `Started` event, then its `Finished` event carrying
/// the capped result.
pub open spec fn invocation_trace(name: Seq<u8>, args: Seq<u8>, outcome: Seq<u8>) -> Seq<
    EventModel,
> {
    seq![
        EventModel::Started { name, args },
        EventModel::Finished { name, result: truncated_of(outcome) },
    ]
}

/// Builds the `Started` event announcing an invocation.
pub fn started_event(tool_name: &Vec<u8>, arguments: &Vec<u8>) -> (e: ToolInvocationEvent)
    ensures
        e@ == (EventModel::Started { name: tool_name@, args: arguments@ }),
{
    ToolInvocationEvent::Started {
        tool_name: crate::bytes::copy_bytes(tool_name),
        arguments: crate::bytes::copy_bytes(arguments),
    }
}

/// Builds the `Finished` event closing an invocation.  `outcome` is the
/// serialized result or error of the real call; only the copy carried on the
/// event is capped.
pub fn finished_event(tool_name: &Vec<u8>, outcome: &Vec<u8>) -> (e: ToolInvocationEvent)
    ensures
        e@ == (EventModel::Finished { name: tool_name@, result: truncated_of(outcome@) }),
{
    ToolInvocationEvent::Finished {
        tool_name: crate::bytes::copy_bytes(tool_name),
        result: truncate_result(outcome),
    }
}

/// For every routed invocation, the trace holds exactly one `Started` and
/// exactly one `Finished` event, in that order, both bearing the invoked
/// tool's name — whatever the outcome was.
pub proof fn lemma_one_started_one_finished(name: Seq<u8>, args: Seq<u8>, outcome: Seq<u8>)
    ensures
        invocation_trace(name, args, outcome).len() == 2,
        invocation_trace(name, args, outcome)[0].is_started(),
        invocation_trace(name, args, outcome)[1].is_finished(),
        invocation_trace(name, args, outcome)[0].name() == name,
        invocation_trace(name, args, outcome)[1].name() == name,
{
}

/// The notifying proxy's standing state: the wrapped provider's immutable
/// catalog and the opaque handle of the real peer the runtime forwards to.
#[derive(Debug)]
pub struct NotifyingMcpProxy {
    pub tools: Vec<crate::supervisor::ToolDescriptor>,
    pub peer: usize,
}

impl NotifyingMcpProxy {
    pub fn new(tools: Vec<crate::supervisor::ToolDescriptor>, peer: usize) -> (r:
        NotifyingMcpProxy)
        ensures
            r.tools == tools,
            r.peer == peer,
    {
        NotifyingMcpProxy { tools, peer }
    }

    /// Listing is not an invocation: the wrapped catalog comes back
    /// unchanged and no event is emitted.
    pub fn list_tools(&self) -> (r: Vec<crate::supervisor::ToolDescriptor>)
        ensures
            r@.len() == self.tools@.len(),
            forall|i: int| 0 <= i < self.tools@.len() ==> r@[i]@ == self.tools@[i]@,
    {
        crate::supervisor::clone_catalog(&self.tools)
    }
}

} // verus!
