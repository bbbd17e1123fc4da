//! The event relay: the per-turn state machine that forwards tool events to
//! the caller while the reasoning loop runs, and reconciles both streams into
//! one final response.
//!
//! The relay's ghost trace records every delivery of the turn, so the
//! ordering guarantee — every event delivered strictly before the final
//! response — is a property of the machine itself, not of any one caller.

use vstd::prelude::*;

use crate::bytes::ascii_of;
use crate::bytes::contains_seq;
use crate::bytes::copy_bytes;
use crate::bytes::is_blank;
use crate::bytes::push_bytes;
use crate::bytes::trim_bytes;
use crate::bytes::trim_of;
use crate::events::EventModel;
use crate::events::ToolInvocationEvent;

verus! {

/// Phases of one chat turn.
#[derive(PartialEq, Eq, Structural, Clone, Copy, Debug)]
pub enum TurnPhase {
    Idle,
    Running,
    Draining,
    Done,
}

/// One message handed to the caller during a turn.
#[derive(Debug)]
pub enum Delivery {
    Event(ToolInvocationEvent),
    Response(Vec<u8>),
}

/// The mathematical image of a delivery.
pub enum DeliveryModel {
    Event(EventModel),
    Response(Seq<u8>),
}

impl View for Delivery {
    type V = DeliveryModel;

    open spec fn view(&self) -> DeliveryModel {
        match self {
            Delivery::Event(e) => DeliveryModel::Event(e@),
            Delivery::Response(t) => DeliveryModel::Response(t@),
        }
    }
}

/// Every delivery in `ds` is an event, none is a response.
pub open spec fn all_events(ds: Seq<DeliveryModel>) -> bool {
    forall|i: int| 0 <= i < ds.len() ==> ds[i] is Event
}

/// The relay for one chat turn.  `delivered` is the turn's delivery trace in
/// order, oldest first.
pub struct EventRelay {
    pub phase: TurnPhase,
    pub delivered: Ghost<Seq<DeliveryModel>>,
}

impl EventRelay {
    /// The machine's invariant: while the turn is open only events have been
    /// delivered; once done, the one response is the last delivery.
    pub open spec fn wf(self) -> bool {
        match self.phase {
            TurnPhase::Idle => self.delivered@.len() == 0,
            TurnPhase::Running => all_events(self.delivered@),
            TurnPhase::Draining => all_events(self.delivered@),
            TurnPhase::Done => self.delivered@.len() > 0 && self.delivered@.last() is Response
                && all_events(self.delivered@.drop_last()),
        }
    }

    /// A fresh relay, idle, with nothing delivered.
    pub fn new() -> (r: EventRelay)
        ensures
            r.wf(),
            r.phase == TurnPhase::Idle,
            r.delivered@ =~= Seq::<DeliveryModel>::empty(),
    {
        EventRelay { phase: TurnPhase::Idle, delivered: Ghost(Seq::empty()) }
    }

    /// A non-empty user message opens the turn: the reasoning loop starts and
    /// the relay listens for events.
    pub fn begin(&mut self)
        requires
            old(self).wf(),
            old(self).phase == TurnPhase::Idle,
        ensures
            final(self).wf(),
            final(self).phase == TurnPhase::Running,
            final(self).delivered@ == old(self).delivered@,
    {
        self.phase = TurnPhase::Running;
    }

    /// Forwards one tool event to the caller immediately, in receipt order.
    /// Events are accepted both while the loop runs and during the final
    /// sweep after it completes.
    pub fn forward_event(&mut self, e: ToolInvocationEvent) -> (d: Delivery)
        requires
            old(self).wf(),
            old(self).phase == TurnPhase::Running || old(self).phase == TurnPhase::Draining,
        ensures
            final(self).wf(),
            final(self).phase == old(self).phase,
            d@ == DeliveryModel::Event(e@),
            final(self).delivered@ == old(self).delivered@.push(DeliveryModel::Event(e@)),
    {
        proof {
            self.delivered@ = self.delivered@.push(DeliveryModel::Event(e@));
        }
        Delivery::Event(e)
    }

    /// The reasoning loop has signalled completion: the relay performs one
    /// final sweep of the queue before the response may go out.
    pub fn begin_drain(&mut self)
        requires
            old(self).wf(),
            old(self).phase == TurnPhase::Running,
        ensures
            final(self).wf(),
            final(self).phase == TurnPhase::Draining,
            final(self).delivered@ == old(self).delivered@,
    {
        self.phase = TurnPhase::Draining;
    }

    /// Delivers the turn's one final response, after every drained event.
    pub fn finish(&mut self, answer: Vec<u8>) -> (d: Delivery)
        requires
            old(self).wf(),
            old(self).phase == TurnPhase::Draining,
        ensures
            final(self).wf(),
            final(self).phase == TurnPhase::Done,
            d@ == DeliveryModel::Response(answer@),
            final(self).delivered@ == old(self).delivered@.push(DeliveryModel::Response(answer@)),
    {
        self.phase = TurnPhase::Done;
        proof {
            self.delivered@ = self.delivered@.push(DeliveryModel::Response(answer@));
        }
        Delivery::Response(answer)
    }

    /// Back to idle for the next message of the session; the next turn's
    /// trace starts empty.
    pub fn reset(&mut self)
        requires
            old(self).wf(),
            old(self).phase == TurnPhase::Done,
        ensures
            final(self).wf(),
            final(self).phase == TurnPhase::Idle,
            final(self).delivered@ =~= Seq::<DeliveryModel>::empty(),
    {
        self.phase = TurnPhase::Idle;
        proof {
            self.delivered@ = Seq::empty();
        }
    }
}

/// Once a turn is done, its trace holds exactly one response; it is the last
/// delivery, and every event of the turn stands strictly before it.
pub proof fn lemma_events_precede_response(r: EventRelay)
    requires
        r.wf(),
        r.phase == TurnPhase::Done,
    ensures
        r.delivered@.len() > 0,
        r.delivered@.last() is Response,
        forall|i: int| 0 <= i < r.delivered@.len() - 1 ==> r.delivered@[i] is Event,
        forall|i: int, j: int|
            0 <= i < r.delivered@.len() && 0 <= j < r.delivered@.len() && r.delivered@[i] is Event
                && r.delivered@[j] is Response ==> i < j,
{
    let ds = r.delivered@;
    assert(forall|i: int| 0 <= i < ds.len() - 1 ==> ds.drop_last()[i] == ds[i]);
    assert(forall|i: int| 0 <= i < ds.len() - 1 ==> ds[i] is Event);
}

/// The reasoning loop's outcome for one turn, after the concurrency layer
/// has joined it.
#[derive(Debug)]
pub enum TurnOutcome {
    Answer(Vec<u8>),
    Error(Vec<u8>),
}

/// Folds the fate of the reasoning loop's unit of work into one outcome: a
/// task that failed to complete at all becomes a single textual error, never
/// a dropped connection.
pub fn reasoning_outcome(joined: Result<Result<Vec<u8>, Vec<u8>>, Vec<u8>>) -> (r: TurnOutcome)
    ensures
        joined matches Ok(Ok(t)) ==> r is Answer && r->Answer_0@ == t@,
        joined matches Ok(Err(e)) ==> r is Error && r->Error_0@ == e@,
        joined matches Err(j) ==> r is Error && r->Error_0@ == ascii_of("LLM task panicked: "@)
            + j@,
{
    proof {
        reveal_strlit("LLM task panicked: ");
    }
    match joined {
        Ok(Ok(t)) => TurnOutcome::Answer(t),
        Ok(Err(e)) => TurnOutcome::Error(e),
        Err(j) => {
            let mut m = crate::bytes::lit("LLM task panicked: ");
            push_bytes(&mut m, &j);
            TurnOutcome::Error(m)
        },
    }
}

/// The placeholder answer used when the completion provider reports the known
/// empty-response condition after tool use.
pub open spec fn placeholder_answer() -> Seq<u8> {
    ascii_of("I've completed the requested actions. Let me know if you need anything else."@)
}

/// The marker that identifies the known empty-response condition in a
/// provider error.
pub open spec fn empty_marker() -> Seq<u8> {
    ascii_of("empty"@)
}

/// Translates the known empty-response condition into the graceful
/// placeholder answer; every other chat result passes through unchanged.
pub fn adjust_chat_result(r: Result<Vec<u8>, Vec<u8>>) -> (r2: Result<Vec<u8>, Vec<u8>>)
    ensures
        r is Ok ==> r2 == r,
        r matches Err(e) && contains_seq(e@, empty_marker()) ==> r2 is Ok && r2->Ok_0@
            == placeholder_answer(),
        r matches Err(e) && !contains_seq(e@, empty_marker()) ==> r2 == r,
{
    proof {
        reveal_strlit("empty");
        reveal_strlit("I've completed the requested actions. Let me know if you need anything else.");
    }
    match r {
        Ok(t) => Ok(t),
        Err(e) => {
            let needle = crate::bytes::lit("empty");
            if crate::bytes::contains_bytes(&e, &needle) {
                Ok(
                    crate::bytes::lit(
                        "I've completed the requested actions. Let me know if you need anything else.",
                    ),
                )
            } else {
                Err(e)
            }
        },
    }
}

/// Who said a message of the conversation history.
#[derive(PartialEq, Eq, Structural, Clone, Copy, Debug)]
pub enum Role {
    User,
    Assistant,
}

/// One entry of the append-only conversation history.
#[derive(Debug)]
pub struct ChatMessage {
    pub role: Role,
    pub text: Vec<u8>,
}

/// The turn `(q, t)` was appended to `old_h`, yielding `new_h`, with nothing
/// else changed.
pub open spec fn turn_recorded(
    old_h: Seq<ChatMessage>,
    new_h: Seq<ChatMessage>,
    q: Seq<u8>,
    t: Seq<u8>,
) -> bool {
    &&& new_h.len() == old_h.len() + 2
    &&& new_h.subrange(0, old_h.len() as int) == old_h
    &&& new_h[old_h.len() as int].role == Role::User
    &&& new_h[old_h.len() as int].text@ == q
    &&& new_h.last().role == Role::Assistant
    &&& new_h.last().text@ == t
}

/// Appends the turn to the history when the reasoning loop answered; an error
/// outcome leaves the history untouched.
pub fn record_turn(history: &mut Vec<ChatMessage>, query: &Vec<u8>, outcome: &TurnOutcome)
    ensures
        outcome matches TurnOutcome::Answer(t) ==> turn_recorded(
            old(history)@,
            final(history)@,
            query@,
            t@,
        ),
        outcome matches TurnOutcome::Error(_) ==> final(history)@ == old(history)@,
{
    match outcome {
        TurnOutcome::Answer(t) => {
            history.push(ChatMessage { role: Role::User, text: copy_bytes(query) });
            history.push(ChatMessage { role: Role::Assistant, text: copy_bytes(t) });
            assert(history@.subrange(0, old(history)@.len() as int) =~= old(history)@);
        },
        TurnOutcome::Error(_) => {},
    }
}

/// The text of the turn's final response: the answer itself, or the error
/// prefixed as a visible but non-fatal message.
pub fn response_text(outcome: &TurnOutcome) -> (r: Vec<u8>)
    ensures
        outcome matches TurnOutcome::Answer(t) ==> r@ == t@,
        outcome matches TurnOutcome::Error(e) ==> r@ == ascii_of("Error: "@) + e@,
{
    proof {
        reveal_strlit("Error: ");
    }
    match outcome {
        TurnOutcome::Answer(t) => copy_bytes(t),
        TurnOutcome::Error(e) => {
            let mut r = crate::bytes::lit("Error: ");
            push_bytes(&mut r, e);
            r
        },
    }
}

/// How a turn may open, once the incoming text and the configuration have
/// been weighed.
#[derive(Debug)]
pub enum TurnGate {
    /// Answer at once with this response text; no reasoning loop starts.
    Reject(Vec<u8>),
    /// Start the reasoning loop on this trimmed query.
    Proceed(Vec<u8>),
}

/// Weighs a raw user message against the session configuration.  A blank
/// message or a missing API key (for every provider but the local one) is
/// answered directly; anything else proceeds as the trimmed query.
pub fn gate_turn(raw: &Vec<u8>, provider: &Vec<u8>, api_key: &Option<Vec<u8>>) -> (g: TurnGate)
    ensures
        is_blank(raw@) ==> g is Reject && g->Reject_0@ == ascii_of("Please enter a message."@),
        !is_blank(raw@) && provider@ != ascii_of("ollama"@) && (api_key is None
            || (api_key matches Some(k) && k@.len() == 0)) ==> g is Reject && g->Reject_0@
            == ascii_of("No API key configured. Please set your API key in Settings."@),
        !is_blank(raw@) && (provider@ == ascii_of("ollama"@) || (api_key matches Some(k)
            && k@.len() > 0)) ==> g is Proceed && g->Proceed_0@ == trim_of(raw@),
{
    proof {
        reveal_strlit("Please enter a message.");
        reveal_strlit("No API key configured. Please set your API key in Settings.");
        reveal_strlit("ollama");
    }
    let query = trim_bytes(raw);
    if query.len() == 0 {
        proof {
            crate::bytes::lemma_blank_iff_trim_empty(raw@);
        }
        return TurnGate::Reject(crate::bytes::lit("Please enter a message."));
    }
    proof {
        crate::bytes::lemma_blank_iff_trim_empty(raw@);
    }
    let ollama = crate::bytes::lit("ollama");
    let is_ollama = crate::bytes::eq_bytes(provider, &ollama);
    let key_missing = match api_key {
        None => true,
        Some(k) => k.len() == 0,
    };
    if !is_ollama && key_missing {
        return TurnGate::Reject(
            crate::bytes::lit("No API key configured. Please set your API key in Settings."),
        );
    }
    TurnGate::Proceed(query)
}

} // verus!
