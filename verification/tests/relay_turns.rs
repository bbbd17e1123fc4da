use agent_server::events::{finished_event, started_event, ToolInvocationEvent};
use agent_server::relay::{
    adjust_chat_result, gate_turn, reasoning_outcome, record_turn, response_text, ChatMessage,
    Delivery, EventRelay, Role, TurnGate, TurnOutcome, TurnPhase,
};
use agent_server::wire::{event_message, response_message};

fn b(s: &str) -> Vec<u8> {
    s.as_bytes().to_vec()
}

fn delivery_bytes(d: &Delivery) -> Vec<u8> {
    match d {
        Delivery::Event(e) => event_message(e),
        Delivery::Response(t) => response_message(t),
    }
}

#[test]
fn echo_turn_emits_call_result_then_response() {
    // A provider exposes one tool `echo`; the turn calls it once.
    let mut relay = EventRelay::new();
    assert_eq!(relay.phase, TurnPhase::Idle);
    relay.begin();

    let name = b("echo");
    let args = b("{\"msg\":\"hi\"}");
    let mut sent: Vec<Vec<u8>> = Vec::new();

    let d1 = relay.forward_event(started_event(&name, &args));
    sent.push(delivery_bytes(&d1));

    let outcome = b("{\"content\":[{\"text\":\"hi\"}]}");
    let d2 = relay.forward_event(finished_event(&name, &outcome));
    sent.push(delivery_bytes(&d2));

    relay.begin_drain();
    let d3 = relay.finish(b("Done: hi"));
    sent.push(delivery_bytes(&d3));
    assert_eq!(relay.phase, TurnPhase::Done);

    assert_eq!(
        sent[0],
        b("{\"content\":{\"toolArgs\":{\"msg\":\"hi\"},\"toolName\":\"echo\"},\"type\":\"tool_call\"}")
    );
    assert_eq!(
        sent[1],
        b("{\"content\":{\"result\":\"{\\\"content\\\":[{\\\"text\\\":\\\"hi\\\"}]}\",\"toolName\":\"echo\"},\"type\":\"tool_result\"}")
    );
    assert_eq!(
        sent[2],
        b("{\"content\":{\"images\":[],\"text\":\"Done: hi\",\"widgets\":[]},\"type\":\"response\"}")
    );

    // Every event message went out strictly before the response message.
    assert!(sent[2].windows(10).any(|w| w == b"\"response\""));
    relay.reset();
    assert_eq!(relay.phase, TurnPhase::Idle);
}

#[test]
fn slow_and_fast_providers_keep_per_call_order() {
    // Provider A is slow, provider B fast: B's pair completes first, and
    // both Finished events are delivered before the turn's response.
    let mut relay = EventRelay::new();
    relay.begin();
    let a = b("slow_tool");
    let bt = b("fast_tool");
    let empty = b("{}");

    let mut order: Vec<(&str, bool)> = Vec::new();
    let d1 = relay.forward_event(started_event(&a, &empty));
    order.push(("a", matches!(d1, Delivery::Event(ToolInvocationEvent::Started { .. }))));
    let d2 = relay.forward_event(started_event(&bt, &empty));
    order.push(("b", matches!(d2, Delivery::Event(ToolInvocationEvent::Started { .. }))));
    let d3 = relay.forward_event(finished_event(&bt, &b("fast done")));
    order.push(("b", matches!(d3, Delivery::Event(ToolInvocationEvent::Finished { .. }))));
    relay.begin_drain();
    // A's Finished arrived in the final sweep, still before the response.
    let d4 = relay.forward_event(finished_event(&a, &b("slow done")));
    order.push(("a", matches!(d4, Delivery::Event(ToolInvocationEvent::Finished { .. }))));
    let d5 = relay.finish(b("both done"));
    assert!(matches!(d5, Delivery::Response(_)));

    // Each provider's Started precedes its Finished; the response came last.
    assert_eq!(order, vec![("a", true), ("b", true), ("b", true), ("a", true)]);
}

#[test]
fn empty_response_condition_becomes_placeholder() {
    // The known empty-response condition after tool use yields the fixed
    // placeholder answer, not an error.
    let adjusted = adjust_chat_result(Err(b(
        "CompletionError: provider returned an empty message after tool execution",
    )));
    assert_eq!(
        adjusted,
        Ok(b("I've completed the requested actions. Let me know if you need anything else."))
    );

    let other = adjust_chat_result(Err(b("rate limited")));
    assert_eq!(other, Err(b("rate limited")));

    let fine = adjust_chat_result(Ok(b("an answer")));
    assert_eq!(fine, Ok(b("an answer")));
}

#[test]
fn gate_rejects_blank_and_keyless_turns() {
    let key = Some(b("k"));
    match gate_turn(&b("   \t"), &b("gemini"), &key) {
        TurnGate::Reject(m) => assert_eq!(m, b("Please enter a message.")),
        TurnGate::Proceed(_) => panic!("blank message must be rejected"),
    }
    match gate_turn(&b("hello"), &b("gemini"), &None) {
        TurnGate::Reject(m) => {
            assert_eq!(m, b("No API key configured. Please set your API key in Settings."))
        },
        TurnGate::Proceed(_) => panic!("keyless turn must be rejected"),
    }
    match gate_turn(&b("  hello  "), &b("ollama"), &None) {
        TurnGate::Proceed(q) => assert_eq!(q, b("hello")),
        TurnGate::Reject(_) => panic!("the local provider needs no key"),
    }
}

#[test]
fn history_grows_only_on_answers() {
    let mut history: Vec<ChatMessage> = Vec::new();
    let query = b("what time is it");
    record_turn(&mut history, &query, &TurnOutcome::Error(b("boom")));
    assert_eq!(history.len(), 0);
    record_turn(&mut history, &query, &TurnOutcome::Answer(b("noon")));
    assert_eq!(history.len(), 2);
    assert_eq!(history[0].role, Role::User);
    assert_eq!(history[0].text, b("what time is it"));
    assert_eq!(history[1].role, Role::Assistant);
    assert_eq!(history[1].text, b("noon"));
}

#[test]
fn crashed_reasoning_becomes_single_error_answer() {
    let out = reasoning_outcome(Err(b("task 17 cancelled")));
    match &out {
        TurnOutcome::Error(m) => assert_eq!(m, &b("LLM task panicked: task 17 cancelled")),
        TurnOutcome::Answer(_) => panic!("a crashed task is an error"),
    }
    assert_eq!(response_text(&out), b("Error: LLM task panicked: task 17 cancelled"));
    let ok = reasoning_outcome(Ok(Ok(b("fine"))));
    assert_eq!(response_text(&ok), b("fine"));
}
