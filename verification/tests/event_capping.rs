use agent_server::events::{
    finished_event, started_event, truncate_result, ToolInvocationEvent, MAX_RESULT_BYTES,
};

fn b(s: &str) -> Vec<u8> {
    s.as_bytes().to_vec()
}

#[test]
fn results_at_or_under_the_ceiling_pass_unmodified() {
    let small = b("tiny result");
    assert_eq!(truncate_result(&small), small);

    let exact: Vec<u8> = vec![b'x'; MAX_RESULT_BYTES];
    assert_eq!(truncate_result(&exact), exact);

    // Idempotence on the boundary: capping a capped-size result changes nothing.
    let once = truncate_result(&exact);
    assert_eq!(truncate_result(&once), once);
}

#[test]
fn oversized_results_are_cut_and_state_their_size() {
    let big: Vec<u8> = vec![b'y'; 40000];
    let capped = truncate_result(&big);
    // Exactly at the ceiling, so strictly shorter than any oversized original.
    assert_eq!(capped.len(), MAX_RESULT_BYTES);
    assert!(capped.len() < big.len());
    let marker = "... [truncated \u{2014} 40000 bytes total]".as_bytes();
    let keep = MAX_RESULT_BYTES - marker.len();
    assert_eq!(&capped[..keep], &big[..keep]);
    assert_eq!(&capped[keep..], marker);
    // Capping an already-capped result changes nothing.
    assert_eq!(truncate_result(&capped), capped);
}

#[test]
fn one_byte_over_the_ceiling_is_already_shorter() {
    let big: Vec<u8> = vec![b'z'; MAX_RESULT_BYTES + 1];
    let capped = truncate_result(&big);
    assert_eq!(capped.len(), MAX_RESULT_BYTES);
    assert!(capped.len() < big.len());
    let marker = "... [truncated \u{2014} 32769 bytes total]".as_bytes();
    assert_eq!(&capped[MAX_RESULT_BYTES - marker.len()..], marker);
}

#[test]
fn the_finished_event_caps_only_the_notification_copy() {
    let name = b("big_tool");
    let outcome: Vec<u8> = vec![b'r'; 50000];
    match finished_event(&name, &outcome) {
        ToolInvocationEvent::Finished { tool_name, result } => {
            assert_eq!(tool_name, name);
            assert!(result.len() < outcome.len());
        },
        ToolInvocationEvent::Started { .. } => panic!("a finished event was asked for"),
    }
    // The outcome handed back to the reasoning loop is the caller's own,
    // untouched by the event construction.
    assert_eq!(outcome.len(), 50000);
}

#[test]
fn the_started_event_carries_the_arguments_verbatim() {
    let name = b("echo");
    let args = b("{\"msg\":\"hi\"}");
    match started_event(&name, &args) {
        ToolInvocationEvent::Started { tool_name, arguments } => {
            assert_eq!(tool_name, name);
            assert_eq!(arguments, args);
        },
        ToolInvocationEvent::Finished { .. } => panic!("a started event was asked for"),
    }
}
