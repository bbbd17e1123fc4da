use agent_server::events::NotifyingMcpProxy;
use agent_server::google_agent::GoogleSubAgent;
use agent_server::google_tools::{
    CreateCalendarEvent, DeleteCalendarEvent, GetGmailMessage, GetGmailThread, ListCalendarEvents,
    ManageSpreadsheet, SearchGmail, UpdateCalendarEvent,
};
use agent_server::state::AppState;
use agent_server::supervisor::ToolDescriptor;
use agent_server::tools::{
    AppendToMemory, Calculator, GetCurrentDateTime, OpenApplication, OpenChromeTab, ReadMemory,
    SaveToMemory,
};

fn b(s: &str) -> Vec<u8> {
    s.as_bytes().to_vec()
}

fn check(d: &ToolDescriptor, name: &str) {
    assert_eq!(d.name, b(name));
    assert!(!d.description.is_empty());
    // Every published schema is well-formed JSON.
    let schema: serde_json::Value = serde_json::from_slice(&d.schema_json).unwrap();
    assert_eq!(schema["type"], serde_json::Value::String("object".to_string()));
}

#[test]
fn every_builtin_descriptor_is_well_formed() {
    check(&Calculator.definition(), "calculator");
    check(&GetCurrentDateTime.definition(), "get_current_date_time");
    check(&OpenApplication.definition(), "open_application");
    check(&OpenChromeTab.definition(), "open_chrome_tab");
    check(&ReadMemory::new(b("/tmp/m.md")).definition(), "read_memory");
    check(&SaveToMemory::new(b("/tmp/m.md")).definition(), "save_to_memory");
    check(&AppendToMemory::new(b("/tmp/m.md")).definition(), "append_to_memory");

    let d = Calculator.definition();
    assert_eq!(
        d.description,
        b("Performs basic math operations (add, subtract, multiply, divide)")
    );
    assert_eq!(
        d.schema_json,
        b("{\"properties\":{\"operation\":{\"enum\":[\"add\",\"subtract\",\"multiply\",\"divide\"],\"type\":\"string\"},\"x\":{\"description\":\"First number\",\"type\":\"number\"},\"y\":{\"description\":\"Second number\",\"type\":\"number\"}},\"required\":[\"x\",\"y\",\"operation\"],\"type\":\"object\"}")
    );
}

#[test]
fn every_workspace_descriptor_is_well_formed() {
    let t = b("tok");
    check(&SearchGmail::new(t.clone()).definition(), "search_gmail");
    check(&GetGmailMessage::new(t.clone()).definition(), "get_gmail_message");
    check(&GetGmailThread::new(t.clone()).definition(), "get_gmail_thread");
    check(&ListCalendarEvents::new(t.clone()).definition(), "list_calendar_events");
    check(&CreateCalendarEvent::new(t.clone()).definition(), "create_calendar_event");
    check(&UpdateCalendarEvent::new(t.clone()).definition(), "update_calendar_event");
    check(&DeleteCalendarEvent::new(t.clone()).definition(), "delete_calendar_event");
    check(&ManageSpreadsheet::new(t.clone()).definition(), "manage_spreadsheet");

    let agent =
        GoogleSubAgent::new(t.clone(), b("key"), b("gemini"), b("model"), Vec::new());
    check(&agent.definition(), "google_agent");
    assert_eq!(agent.access_token, t);
    assert_eq!(agent.provider, b("gemini"));
}

#[test]
fn the_proxy_lists_the_wrapped_catalog_unchanged() {
    let tools = vec![
        ToolDescriptor { name: b("t1"), description: b("d1"), schema_json: b("{}") },
        ToolDescriptor { name: b("t2"), description: b("d2"), schema_json: b("{}") },
    ];
    let proxy = NotifyingMcpProxy::new(tools, 5);
    let listed = proxy.list_tools();
    assert_eq!(listed.len(), 2);
    assert_eq!(listed[0].name, b("t1"));
    assert_eq!(listed[1].name, b("t2"));
    // Listing again returns the same catalog: it is immutable for the
    // connection's life.
    let again = proxy.list_tools();
    assert_eq!(again.len(), 2);
    assert_eq!(again[1].description, b("d2"));
    assert_eq!(proxy.peer, 5);
}

#[test]
fn oauth_success_installs_the_token() {
    let mut s = AppState::new();
    let reply = s.apply_oauth_success(b("/d/credentials.json"), b("/d/token.json"), b("tok"));
    assert_eq!(s.google_access_token, Some(b("tok")));
    assert_eq!(s.credentials_file_path, Some(b("/d/credentials.json")));
    assert_eq!(
        reply,
        b("{\"content\":\"\u{2705} Google authentication successful.\",\"type\":\"credentials_success\"}")
    );
}
