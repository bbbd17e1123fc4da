use agent_server::state::{
    credentials_missing_reply, credentials_paths, mcp_status_reply, mcp_sync_replies,
    memory_content_reply, oauth_failed_reply, oauth_paths, oauth_timeout_reply, oauth_url_reply,
    reset_session, save_memory_reply, sheet_tabs_error_reply, sheet_tabs_success_reply,
    validate_set_llm, AppState, SpreadsheetConfig,
};
use agent_server::supervisor::{McpConnection, ProviderStatus, ToolDescriptor};

fn b(s: &str) -> Vec<u8> {
    s.as_bytes().to_vec()
}

#[test]
fn the_startup_state_is_the_default_model_and_nothing_else() {
    let s = AppState::new();
    assert_eq!(s.current_model, b("gemini-2.5-flash"));
    assert_eq!(s.current_provider, b("gemini"));
    assert!(s.api_key.is_none());
    assert!(s.google_access_token.is_none());
    assert_eq!(s.mcp_connections.len(), 0);
    assert_eq!(s.spreadsheet_configs.len(), 0);
}

#[test]
fn storing_the_api_key_acknowledges_it() {
    let mut s = AppState::new();
    let reply = s.set_api_key(b("SECRET-REDACTED"));
    assert_eq!(s.api_key, Some(b("SECRET-REDACTED")));
    assert_eq!(reply, b("{\"content\":\"API Key stored.\",\"type\":\"credentials_success\"}"));
}

#[test]
fn credentials_results_only_change_state_on_success() {
    let mut s = AppState::new();
    let (reply, delete) =
        s.apply_credentials_result(b("/d/credentials.json"), b("/d/token.json"), Err(b("bad")));
    assert!(delete);
    assert!(s.google_access_token.is_none());
    assert_eq!(
        reply,
        b("{\"content\":\"\u{274c} Error during authentication: bad\",\"type\":\"credentials_error\"}")
    );

    let (reply, delete) =
        s.apply_credentials_result(b("/d/credentials.json"), b("/d/token.json"), Ok(b("tok")));
    assert!(!delete);
    assert_eq!(s.google_access_token, Some(b("tok")));
    assert_eq!(
        reply,
        b("{\"content\":\"\u{2705} Credentials received and stored successfully.\",\"type\":\"credentials_success\"}")
    );
}

#[test]
fn revoking_clears_key_and_google_fields() {
    let mut s = AppState::new();
    s.set_api_key(b("k"));
    s.apply_credentials_result(b("/d/credentials.json"), b("/d/token.json"), Ok(b("tok")));
    let (reply, to_delete) = s.revoke_credentials();
    assert_eq!(to_delete, Some(b("/d/token.json")));
    assert!(s.api_key.is_none());
    assert!(s.credentials_file_path.is_none());
    assert!(s.token_file_path.is_none());
    assert!(s.google_access_token.is_none());
    assert_eq!(
        reply,
        b("{\"content\":\"\u{2705} Credentials revoked successfully.\",\"type\":\"credentials_revoked\"}")
    );
}

#[test]
fn model_selection_is_validated_then_stored() {
    let err = validate_set_llm(&b("gemini"), &b(""), &b("k")).unwrap_err();
    assert_eq!(
        err,
        b("{\"content\":\"\u{274c} Model name cannot be empty.\",\"type\":\"llm_set_error\"}")
    );
    let err = validate_set_llm(&b("gemini"), &b("m"), &b("")).unwrap_err();
    assert_eq!(
        err,
        b("{\"content\":\"\u{274c} API key is required for this provider.\",\"type\":\"llm_set_error\"}")
    );
    assert!(validate_set_llm(&b("ollama"), &b("m"), &b("")).is_ok());

    let mut s = AppState::new();
    let reply = s.apply_set_llm(b("anthropic"), b("m1"), b("k1"), Ok(()));
    assert_eq!(s.current_provider, b("anthropic"));
    assert_eq!(s.current_model, b("m1"));
    assert_eq!(s.api_key, Some(b("k1")));
    assert_eq!(
        reply,
        b("{\"content\":\"\u{2705} LLM verified and set to anthropic/m1\",\"type\":\"llm_set_success\"}")
    );

    let reply = s.apply_set_llm(b("openai"), b("m2"), b("k2"), Err(b("401")));
    assert_eq!(s.current_provider, b("anthropic"));
    assert_eq!(reply, b("{\"content\":\"\u{274c} 401\",\"type\":\"llm_set_error\"}"));
}

#[test]
fn session_reset_clears_history() {
    let mut history = vec![agent_server::relay::ChatMessage {
        role: agent_server::relay::Role::User,
        text: b("hi"),
    }];
    let reply = reset_session(&mut history);
    assert_eq!(history.len(), 0);
    assert_eq!(reply, b("{\"content\":\"Session cleared.\",\"type\":\"session_reset\"}"));
}

#[test]
fn sync_keeps_only_complete_registrations_and_counts_them() {
    let mut s = AppState::new();
    let reply = s.sync_spreadsheets(vec![
        SpreadsheetConfig {
            alias: b("budget"),
            sheet_id: b("SHEET1"),
            selected_tab: b(""),
            description: b("money"),
        },
        SpreadsheetConfig {
            alias: b(""),
            sheet_id: b("SHEET2"),
            selected_tab: b(""),
            description: b(""),
        },
        SpreadsheetConfig {
            alias: b("plans"),
            sheet_id: b(""),
            selected_tab: b(""),
            description: b(""),
        },
    ]);
    assert_eq!(s.spreadsheet_configs.len(), 1);
    assert_eq!(s.spreadsheet_configs[0].alias, b("budget"));
    assert_eq!(
        reply,
        b("{\"content\":\"\u{2705} Synced 1 spreadsheet(s)\",\"type\":\"spreadsheets_synced\"}")
    );
}

#[test]
fn sync_replies_report_every_provider() {
    let statuses = vec![
        ProviderStatus::Connected { name: b("alpha"), tool_count: 2 },
        ProviderStatus::Error { name: b("beta"), message: b("nope") },
    ];
    let (status_msg, done_msg) = mcp_sync_replies(&statuses);
    assert_eq!(
        status_msg,
        b("{\"content\":{\"servers\":[{\"error\":null,\"name\":\"alpha\",\"status\":\"connected\"},{\"error\":\"nope\",\"name\":\"beta\",\"status\":\"error\"}]},\"type\":\"mcp_server_status\"}")
    );
    assert_eq!(done_msg, b("{\"content\":\"MCP servers synced.\",\"type\":\"mcp_sync_success\"}"));
}

#[test]
fn the_status_query_counts_tools() {
    let conns = vec![McpConnection {
        name: b("alpha"),
        tools: vec![ToolDescriptor { name: b("t"), description: b("d"), schema_json: b("{}") }],
        peer: 0,
    }];
    let reply = mcp_status_reply(&conns);
    assert_eq!(
        reply,
        b("{\"content\":{\"servers\":[{\"name\":\"alpha\",\"status\":\"connected\",\"tools_count\":1}]},\"type\":\"mcp_server_status\"}")
    );
}

#[test]
fn the_tools_report_lists_builtins_google_and_providers() {
    let mut s = AppState::new();
    let bare = s.active_tools_reply();
    assert_eq!(
        bare,
        b("{\"content\":{\"tools\":[\
{\"name\":\"calculator\",\"source\":\"built-in\"},\
{\"name\":\"open_application\",\"source\":\"built-in\"},\
{\"name\":\"open_chrome_tab\",\"source\":\"built-in\"},\
{\"name\":\"read_memory\",\"source\":\"built-in\"},\
{\"name\":\"save_to_memory\",\"source\":\"built-in\"},\
{\"name\":\"append_to_memory\",\"source\":\"built-in\"}\
]},\"type\":\"active_tools\"}")
    );

    s.google_access_token = Some(b("tok"));
    s.mcp_connections.push(McpConnection {
        name: b("files"),
        tools: vec![ToolDescriptor { name: b("ls"), description: b(""), schema_json: b("{}") }],
        peer: 0,
    });
    let full = s.active_tools_reply();
    let text = String::from_utf8(full).unwrap();
    assert!(text.contains("{\"description\":\"Gmail \u{b7} Calendar \u{b7} Sheets sub-agent\",\"name\":\"google_agent\",\"source\":\"google\"}"));
    assert!(text.contains("{\"name\":\"ls\",\"source\":\"mcp:files\"}"));
}

#[test]
fn sheet_tab_queries_are_planned_and_reported() {
    let mut s = AppState::new();
    let err = s.sheet_tabs_plan(&b("")).unwrap_err();
    assert_eq!(
        err,
        b("{\"content\":{\"error\":\"Missing spreadsheet_id.\",\"success\":false},\"type\":\"sheet_tabs_result\"}")
    );
    let err = s.sheet_tabs_plan(&b("SHEET1")).unwrap_err();
    assert_eq!(
        err,
        b("{\"content\":{\"error\":\"Not authenticated with Google. Please connect your Google account first.\",\"success\":false},\"type\":\"sheet_tabs_result\"}")
    );
    s.google_access_token = Some(b("tok"));
    let url = s.sheet_tabs_plan(&b("SHEET1")).unwrap();
    assert_eq!(
        url,
        b("https://sheets.googleapis.com/v4/spreadsheets/SHEET1?fields=properties.title,sheets.properties.title")
    );
    let ok = sheet_tabs_success_reply(&b("Budget"), &vec![b("Tab1"), b("Tab2")]);
    assert_eq!(
        ok,
        b("{\"content\":{\"success\":true,\"tabs\":[\"Tab1\",\"Tab2\"],\"title\":\"Budget\"},\"type\":\"sheet_tabs_result\"}")
    );
    let bad = sheet_tabs_error_reply(&b("HTTP error: refused"));
    assert_eq!(
        bad,
        b("{\"content\":{\"error\":\"HTTP error: refused\",\"success\":false},\"type\":\"sheet_tabs_result\"}")
    );
}

#[test]
fn memory_and_oauth_replies_take_their_fixed_shapes() {
    assert_eq!(
        memory_content_reply(&b("notes")),
        b("{\"content\":\"notes\",\"type\":\"memory_content\"}")
    );
    assert_eq!(
        save_memory_reply(&Ok(())),
        b("{\"content\":\"\u{2705} Memory saved successfully\",\"type\":\"memory_saved\"}")
    );
    assert_eq!(
        save_memory_reply(&Err(b("disk full"))),
        b("{\"content\":\"\u{274c} Error saving memory: disk full\",\"type\":\"memory_error\"}")
    );
    assert_eq!(
        oauth_url_reply(&b("https://x")),
        b("{\"content\":\"https://x\",\"type\":\"oauth_url\"}")
    );
    assert_eq!(
        oauth_failed_reply(&b("denied")),
        b("{\"content\":\"\u{274c} OAuth failed: denied\",\"type\":\"credentials_error\"}")
    );
    assert_eq!(
        oauth_timeout_reply(),
        b("{\"content\":\"\u{274c} OAuth timed out (5 min). Please try again.\",\"type\":\"credentials_error\"}")
    );
    assert_eq!(
        credentials_missing_reply(&b("/d/credentials.json")),
        b("{\"content\":\"\u{274c} credentials.json not found at: /d/credentials.json\",\"type\":\"credentials_error\"}")
    );
}

#[test]
fn directory_paths_are_trimmed_and_validated() {
    let (cred, token) = credentials_paths(&b("  /home/me/g  ")).unwrap();
    assert_eq!(cred, b("/home/me/g/credentials.json"));
    assert_eq!(token, b("/home/me/g/token.json"));
    let err = credentials_paths(&b("   ")).unwrap_err();
    assert_eq!(
        err,
        b("{\"content\":\"\u{274c} Credentials directory path is missing.\",\"type\":\"credentials_error\"}")
    );
    let err = oauth_paths(&b("")).unwrap_err();
    assert_eq!(
        err,
        b("{\"content\":\"\u{274c} dir_path is required for start_oauth.\",\"type\":\"credentials_error\"}")
    );
}
