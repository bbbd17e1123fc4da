use agent_server::bytes::{
    blank_bytes, contains_bytes, eq_bytes, eq_ignore_case, find_byte, find_param, join_bytes,
    replace_bytes, split_byte, starts_with_bytes, sub_bytes, trim_bytes, u64_dec,
};
use agent_server::json::{push_json_escaped, push_json_string};
use agent_server::llm::{
    classify_provider, effective_user_name, ollama_unreachable_error, render_base_prompt,
    render_final_prompt, render_sheet_context, unsupported_provider_error, ProviderKind,
};
use agent_server::state::SpreadsheetConfig;
use agent_server::tools::{
    appended_content, append_memory_outcome, chrome_tab_script, open_app_activate_script,
    open_application_outcome, open_chrome_tab_outcome, read_memory_outcome, save_memory_outcome,
    FileReadOutcome, ToolError,
};

fn b(s: &str) -> Vec<u8> {
    s.as_bytes().to_vec()
}

#[test]
fn byte_helpers_behave() {
    assert_eq!(u64_dec(0), b("0"));
    assert_eq!(u64_dec(18446744073709551615), b("18446744073709551615"));
    assert!(contains_bytes(&b("an empty response"), &b("empty")));
    assert!(!contains_bytes(&b("a full response"), &b("empty")));
    assert!(eq_bytes(&b("same"), &b("same")));
    assert!(!eq_bytes(&b("same"), &b("different")));
    assert!(eq_ignore_case(&b("SuBJect"), &b("subject")));
    assert!(!eq_ignore_case(&b("a"), &b("b")));
    assert_eq!(trim_bytes(&b("  padded\t\n")), b("padded"));
    assert!(blank_bytes(&b(" \t\r\n")));
    assert!(!blank_bytes(&b(" x ")));
    assert_eq!(find_byte(&b("a:b"), b':'), 1);
    assert_eq!(find_byte(&b("ab"), b':'), 2);
    assert_eq!(sub_bytes(&b("abcdef"), 2, 4), b("cd"));
    let parts = split_byte(&b("a:b::c"), b':');
    assert_eq!(parts, vec![b("a"), b("b"), b(""), b("c")]);
    assert_eq!(join_bytes(&parts, &b(":")), b("a:b::c"));
    assert!(starts_with_bytes(&b("code=xyz"), &b("code=")));
    let params = split_byte(&b("scope=s&code=xyz"), b'&');
    assert_eq!(find_param(&params, &b("code=")), Some(b("xyz")));
    assert_eq!(find_param(&params, &b("error=")), None);
    assert_eq!(
        replace_bytes(&b("hi {user_name}, really {user_name}"), &b("{user_name}"), &b("Ada")),
        b("hi Ada, really Ada")
    );
}

#[test]
fn json_strings_escape_like_a_canonical_serializer() {
    let mut out: Vec<u8> = Vec::new();
    push_json_string(&mut out, &b("say \"hi\"\\\n\t"));
    assert_eq!(out, b("\"say \\\"hi\\\"\\\\\\n\\t\""));

    let mut out: Vec<u8> = Vec::new();
    push_json_escaped(&mut out, &vec![0x01u8, 0x1f, b'A']);
    assert_eq!(out, b("\\u0001\\u001fA"));
}

#[test]
fn prompts_are_assembled_from_their_parts() {
    let base = render_base_prompt(
        &b("You help {user_name}. It is {current_datetime}."),
        &b("Ada"),
        &b("Monday, June 2, 2025 14:00"),
    );
    assert_eq!(base, b("You help Ada. It is Monday, June 2, 2025 14:00."));

    assert_eq!(render_sheet_context(&vec![]), b(""));
    let ctx = render_sheet_context(&vec![SpreadsheetConfig {
        alias: b("budget"),
        sheet_id: b("SID"),
        selected_tab: b(""),
        description: b("money things"),
    }]);
    let expected = format!(
        "\n\n## Available Google Spreadsheets\nThe user has registered the following spreadsheets by alias. When they mention one, delegate the task to google_agent using the alias name \u{2014} the sub-agent will resolve it to the correct spreadsheet ID.\n- **budget** \u{2014} money things"
    );
    assert_eq!(ctx, b(&expected));

    let full = render_final_prompt(&b("BASE"), &b("CTX"), &Some(b("MODE")));
    assert_eq!(full, b("BASECTX\n\nMODE"));
    let bare = render_final_prompt(&b("BASE"), &b(""), &None);
    assert_eq!(bare, b("BASE"));

    assert_eq!(effective_user_name(Some(b("Ada")), Some(b("root"))), b("Ada"));
    assert_eq!(effective_user_name(Some(b("")), Some(b("root"))), b("root"));
    assert_eq!(effective_user_name(None, None), b("User"));
}

#[test]
fn providers_classify_exactly() {
    assert_eq!(classify_provider(&b("gemini")), Some(ProviderKind::Gemini));
    assert_eq!(classify_provider(&b("openai")), Some(ProviderKind::Openai));
    assert_eq!(classify_provider(&b("anthropic")), Some(ProviderKind::Anthropic));
    assert_eq!(classify_provider(&b("ollama")), Some(ProviderKind::Ollama));
    assert_eq!(classify_provider(&b("mistral")), None);
    assert_eq!(unsupported_provider_error(&b("mistral")), b("Unsupported provider: mistral"));
    assert!(String::from_utf8(ollama_unreachable_error()).unwrap().starts_with(
        "Ollama is not running."
    ));
}

#[test]
fn desktop_tools_fix_their_scripts_and_outcomes() {
    assert_eq!(
        open_app_activate_script(&b("Safari")),
        b("activate application \"Safari\"")
    );
    assert_eq!(open_application_outcome(&b("Safari"), true), Ok(b("Opened Safari")));
    match open_application_outcome(&b("Safari"), false) {
        Err(ToolError::CommandFailed(m)) => assert_eq!(m, b("Failed to open Safari")),
        _ => panic!("a failed launch is a command error"),
    }

    let script = String::from_utf8(chrome_tab_script(&b("https://x"))).unwrap();
    assert!(script.starts_with("tell application \"Google Chrome\"\n"));
    assert!(script.contains("make new tab with properties {URL:\"https://x\"}"));
    assert!(script.ends_with("end tell"));
    assert_eq!(
        open_chrome_tab_outcome(&b("https://x"), true),
        Ok(b("Opened https://x in Chrome"))
    );
    match open_chrome_tab_outcome(&b("https://x"), false) {
        Err(ToolError::CommandFailed(m)) => assert_eq!(m, b("Failed to open Chrome tab")),
        _ => panic!("a failed script is a command error"),
    }
}

#[test]
fn memory_rules_hold() {
    assert_eq!(
        read_memory_outcome(FileReadOutcome::Content(b("  \n"))),
        Ok(b("Memory is empty."))
    );
    assert_eq!(read_memory_outcome(FileReadOutcome::Content(b("notes"))), Ok(b("notes")));
    assert_eq!(
        read_memory_outcome(FileReadOutcome::NotFound),
        Ok(b("Memory file does not exist yet. Use save_to_memory to create it."))
    );
    match read_memory_outcome(FileReadOutcome::Failure(b("denied"))) {
        Err(ToolError::Io(m)) => assert_eq!(m, b("denied")),
        _ => panic!("other failures propagate"),
    }

    assert_eq!(
        save_memory_outcome(&b("12345"), Ok(())),
        Ok(b("Memory saved (5 characters)"))
    );
    assert_eq!(appended_content(&b(""), &b("new")), b("new"));
    assert_eq!(appended_content(&b("old"), &b("new")), b("old\n\nnew"));
    assert_eq!(
        append_memory_outcome(&b("new"), Ok(())),
        Ok(b("Appended to memory (3 characters added)"))
    );
}
