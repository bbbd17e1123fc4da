use agent_server::supervisor::{
    apply_reconfigure, assemble_search_path, catalog_snapshot, joined_path,
    render_status_count_entry, render_status_entry, resolve_command, status_of, teardown_all,
    validate_provider_spec, McpConnection, ProviderStatus, RawProviderSpec, StartOutcome,
    ToolDescriptor,
};

fn b(s: &str) -> Vec<u8> {
    s.as_bytes().to_vec()
}

fn descriptor(name: &str) -> ToolDescriptor {
    ToolDescriptor { name: b(name), description: b("a tool"), schema_json: b("{}") }
}

#[test]
fn empty_reconfiguration_leaves_nothing() {
    let mut conns: Vec<McpConnection> = Vec::new();
    let statuses = apply_reconfigure(&mut conns, Vec::new());
    assert_eq!(statuses.len(), 0);
    assert_eq!(conns.len(), 0);
}

#[test]
fn one_invalid_command_is_one_error_and_no_side_effects() {
    let raw = RawProviderSpec { name: b("broken"), command: None, args: vec![], env: vec![] };
    let err = match validate_provider_spec(raw) {
        Err(m) => m,
        Ok(_) => panic!("a spec without a command must be refused"),
    };
    assert_eq!(err, b("Missing command"));

    let mut conns: Vec<McpConnection> = Vec::new();
    let statuses = apply_reconfigure(
        &mut conns,
        vec![StartOutcome::Failed { name: b("broken"), message: err }],
    );
    assert_eq!(statuses.len(), 1);
    match &statuses[0] {
        ProviderStatus::Error { name, message } => {
            assert_eq!(name, &b("broken"));
            assert_eq!(message, &b("Missing command"));
        },
        ProviderStatus::Connected { .. } => panic!("the failure must be reported as an error"),
    }
    assert_eq!(conns.len(), 0);
}

#[test]
fn failures_between_successes_do_not_disturb_them() {
    let mut conns: Vec<McpConnection> = Vec::new();
    let outcomes = vec![
        StartOutcome::Connected {
            name: b("alpha"),
            tools: vec![descriptor("a1"), descriptor("a2")],
            peer: 7,
        },
        StartOutcome::Failed { name: b("beta"), message: b("spawn failed") },
        StartOutcome::Connected { name: b("gamma"), tools: vec![descriptor("g1")], peer: 9 },
    ];
    let statuses = apply_reconfigure(&mut conns, outcomes);
    assert_eq!(statuses.len(), 3);
    assert!(matches!(&statuses[0], ProviderStatus::Connected { tool_count: 2, .. }));
    assert!(matches!(&statuses[1], ProviderStatus::Error { .. }));
    assert!(matches!(&statuses[2], ProviderStatus::Connected { tool_count: 1, .. }));
    assert_eq!(conns.len(), 2);
    assert_eq!(conns[0].name, b("alpha"));
    assert_eq!(conns[0].peer, 7);
    assert_eq!(conns[1].name, b("gamma"));
    assert_eq!(conns[1].peer, 9);
}

#[test]
fn teardown_is_total_and_reports_every_session() {
    let mut conns = vec![
        McpConnection { name: b("alpha"), tools: vec![descriptor("a1")], peer: 3 },
        McpConnection { name: b("beta"), tools: vec![], peer: 5 },
    ];
    let peers = teardown_all(&mut conns);
    assert_eq!(peers, vec![3, 5]);
    assert_eq!(conns.len(), 0);
}

#[test]
fn status_reports_names_and_counts_without_side_effects() {
    let conns = vec![McpConnection {
        name: b("alpha"),
        tools: vec![descriptor("a1"), descriptor("a2"), descriptor("a3")],
        peer: 1,
    }];
    let st = status_of(&conns);
    assert_eq!(st.len(), 1);
    match &st[0] {
        ProviderStatus::Connected { name, tool_count } => {
            assert_eq!(name, &b("alpha"));
            assert_eq!(*tool_count, 3);
        },
        ProviderStatus::Error { .. } => panic!("a live connection reports as connected"),
    }
    assert_eq!(conns.len(), 1);
}

#[test]
fn snapshots_copy_the_catalog_and_keep_the_handle() {
    let conns = vec![McpConnection { name: b("alpha"), tools: vec![descriptor("a1")], peer: 11 }];
    let snap = catalog_snapshot(&conns);
    assert_eq!(snap.len(), 1);
    assert_eq!(snap[0].1, 11);
    assert_eq!(snap[0].0.len(), 1);
    assert_eq!(snap[0].0[0].name, b("a1"));
}

#[test]
fn status_entries_render_their_fixed_shapes() {
    let ok = render_status_entry(&ProviderStatus::Connected { name: b("alpha"), tool_count: 2 });
    assert_eq!(ok, b("{\"error\":null,\"name\":\"alpha\",\"status\":\"connected\"}"));
    let bad = render_status_entry(&ProviderStatus::Error {
        name: b("beta"),
        message: b("no such file"),
    });
    assert_eq!(bad, b("{\"error\":\"no such file\",\"name\":\"beta\",\"status\":\"error\"}"));
    let counted = render_status_count_entry(&b("alpha"), 4);
    assert_eq!(counted, b("{\"name\":\"alpha\",\"status\":\"connected\",\"tools_count\":4}"));
}

#[test]
fn commands_resolve_to_the_first_directory_that_has_them() {
    let dirs = vec![b("/none"), b("/has/it"), b("/also")];
    let hits = vec![false, true, true];
    assert_eq!(resolve_command(&b("npx"), &dirs, &hits), b("/has/it/npx"));
    let no_hits = vec![false, false, false];
    assert_eq!(resolve_command(&b("npx"), &dirs, &no_hits), b("npx"));
    assert_eq!(resolve_command(&b("/abs/path"), &dirs, &hits), b("/abs/path"));
}

#[test]
fn path_joining_follows_the_directory_shape() {
    // An empty search-path segment contributes no directory; a slash-ended
    // one is not doubled.
    assert_eq!(joined_path(&b(""), &b("npx")), b("npx"));
    assert_eq!(joined_path(&b("/has/"), &b("npx")), b("/has/npx"));
    assert_eq!(joined_path(&b("/has"), &b("npx")), b("/has/npx"));
    assert_eq!(resolve_command(&b("npx"), &vec![b("")], &vec![true]), b("npx"));
    assert_eq!(resolve_command(&b("npx"), &vec![b("/d/")], &vec![true]), b("/d/npx"));
}

#[test]
fn the_search_path_is_assembled_in_order() {
    let assembled = assemble_search_path(
        vec![b("/home/me/.nvm/versions/node/v20/bin")],
        &b("/home/me"),
        &vec![true, false, true, false, false, false],
        &b("/usr/bin:/bin"),
    );
    assert_eq!(
        assembled,
        b("/home/me/.nvm/versions/node/v20/bin:/home/me/.local/bin:/usr/local/bin:/usr/bin:/bin")
    );
    // Nothing found and no inherited path: the assembly is empty.
    let empty = assemble_search_path(
        Vec::new(),
        &b("/home/me"),
        &vec![false, false, false, false, false, false],
        &b(""),
    );
    assert_eq!(empty, b(""));
}
