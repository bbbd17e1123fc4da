use agent_server::google_agent::{render_agent_preamble, unsupported_subagent_provider_error};
use agent_server::google_tools::{
    capped, create_event_body, create_event_url, decode_gmail_body, event_url, extract_text,
    google_api_error, header, http_error, list_events_url, message_full_url, message_metadata_url,
    parse_values_json, plan_spreadsheet, render_append_result, render_create_result,
    render_event_created, render_event_deleted, render_event_entry, render_event_list,
    render_event_updated, render_message, render_read_result, render_search_results,
    render_thread, render_update_result, search_gmail_url, thread_url, update_event_body,
    CalendarEventFields, CreateCalendarEventArgs, GmailHeader, GmailMessage, GmailPart,
    ListCalendarEventsArgs, ManageSpreadsheetArgs, MessageFetch, SearchGmailArgs, SheetRequest,
    UpdateCalendarEventArgs,
};
use agent_server::state::SpreadsheetConfig;

fn b(s: &str) -> Vec<u8> {
    s.as_bytes().to_vec()
}

fn part(mime: &str, data: &str, parts: Vec<GmailPart>) -> GmailPart {
    GmailPart { mime_type: b(mime), body_data: b(data), parts }
}

#[test]
fn gmail_bodies_decode_from_base64url() {
    // "aGVsbG8" is the unpadded encoding of "hello".
    assert_eq!(decode_gmail_body(&b("aGVsbG8")), b("hello"));
    // "fn5-" uses the url alphabet; the standard form is "fn5+", three tildes.
    assert_eq!(decode_gmail_body(&b("fn5-")), b("~~~"));
    assert_eq!(decode_gmail_body(&b("!!!")), b("[Could not decode body]"));
}

#[test]
fn header_lookup_ignores_case_and_misses_cleanly() {
    let hs = vec![
        GmailHeader { name: b("Subject"), value: b("Hi there") },
        GmailHeader { name: b("FROM"), value: b("alice@example.com") },
    ];
    assert_eq!(header(&hs, &b("subject")), b("Hi there"));
    assert_eq!(header(&hs, &b("From")), b("alice@example.com"));
    assert_eq!(header(&hs, &b("Date")), b(""));
}

#[test]
fn text_extraction_prefers_plain_then_html_then_nested() {
    let direct = part("text/plain", "aGVsbG8", vec![]);
    assert_eq!(extract_text(&direct), b("hello"));

    let multi = part(
        "multipart/alternative",
        "",
        vec![part("text/html", "aGVsbG8", vec![]), part("text/plain", "fn5-", vec![])],
    );
    assert_eq!(extract_text(&multi), b("~~~"));

    let html_only = part("multipart/alternative", "", vec![part("text/html", "aGVsbG8", vec![])]);
    assert_eq!(extract_text(&html_only), b("[HTML] hello"));

    let nested = part(
        "multipart/mixed",
        "",
        vec![part(
            "multipart/alternative",
            "",
            vec![part("text/plain", "aGVsbG8", vec![])],
        )],
    );
    assert_eq!(extract_text(&nested), b("hello"));

    let nothing = part("multipart/mixed", "", vec![part("image/png", "", vec![])]);
    assert_eq!(extract_text(&nothing), b("[No text content]"));
}

#[test]
fn gmail_urls_are_exact() {
    let args = SearchGmailArgs { query: b("from:alice bob"), max_results: None };
    assert_eq!(
        search_gmail_url(&args),
        b("https://gmail.googleapis.com/gmail/v1/users/me/messages?q=from%3Aalice%20bob&maxResults=10")
    );
    let args = SearchGmailArgs { query: b("x"), max_results: Some(500) };
    assert_eq!(
        search_gmail_url(&args),
        b("https://gmail.googleapis.com/gmail/v1/users/me/messages?q=x&maxResults=50")
    );
    assert_eq!(capped(&Some(7), 10, 50), 7);
    assert_eq!(
        message_metadata_url(&b("m1")),
        b("https://gmail.googleapis.com/gmail/v1/users/me/messages/m1?format=metadata&metadataHeaders=Subject&metadataHeaders=From&metadataHeaders=Date")
    );
    assert_eq!(
        message_full_url(&b("m1")),
        b("https://gmail.googleapis.com/gmail/v1/users/me/messages/m1?format=full")
    );
    assert_eq!(
        thread_url(&b("t1")),
        b("https://gmail.googleapis.com/gmail/v1/users/me/threads/t1?format=full")
    );
}

#[test]
fn search_and_message_reports_are_exact() {
    let items = vec![
        MessageFetch::Fetched {
            id: b("m1"),
            headers: vec![
                GmailHeader { name: b("From"), value: b("alice") },
                GmailHeader { name: b("Date"), value: b("Mon") },
                GmailHeader { name: b("Subject"), value: b("Hi") },
            ],
            snippet: b("snip"),
        },
        MessageFetch::Failed { id: b("m2"), error: b("HTTP error: x") },
    ];
    assert_eq!(
        render_search_results(&items),
        b("ID: m1\nFrom: alice\nDate: Mon\nSubject: Hi\nSnippet: snip\n\n---\n\nID: m2 [Error: HTTP error: x]")
    );

    let full_headers = || {
        vec![
            GmailHeader { name: b("From"), value: b("alice") },
            GmailHeader { name: b("To"), value: b("bob") },
            GmailHeader { name: b("Date"), value: b("Mon") },
            GmailHeader { name: b("Subject"), value: b("Hi") },
        ]
    };
    let payload = part("text/plain", "aGVsbG8", vec![]);
    assert_eq!(
        render_message(&full_headers(), &payload),
        b("From: alice\nTo: bob\nDate: Mon\nSubject: Hi\n\nhello")
    );

    let messages = vec![
        GmailMessage { headers: full_headers(), payload: part("text/plain", "aGVsbG8", vec![]) },
        GmailMessage { headers: full_headers(), payload: part("text/plain", "fn5-", vec![]) },
    ];
    assert_eq!(
        render_thread(&messages),
        b("--- Message 1 ---\nFrom: alice\nDate: Mon\nSubject: Hi\n\nhello\n\n--- Message 2 ---\nFrom: alice\nDate: Mon\nSubject: Hi\n\n~~~")
    );
}

#[test]
fn event_listing_urls_take_defaults_from_the_clock_value() {
    let args = ListCalendarEventsArgs {
        time_min: None,
        time_max: None,
        max_results: None,
        calendar_id: None,
    };
    assert_eq!(
        list_events_url(&args, 1000000000),
        b("https://www.googleapis.com/calendar/v3/calendars/primary/events?timeMin=2001-09-09T01%3A46%3A40Z&timeMax=2001-09-16T01%3A46%3A40Z&maxResults=20&orderBy=startTime&singleEvents=true")
    );
    let args = ListCalendarEventsArgs {
        time_min: Some(b("A")),
        time_max: Some(b("B")),
        max_results: Some(1000),
        calendar_id: Some(b("work")),
    };
    assert_eq!(
        list_events_url(&args, 0),
        b("https://www.googleapis.com/calendar/v3/calendars/work/events?timeMin=A&timeMax=B&maxResults=100&orderBy=startTime&singleEvents=true")
    );
}

#[test]
fn event_entries_render_fallbacks_and_previews() {
    let ev = CalendarEventFields {
        id: None,
        summary: None,
        start_datetime: None,
        start_date: Some(b("2024-01-15")),
        end_datetime: None,
        end_date: None,
        location: Some(b("")),
        description: None,
    };
    assert_eq!(
        render_event_entry(&ev),
        b("ID: ?\nTitle: (No title)\nStart: 2024-01-15\nEnd: ?")
    );

    let long = "d".repeat(250);
    let ev = CalendarEventFields {
        id: Some(b("e1")),
        summary: Some(b("Standup")),
        start_datetime: Some(b("S")),
        start_date: None,
        end_datetime: Some(b("E")),
        end_date: None,
        location: Some(b("HQ")),
        description: Some(b(&long)),
    };
    let expected = format!(
        "ID: e1\nTitle: Standup\nStart: S\nEnd: E\nLocation: HQ\nDescription: {}\u{2026}",
        "d".repeat(200)
    );
    assert_eq!(render_event_entry(&ev), b(&expected));

    let listing = render_event_list(&vec![CalendarEventFields {
        id: Some(b("e1")),
        summary: Some(b("T")),
        start_datetime: Some(b("S")),
        start_date: None,
        end_datetime: Some(b("E")),
        end_date: None,
        location: None,
        description: None,
    }]);
    assert_eq!(listing, b("ID: e1\nTitle: T\nStart: S\nEnd: E"));
}

#[test]
fn event_bodies_and_urls_are_exact() {
    assert_eq!(
        create_event_url(&None),
        b("https://www.googleapis.com/calendar/v3/calendars/primary/events")
    );
    let args = CreateCalendarEventArgs {
        summary: b("Standup"),
        start_datetime: b("2024-02-01T09:00:00-05:00"),
        end_datetime: b("2024-02-01T09:30:00-05:00"),
        description: None,
        location: Some(b("HQ")),
        attendees: Some(vec![b("a@x.com"), b("b@x.com")]),
        timezone: None,
        calendar_id: None,
    };
    assert_eq!(
        create_event_body(&args),
        b("{\"attendees\":[{\"email\":\"a@x.com\"},{\"email\":\"b@x.com\"}],\"end\":{\"dateTime\":\"2024-02-01T09:30:00-05:00\",\"timeZone\":\"UTC\"},\"location\":\"HQ\",\"start\":{\"dateTime\":\"2024-02-01T09:00:00-05:00\",\"timeZone\":\"UTC\"},\"summary\":\"Standup\"}")
    );
    assert_eq!(
        render_event_created(&b("e9"), &b("https://cal/e9")),
        b("\u{2705} Event created.\nID: e9\nLink: https://cal/e9")
    );

    let upd = UpdateCalendarEventArgs {
        event_id: b("e9"),
        summary: Some(b("New title")),
        description: None,
        location: None,
        start_datetime: Some(b("S2")),
        end_datetime: None,
        timezone: Some(b("America/New_York")),
        calendar_id: None,
    };
    assert_eq!(
        event_url(&upd.calendar_id, &upd.event_id),
        b("https://www.googleapis.com/calendar/v3/calendars/primary/events/e9")
    );
    assert_eq!(
        update_event_body(&upd),
        b("{\"start\":{\"dateTime\":\"S2\",\"timeZone\":\"America/New_York\"},\"summary\":\"New title\"}")
    );
    assert_eq!(
        render_event_updated(&b("e9"), &b("")),
        b("\u{2705} Event updated.\nID: e9\nLink: ")
    );
    assert_eq!(render_event_deleted(&b("e9")), b("\u{2705} Event e9 deleted."));
}

#[test]
fn spreadsheet_operations_are_planned_and_refused_exactly() {
    let plan = plan_spreadsheet(ManageSpreadsheetArgs {
        action: b("read"),
        range_name: b("Sheet1!A1:D10"),
        spreadsheet_id: Some(b("SID")),
        values_json: None,
    });
    match plan.unwrap() {
        SheetRequest::Read { url } => assert_eq!(
            url,
            b("https://sheets.googleapis.com/v4/spreadsheets/SID/values/Sheet1%21A1%3AD10")
        ),
        _ => panic!("a read was planned"),
    }

    let err = plan_spreadsheet(ManageSpreadsheetArgs {
        action: b("read"),
        range_name: b("A1"),
        spreadsheet_id: Some(b("")),
        values_json: None,
    })
    .unwrap_err();
    assert_eq!(err.0, b("spreadsheet_id is required for read"));

    let err = plan_spreadsheet(ManageSpreadsheetArgs {
        action: b("append"),
        range_name: b("A1"),
        spreadsheet_id: Some(b("SID")),
        values_json: None,
    })
    .unwrap_err();
    assert_eq!(err.0, b("values_json is required for this action"));

    let err = plan_spreadsheet(ManageSpreadsheetArgs {
        action: b("append"),
        range_name: b("A1"),
        spreadsheet_id: Some(b("SID")),
        values_json: Some(b("not json")),
    })
    .unwrap_err();
    let text = String::from_utf8(err.0).unwrap();
    assert!(text.starts_with(
        "values_json must be a JSON array-of-arrays (e.g. [[\"a\",1]]). Parse error: "
    ));

    let plan = plan_spreadsheet(ManageSpreadsheetArgs {
        action: b("append"),
        range_name: b("A1"),
        spreadsheet_id: Some(b("SID")),
        values_json: Some(b("[[\"Alice\",30]]")),
    });
    match plan.unwrap() {
        SheetRequest::Append { url, rows } => {
            assert_eq!(
                url,
                b("https://sheets.googleapis.com/v4/spreadsheets/SID/values/A1:append?valueInputOption=USER_ENTERED")
            );
            assert_eq!(rows.len(), 1);
            assert_eq!(rows[0].len(), 2);
        },
        _ => panic!("an append was planned"),
    }

    let plan = plan_spreadsheet(ManageSpreadsheetArgs {
        action: b("update"),
        range_name: b("A1"),
        spreadsheet_id: Some(b("SID")),
        values_json: Some(b("[[1]]")),
    });
    match plan.unwrap() {
        SheetRequest::Update { url, .. } => assert_eq!(
            url,
            b("https://sheets.googleapis.com/v4/spreadsheets/SID/values/A1?valueInputOption=USER_ENTERED")
        ),
        _ => panic!("an update was planned"),
    }

    let plan = plan_spreadsheet(ManageSpreadsheetArgs {
        action: b("create"),
        range_name: b("My Sheet"),
        spreadsheet_id: None,
        values_json: None,
    });
    match plan.unwrap() {
        SheetRequest::Create { url, body } => {
            assert_eq!(url, b("https://sheets.googleapis.com/v4/spreadsheets"));
            assert_eq!(body, b("{\"properties\":{\"title\":\"My Sheet\"}}"));
        },
        _ => panic!("a creation was planned"),
    }

    let err = plan_spreadsheet(ManageSpreadsheetArgs {
        action: b("delete"),
        range_name: b("A1"),
        spreadsheet_id: None,
        values_json: None,
    })
    .unwrap_err();
    assert_eq!(err.0, b("Unknown action 'delete'. Use: read, append, update, create."));

    assert!(parse_values_json(&Some(b("[[1,2],[3]]"))).is_ok());
}

#[test]
fn sheet_reports_and_api_errors_are_exact() {
    assert_eq!(
        render_read_result(&b("A1:B2"), 2, &b("[[\"a\"],[\"b\"]]")),
        b("\u{2705} Read 2 row(s) from A1:B2.\nData: [[\"a\"],[\"b\"]]")
    );
    assert_eq!(
        render_append_result(&b("A1"), 3),
        b("\u{2705} Appended 3 row(s) to A1.")
    );
    assert_eq!(
        render_update_result(&b("A1"), 4),
        b("\u{2705} Updated 4 cell(s) in A1.")
    );
    assert_eq!(
        render_create_result(&b("My Sheet"), &b("NEWID"), &b("https://sheet/NEWID")),
        b("\u{2705} Created spreadsheet 'My Sheet'. ID: NEWID\nURL: https://sheet/NEWID")
    );
    assert_eq!(
        google_api_error(&b("403 Forbidden"), &b("quota")),
        b("Google API 403 Forbidden \u{2013} quota")
    );
    assert_eq!(http_error(&b("refused")), b("HTTP error: refused"));
}

#[test]
fn the_subagent_preamble_lists_aliases() {
    let base = b("You manage the workspace.");
    assert_eq!(render_agent_preamble(&base, &vec![]), base);
    let cs = vec![
        SpreadsheetConfig {
            alias: b("budget"),
            sheet_id: b("SID1"),
            selected_tab: b("Jan"),
            description: b(""),
        },
        SpreadsheetConfig {
            alias: b("plans"),
            sheet_id: b("SID2"),
            selected_tab: b(""),
            description: b(""),
        },
    ];
    let expected = format!(
        "You manage the workspace.\n\n\n## Registered Spreadsheets (alias \u{2192} real ID)\nWhen a task refers to a spreadsheet by alias, use the corresponding ID below as the `spreadsheet_id` parameter \u{2014} NEVER pass the alias itself to the tool.\n- alias: \"budget\" \u{2192} spreadsheet_id: `SID1`, default tab: \"Jan\"\n- alias: \"plans\" \u{2192} spreadsheet_id: `SID2`"
    );
    assert_eq!(render_agent_preamble(&base, &cs), b(&expected));
    assert_eq!(
        unsupported_subagent_provider_error(&b("mistral")),
        b("Unsupported provider for Google sub-agent: mistral")
    );
}
