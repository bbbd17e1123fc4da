//! The application state and the configuration state machine: every
//! configuration request's validation, state change and reply.
//!
//! The runtime performs the file, network and process work between the
//! decision steps and hands their outcomes back in as plain values.

use vstd::prelude::*;

use crate::bytes::ascii_of;
use crate::bytes::check_of;
use crate::bytes::copy_bytes;
use crate::bytes::cross_of;
use crate::bytes::dec_of;
use crate::bytes::is_blank;
use crate::bytes::push_bytes;
use crate::bytes::push_check;
use crate::bytes::push_cross;
use crate::bytes::push_lit;
use crate::bytes::trim_bytes;
use crate::bytes::trim_of;
use crate::supervisor::McpConnection;
use crate::supervisor::ProviderStatus;
use crate::supervisor::ToolDescriptor;
use crate::wire::active_tools_message_of;
use crate::wire::server_status_message_of;
use crate::wire::simple_message;
use crate::wire::simple_message_of;

verus! {

/// A spreadsheet the user has registered, with an alias the agent can use.
#[derive(Debug)]
pub struct SpreadsheetConfig {
    pub alias: Vec<u8>,
    pub sheet_id: Vec<u8>,
    pub selected_tab: Vec<u8>,
    pub description: Vec<u8>,
}

/// The mathematical image of a spreadsheet registration.
pub struct SpreadsheetConfigModel {
    pub alias: Seq<u8>,
    pub sheet_id: Seq<u8>,
    pub selected_tab: Seq<u8>,
    pub description: Seq<u8>,
}

impl View for SpreadsheetConfig {
    type V = SpreadsheetConfigModel;

    open spec fn view(&self) -> SpreadsheetConfigModel {
        SpreadsheetConfigModel {
            alias: self.alias@,
            sheet_id: self.sheet_id@,
            selected_tab: self.selected_tab@,
            description: self.description@,
        }
    }
}

/// An exact copy of one registration.
pub fn clone_spreadsheet_config(c: &SpreadsheetConfig) -> (r: SpreadsheetConfig)
    ensures
        r@ == c@,
{
    SpreadsheetConfig {
        alias: copy_bytes(&c.alias),
        sheet_id: copy_bytes(&c.sheet_id),
        selected_tab: copy_bytes(&c.selected_tab),
        description: copy_bytes(&c.description),
    }
}

/// An exact copy of the registration list.
pub fn clone_spreadsheet_configs(v: &Vec<SpreadsheetConfig>) -> (r: Vec<SpreadsheetConfig>)
    ensures
        r@.len() == v@.len(),
        forall|i: int| 0 <= i < v@.len() ==> r@[i]@ == v@[i]@,
{
    let mut r: Vec<SpreadsheetConfig> = Vec::new();
    let mut i: usize = 0;
    while i < v.len()
        invariant
            i <= v.len(),
            r@.len() == i,
            forall|k: int| 0 <= k < i ==> r@[k]@ == v@[k]@,
        decreases v.len() - i,
    {
        r.push(clone_spreadsheet_config(&v[i]));
        i = i + 1;
    }
    r
}

/// One chat connection's shared application state.
#[derive(Debug)]
pub struct AppState {
    pub current_model: Vec<u8>,
    pub current_provider: Vec<u8>,
    pub api_key: Option<Vec<u8>>,
    pub credentials_file_path: Option<Vec<u8>>,
    pub token_file_path: Option<Vec<u8>>,
    pub google_access_token: Option<Vec<u8>>,
    pub mcp_connections: Vec<McpConnection>,
    pub spreadsheet_configs: Vec<SpreadsheetConfig>,
}

/// The model/provider selection is the same in both states.
pub open spec fn same_llm(a: AppState, b: AppState) -> bool {
    a.current_model == b.current_model && a.current_provider == b.current_provider
}

/// The Google credential fields are the same in both states.
pub open spec fn same_google(a: AppState, b: AppState) -> bool {
    a.credentials_file_path == b.credentials_file_path && a.token_file_path == b.token_file_path
        && a.google_access_token == b.google_access_token
}

/// The provider connections are the same in both states.
pub open spec fn same_mcp(a: AppState, b: AppState) -> bool {
    a.mcp_connections == b.mcp_connections
}

/// The spreadsheet registrations are the same in both states.
pub open spec fn same_sheets(a: AppState, b: AppState) -> bool {
    a.spreadsheet_configs == b.spreadsheet_configs
}

impl AppState {
    /// The startup state: the default model selection and nothing else.
    pub fn new() -> (s: AppState)
        ensures
            s.current_model@ == ascii_of("gemini-2.5-flash"@),
            s.current_provider@ == ascii_of("gemini"@),
            s.api_key is None,
            s.credentials_file_path is None,
            s.token_file_path is None,
            s.google_access_token is None,
            s.mcp_connections@.len() == 0,
            s.spreadsheet_configs@.len() == 0,
    {
        proof {
            reveal_strlit("gemini-2.5-flash");
            reveal_strlit("gemini");
        }
        AppState {
            current_model: crate::bytes::lit("gemini-2.5-flash"),
            current_provider: crate::bytes::lit("gemini"),
            api_key: None,
            credentials_file_path: None,
            token_file_path: None,
            google_access_token: None,
            mcp_connections: Vec::new(),
            spreadsheet_configs: Vec::new(),
        }
    }

    /// A turn-scoped snapshot of every connected provider's catalog with its
    /// call handle.
    pub fn all_mcp_tools(&self) -> (r: Vec<(Vec<ToolDescriptor>, usize)>)
        ensures
            r@.len() == self.mcp_connections@.len(),
            forall|i: int|
                0 <= i < self.mcp_connections@.len() ==> (#[trigger] r@[i]).1
                    == self.mcp_connections@[i].peer && r@[i].0@.len()
                    == self.mcp_connections@[i].tools@.len() && (forall|j: int|
                    0 <= j < self.mcp_connections@[i].tools@.len() ==> (#[trigger] r@[i].0@[j])@
                        == self.mcp_connections@[i].tools@[j]@),
    {
        crate::supervisor::catalog_snapshot(&self.mcp_connections)
    }

    /// Stores the received API key and acknowledges it.
    pub fn set_api_key(&mut self, key: Vec<u8>) -> (reply: Vec<u8>)
        ensures
            final(self).api_key == Some(key),
            same_llm(*old(self), *final(self)),
            same_google(*old(self), *final(self)),
            same_mcp(*old(self), *final(self)),
            same_sheets(*old(self), *final(self)),
            reply@ == simple_message_of(ascii_of("credentials_success"@), ascii_of(
                "API Key stored."@,
            )),
    {
        proof {
            reveal_strlit("credentials_success");
            reveal_strlit("API Key stored.");
        }
        self.api_key = Some(key);
        let t = crate::bytes::lit("credentials_success");
        let c = crate::bytes::lit("API Key stored.");
        simple_message(&t, &c)
    }

    /// Installs freshly authenticated Google credentials, or reports the
    /// failure.  On failure the state is untouched and the second component
    /// asks the runtime to delete the stale token file.
    pub fn apply_credentials_result(
        &mut self,
        credentials_path: Vec<u8>,
        token_path: Vec<u8>,
        auth: Result<Vec<u8>, Vec<u8>>,
    ) -> (out: (Vec<u8>, bool))
        ensures
            same_llm(*old(self), *final(self)),
            same_mcp(*old(self), *final(self)),
            same_sheets(*old(self), *final(self)),
            final(self).api_key == old(self).api_key,
            auth is Ok ==> final(self).credentials_file_path == Some(credentials_path) && final(self).token_file_path == Some(token_path) && final(self).google_access_token
                == Some(auth->Ok_0),
            auth is Ok ==> out.0@ == simple_message_of(ascii_of("credentials_success"@), check_of()
                + ascii_of(" Credentials received and stored successfully."@)) && out.1 == false,
            auth is Err ==> same_google(*old(self), *final(self)) && out.1 == true && out.0@
                == simple_message_of(ascii_of("credentials_error"@), cross_of() + ascii_of(
                " Error during authentication: "@,
            ) + auth->Err_0@),
    {
        proof {
            reveal_strlit("credentials_success");
            reveal_strlit("credentials_error");
            reveal_strlit(" Credentials received and stored successfully.");
            reveal_strlit(" Error during authentication: ");
        }
        match auth {
            Ok(token) => {
                self.credentials_file_path = Some(credentials_path);
                self.token_file_path = Some(token_path);
                self.google_access_token = Some(token);
                let t = crate::bytes::lit("credentials_success");
                let mut c: Vec<u8> = Vec::new();
                push_check(&mut c);
                push_lit(&mut c, " Credentials received and stored successfully.");
                (simple_message(&t, &c), false)
            },
            Err(e) => {
                let t = crate::bytes::lit("credentials_error");
                let mut c: Vec<u8> = Vec::new();
                push_cross(&mut c);
                push_lit(&mut c, " Error during authentication: ");
                push_bytes(&mut c, &e);
                (simple_message(&t, &c), true)
            },
        }
    }

    /// Clears the API key and every Google credential field; reports which
    /// token file the runtime should delete.
    pub fn revoke_credentials(&mut self) -> (out: (Vec<u8>, Option<Vec<u8>>))
        ensures
            same_llm(*old(self), *final(self)),
            same_mcp(*old(self), *final(self)),
            same_sheets(*old(self), *final(self)),
            final(self).api_key is None,
            final(self).credentials_file_path is None,
            final(self).token_file_path is None,
            final(self).google_access_token is None,
            out.1 == old(self).token_file_path,
            out.0@ == simple_message_of(ascii_of("credentials_revoked"@), check_of() + ascii_of(
                " Credentials revoked successfully."@,
            )),
    {
        proof {
            reveal_strlit("credentials_revoked");
            reveal_strlit(" Credentials revoked successfully.");
        }
        self.api_key = None;
        let mut token_path: Option<Vec<u8>> = None;
        core::mem::swap(&mut token_path, &mut self.token_file_path);
        self.credentials_file_path = None;
        self.google_access_token = None;
        let t = crate::bytes::lit("credentials_revoked");
        let mut c: Vec<u8> = Vec::new();
        push_check(&mut c);
        push_lit(&mut c, " Credentials revoked successfully.");
        (simple_message(&t, &c), token_path)
    }

    /// Stores a verified model selection, or reports why it was refused.
    /// `verified` is the outcome of the runtime's test call.
    pub fn apply_set_llm(
        &mut self,
        provider: Vec<u8>,
        model: Vec<u8>,
        api_key: Vec<u8>,
        verified: Result<(), Vec<u8>>,
    ) -> (reply: Vec<u8>)
        ensures
            same_google(*old(self), *final(self)),
            same_mcp(*old(self), *final(self)),
            same_sheets(*old(self), *final(self)),
            verified is Ok ==> final(self).current_provider@ == provider@ && final(self).current_model@ == model@,
            verified is Ok && api_key@.len() > 0 ==> final(self).api_key is Some && final(self).api_key->0@
                == api_key@,
            verified is Ok && api_key@.len() == 0 ==> final(self).api_key == old(self).api_key,
            verified is Ok ==> reply@ == simple_message_of(ascii_of("llm_set_success"@), check_of()
                + ascii_of(" LLM verified and set to "@) + provider@ + ascii_of("/"@) + model@),
            verified is Err ==> same_llm(*old(self), *final(self)) && final(self).api_key == old(self).api_key && reply@ == simple_message_of(ascii_of("llm_set_error"@), cross_of()
                + ascii_of(" "@) + verified->Err_0@),
    {
        proof {
            reveal_strlit("llm_set_success");
            reveal_strlit("llm_set_error");
            reveal_strlit(" LLM verified and set to ");
            reveal_strlit("/");
            reveal_strlit(" ");
        }
        match verified {
            Ok(()) => {
                let mut c: Vec<u8> = Vec::new();
                push_check(&mut c);
                push_lit(&mut c, " LLM verified and set to ");
                push_bytes(&mut c, &provider);
                push_lit(&mut c, "/");
                push_bytes(&mut c, &model);
                if api_key.len() > 0 {
                    self.api_key = Some(api_key);
                }
                self.current_provider = provider;
                self.current_model = model;
                let t = crate::bytes::lit("llm_set_success");
                simple_message(&t, &c)
            },
            Err(e) => {
                let t = crate::bytes::lit("llm_set_error");
                let mut c: Vec<u8> = Vec::new();
                push_cross(&mut c);
                push_lit(&mut c, " ");
                push_bytes(&mut c, &e);
                simple_message(&t, &c)
            },
        }
    }
}

/// Refuses a model selection before any test call: the model name must not
/// be empty, and every provider but the local one needs an API key.
pub fn validate_set_llm(provider: &Vec<u8>, model: &Vec<u8>, api_key: &Vec<u8>) -> (r: Result<
    (),
    Vec<u8>,
>)
    ensures
        model@.len() == 0 ==> r is Err && r->Err_0@ == simple_message_of(
            ascii_of("llm_set_error"@),
            cross_of() + ascii_of(" Model name cannot be empty."@),
        ),
        model@.len() > 0 && provider@ != ascii_of("ollama"@) && api_key@.len() == 0 ==> r is Err
            && r->Err_0@ == simple_message_of(ascii_of("llm_set_error"@), cross_of() + ascii_of(
            " API key is required for this provider."@,
        )),
        model@.len() > 0 && (provider@ == ascii_of("ollama"@) || api_key@.len() > 0) ==> r is Ok,
{
    proof {
        reveal_strlit("llm_set_error");
        reveal_strlit(" Model name cannot be empty.");
        reveal_strlit(" API key is required for this provider.");
        reveal_strlit("ollama");
    }
    let t = crate::bytes::lit("llm_set_error");
    if model.len() == 0 {
        let mut c: Vec<u8> = Vec::new();
        push_cross(&mut c);
        push_lit(&mut c, " Model name cannot be empty.");
        return Err(simple_message(&t, &c));
    }
    let ollama = crate::bytes::lit("ollama");
    if !crate::bytes::eq_bytes(provider, &ollama) && api_key.len() == 0 {
        let mut c: Vec<u8> = Vec::new();
        push_cross(&mut c);
        push_lit(&mut c, " API key is required for this provider.");
        return Err(simple_message(&t, &c));
    }
    Ok(())
}

/// Clears the session history on the explicit reset command.
pub fn reset_session(history: &mut Vec<crate::relay::ChatMessage>) -> (reply: Vec<u8>)
    ensures
        final(history)@.len() == 0,
        reply@ == simple_message_of(ascii_of("session_reset"@), ascii_of("Session cleared."@)),
{
    proof {
        reveal_strlit("session_reset");
        reveal_strlit("Session cleared.");
    }
    history.clear();
    let t = crate::bytes::lit("session_reset");
    let c = crate::bytes::lit("Session cleared.");
    simple_message(&t, &c)
}

/// The reply sent when the provider configuration has an unusable shape.
pub fn mcp_config_invalid_reply() -> (reply: Vec<u8>)
    ensures
        reply@ == simple_message_of(ascii_of("mcp_sync_error"@), ascii_of(
            "Invalid MCP config format."@,
        )),
{
    proof {
        reveal_strlit("mcp_sync_error");
        reveal_strlit("Invalid MCP config format.");
    }
    let t = crate::bytes::lit("mcp_sync_error");
    let c = crate::bytes::lit("Invalid MCP config format.");
    simple_message(&t, &c)
}

/// The wire entry of one reconfiguration status record.
pub open spec fn status_entry_of(s: ProviderStatus) -> Seq<u8> {
    match s {
        ProviderStatus::Connected { name, .. } => crate::supervisor::status_entry_connected_of(
            name@,
        ),
        ProviderStatus::Error { name, message } => crate::supervisor::status_entry_error_of(
            name@,
            message@,
        ),
    }
}

/// Renders the two replies that close a reconfiguration: the per-provider
/// status report and the sync acknowledgement.
pub fn mcp_sync_replies(statuses: &Vec<ProviderStatus>) -> (out: (Vec<u8>, Vec<u8>))
    ensures
        out.0@ == server_status_message_of(statuses@.map_values(|s: ProviderStatus| status_entry_of(s))),
        out.1@ == simple_message_of(ascii_of("mcp_sync_success"@), ascii_of(
            "MCP servers synced."@,
        )),
{
    proof {
        reveal_strlit("mcp_sync_success");
        reveal_strlit("MCP servers synced.");
    }
    let mut entries: Vec<Vec<u8>> = Vec::new();
    let mut i: usize = 0;
    while i < statuses.len()
        invariant
            i <= statuses.len(),
            entries@.len() == i,
            forall|k: int| 0 <= k < i ==> (#[trigger] entries@[k])@ == status_entry_of(statuses@[k]),
        decreases statuses.len() - i,
    {
        entries.push(crate::supervisor::render_status_entry(&statuses[i]));
        i = i + 1;
    }
    let status_msg = crate::wire::server_status_message(&entries);
    proof {
        assert(entries@.map_values(|p: Vec<u8>| p@) =~= statuses@.map_values(
            |s: ProviderStatus| status_entry_of(s),
        ));
    }
    let t = crate::bytes::lit("mcp_sync_success");
    let c = crate::bytes::lit("MCP servers synced.");
    (status_msg, simple_message(&t, &c))
}

/// Answers the status query from the live connection set, without side
/// effects.
pub fn mcp_status_reply(conns: &Vec<McpConnection>) -> (reply: Vec<u8>)
    ensures
        reply@ == server_status_message_of(
            Seq::new(
                conns@.len(),
                |i: int|
                    crate::supervisor::status_entry_count_of(
                        conns@[i].name@,
                        conns@[i].tools@.len(),
                    ),
            ),
        ),
{
    let mut entries: Vec<Vec<u8>> = Vec::new();
    let mut i: usize = 0;
    while i < conns.len()
        invariant
            i <= conns.len(),
            entries@.len() == i,
            forall|k: int|
                0 <= k < i ==> (#[trigger] entries@[k])@ == crate::supervisor::status_entry_count_of(
                    conns@[k].name@,
                    conns@[k].tools@.len(),
                ),
        decreases conns.len() - i,
    {
        let c = &conns[i];
        entries.push(crate::supervisor::render_status_count_entry(&c.name, c.tools.len()));
        i = i + 1;
    }
    let reply = crate::wire::server_status_message(&entries);
    proof {
        assert(entries@.map_values(|p: Vec<u8>| p@) =~= Seq::new(
            conns@.len(),
            |i: int|
                crate::supervisor::status_entry_count_of(conns@[i].name@, conns@[i].tools@.len()),
        ));
    }
    reply
}

/// Keeps the registrations whose alias and sheet id are both present, in
/// order.
pub open spec fn kept_sheets(raw: Seq<SpreadsheetConfigModel>) -> Seq<SpreadsheetConfigModel>
    decreases raw.len(),
{
    if raw.len() == 0 {
        raw
    } else if raw.last().alias.len() > 0 && raw.last().sheet_id.len() > 0 {
        kept_sheets(raw.drop_last()).push(raw.last())
    } else {
        kept_sheets(raw.drop_last())
    }
}

impl AppState {
    /// Replaces the spreadsheet registrations with the valid entries of the
    /// received list and acknowledges how many were kept.
    pub fn sync_spreadsheets(&mut self, raw: Vec<SpreadsheetConfig>) -> (reply: Vec<u8>)
        ensures
            same_llm(*old(self), *final(self)),
            same_google(*old(self), *final(self)),
            same_mcp(*old(self), *final(self)),
            final(self).api_key == old(self).api_key,
            final(self).spreadsheet_configs@.map_values(|c: SpreadsheetConfig| c@) == kept_sheets(
                raw@.map_values(|c: SpreadsheetConfig| c@),
            ),
            reply@ == simple_message_of(ascii_of("spreadsheets_synced"@), check_of() + ascii_of(
                " Synced "@,
            ) + dec_of(kept_sheets(raw@.map_values(|c: SpreadsheetConfig| c@)).len()) + ascii_of(
                " spreadsheet(s)"@,
            )),
    {
        proof {
            reveal_strlit("spreadsheets_synced");
            reveal_strlit(" Synced ");
            reveal_strlit(" spreadsheet(s)");
        }
        let ghost rawm = raw@.map_values(|c: SpreadsheetConfig| c@);
        let mut kept: Vec<SpreadsheetConfig> = Vec::new();
        let mut i: usize = 0;
        while i < raw.len()
            invariant
                i <= raw.len(),
                rawm == raw@.map_values(|c: SpreadsheetConfig| c@),
                kept@.map_values(|c: SpreadsheetConfig| c@) == kept_sheets(rawm.take(i as int)),
            decreases raw.len() - i,
        {
            let ghost before = kept@.map_values(|c: SpreadsheetConfig| c@);
            let c = &raw[i];
            proof {
                assert(rawm.take(i + 1).drop_last() =~= rawm.take(i as int));
                assert(rawm.take(i + 1).last() == rawm[i as int]);
            }
            if c.alias.len() > 0 && c.sheet_id.len() > 0 {
                kept.push(clone_spreadsheet_config(c));
                proof {
                    assert(kept@.map_values(|c: SpreadsheetConfig| c@) =~= before.push(
                        rawm[i as int],
                    ));
                }
            }
            i = i + 1;
        }
        proof {
            assert(rawm.take(raw@.len() as int) =~= rawm);
        }
        let count = kept.len();
        self.spreadsheet_configs = kept;
        let t = crate::bytes::lit("spreadsheets_synced");
        let mut c: Vec<u8> = Vec::new();
        push_check(&mut c);
        push_lit(&mut c, " Synced ");
        crate::bytes::push_u64_dec(&mut c, count as u64);
        push_lit(&mut c, " spreadsheet(s)");
        simple_message(&t, &c)
    }
}

/// The acknowledgement or error reply after the runtime wrote the memory
/// file.
pub fn save_memory_reply(io: &Result<(), Vec<u8>>) -> (reply: Vec<u8>)
    ensures
        io is Ok ==> reply@ == simple_message_of(ascii_of("memory_saved"@), check_of() + ascii_of(
            " Memory saved successfully"@,
        )),
        io matches Err(e) ==> reply@ == simple_message_of(ascii_of("memory_error"@), cross_of()
            + ascii_of(" Error saving memory: "@) + e@),
{
    proof {
        reveal_strlit("memory_saved");
        reveal_strlit("memory_error");
        reveal_strlit(" Memory saved successfully");
        reveal_strlit(" Error saving memory: ");
    }
    match io {
        Ok(()) => {
            let t = crate::bytes::lit("memory_saved");
            let mut c: Vec<u8> = Vec::new();
            push_check(&mut c);
            push_lit(&mut c, " Memory saved successfully");
            simple_message(&t, &c)
        },
        Err(e) => {
            let t = crate::bytes::lit("memory_error");
            let mut c: Vec<u8> = Vec::new();
            push_cross(&mut c);
            push_lit(&mut c, " Error saving memory: ");
            push_bytes(&mut c, e);
            simple_message(&t, &c)
        },
    }
}

/// The memory file's contents as a reply.
pub fn memory_content_reply(content: &Vec<u8>) -> (reply: Vec<u8>)
    ensures
        reply@ == simple_message_of(ascii_of("memory_content"@), content@),
{
    proof {
        reveal_strlit("memory_content");
    }
    let t = crate::bytes::lit("memory_content");
    simple_message(&t, content)
}

/// One tool entry of the active-tools report.
pub open spec fn tool_entry_of(name: Seq<u8>, source: Seq<u8>) -> Seq<u8> {
    ascii_of("{\"name\":"@) + crate::json::json_string_of(name) + ascii_of(",\"source\":"@)
        + crate::json::json_string_of(source) + ascii_of("}"@)
}

/// Renders one tool entry.
pub fn tool_entry(name: &Vec<u8>, source: &Vec<u8>) -> (r: Vec<u8>)
    ensures
        r@ == tool_entry_of(name@, source@),
{
    proof {
        reveal_strlit("{\"name\":");
        reveal_strlit(",\"source\":");
        reveal_strlit("}");
    }
    let mut r = crate::bytes::lit("{\"name\":");
    crate::json::push_json_string(&mut r, name);
    push_lit(&mut r, ",\"source\":");
    crate::json::push_json_string(&mut r, source);
    push_lit(&mut r, "}");
    assert(r@ =~= tool_entry_of(name@, source@));
    r
}

/// The six built-in tool entries, in their fixed order.
pub open spec fn builtin_tool_entries() -> Seq<Seq<u8>> {
    seq![
        tool_entry_of(ascii_of("calculator"@), ascii_of("built-in"@)),
        tool_entry_of(ascii_of("open_application"@), ascii_of("built-in"@)),
        tool_entry_of(ascii_of("open_chrome_tab"@), ascii_of("built-in"@)),
        tool_entry_of(ascii_of("read_memory"@), ascii_of("built-in"@)),
        tool_entry_of(ascii_of("save_to_memory"@), ascii_of("built-in"@)),
        tool_entry_of(ascii_of("append_to_memory"@), ascii_of("built-in"@)),
    ]
}

/// The workspace sub-agent's entry, present only with a Google token.
pub open spec fn google_tool_entry() -> Seq<u8> {
    ascii_of("{\"description\":\"Gmail "@) + crate::bytes::middot_of() + ascii_of(" Calendar "@)
        + crate::bytes::middot_of() + ascii_of(
        " Sheets sub-agent\",\"name\":\"google_agent\",\"source\":\"google\"}"@,
    )
}

/// The entries of one provider's tools, sourced `mcp:<provider>`.
pub open spec fn conn_tool_entries(c: McpConnection) -> Seq<Seq<u8>> {
    Seq::new(
        c.tools@.len(),
        |j: int| tool_entry_of(c.tools@[j].name@, ascii_of("mcp:"@) + c.name@),
    )
}

/// The entries of every connected provider's tools, providers in order.
pub open spec fn mcp_tool_entries(conns: Seq<McpConnection>) -> Seq<Seq<u8>>
    decreases conns.len(),
{
    if conns.len() == 0 {
        Seq::empty()
    } else {
        mcp_tool_entries(conns.drop_last()) + conn_tool_entries(conns.last())
    }
}

/// Every tool the next turn could call: the built-ins, the workspace
/// sub-agent when a Google token stands, and every provider's tools.
pub open spec fn tools_list_entries(s: AppState) -> Seq<Seq<u8>> {
    builtin_tool_entries() + (if s.google_access_token is Some {
        seq![google_tool_entry()]
    } else {
        Seq::<Seq<u8>>::empty()
    }) + mcp_tool_entries(s.mcp_connections@)
}

impl AppState {
    /// Answers the active-tools query.
    pub fn active_tools_reply(&self) -> (r: Vec<u8>)
        ensures
            r@ == active_tools_message_of(tools_list_entries(*self)),
    {
        proof {
            reveal_strlit("calculator");
            reveal_strlit("open_application");
            reveal_strlit("open_chrome_tab");
            reveal_strlit("read_memory");
            reveal_strlit("save_to_memory");
            reveal_strlit("append_to_memory");
            reveal_strlit("built-in");
            reveal_strlit("{\"description\":\"Gmail ");
            reveal_strlit(" Calendar ");
            reveal_strlit(" Sheets sub-agent\",\"name\":\"google_agent\",\"source\":\"google\"}");
            reveal_strlit("mcp:");
        }
        let source = crate::bytes::lit("built-in");
        let mut entries: Vec<Vec<u8>> = Vec::new();
        let n0 = crate::bytes::lit("calculator");
        entries.push(tool_entry(&n0, &source));
        let n1 = crate::bytes::lit("open_application");
        entries.push(tool_entry(&n1, &source));
        let n2 = crate::bytes::lit("open_chrome_tab");
        entries.push(tool_entry(&n2, &source));
        let n3 = crate::bytes::lit("read_memory");
        entries.push(tool_entry(&n3, &source));
        let n4 = crate::bytes::lit("save_to_memory");
        entries.push(tool_entry(&n4, &source));
        let n5 = crate::bytes::lit("append_to_memory");
        entries.push(tool_entry(&n5, &source));
        let ghost fixed_len: int = entries@.len() as int;
        if self.google_access_token.is_some() {
            let mut g = crate::bytes::lit("{\"description\":\"Gmail ");
            crate::bytes::push_middot(&mut g);
            push_lit(&mut g, " Calendar ");
            crate::bytes::push_middot(&mut g);
            push_lit(&mut g, " Sheets sub-agent\",\"name\":\"google_agent\",\"source\":\"google\"}");
            assert(g@ =~= google_tool_entry());
            entries.push(g);
        }
        let ghost head = entries@.map_values(|p: Vec<u8>| p@);
        proof {
            assert(head =~= builtin_tool_entries() + (if self.google_access_token is Some {
                seq![google_tool_entry()]
            } else {
                Seq::<Seq<u8>>::empty()
            }));
        }
        let mcp_prefix = crate::bytes::lit("mcp:");
        let mut i: usize = 0;
        while i < self.mcp_connections.len()
            invariant
                i <= self.mcp_connections@.len(),
                mcp_prefix@ == ascii_of("mcp:"@),
                head == builtin_tool_entries() + (if self.google_access_token is Some {
                    seq![google_tool_entry()]
                } else {
                    Seq::<Seq<u8>>::empty()
                }),
                entries@.map_values(|p: Vec<u8>| p@) == head + mcp_tool_entries(
                    self.mcp_connections@.take(i as int),
                ),
            decreases self.mcp_connections@.len() - i,
        {
            let c = &self.mcp_connections[i];
            let mut src = crate::bytes::lit("mcp:");
            crate::bytes::push_bytes(&mut src, &c.name);
            let ghost before = entries@.map_values(|p: Vec<u8>| p@);
            let mut j: usize = 0;
            while j < c.tools.len()
                invariant
                    j <= c.tools@.len(),
                    src@ == ascii_of("mcp:"@) + c.name@,
                    c == &self.mcp_connections@[i as int],
                    i < self.mcp_connections@.len(),
                    before == head + mcp_tool_entries(self.mcp_connections@.take(i as int)),
                    entries@.map_values(|p: Vec<u8>| p@) == before + conn_tool_entries(
                        self.mcp_connections@[i as int],
                    ).take(j as int),
                decreases c.tools@.len() - j,
            {
                let ghost prev_map = entries@.map_values(|p: Vec<u8>| p@);
                let e = tool_entry(&c.tools[j].name, &src);
                proof {
                    let ce = conn_tool_entries(self.mcp_connections@[i as int]);
                    assert(ce[j as int] == tool_entry_of(
                        self.mcp_connections@[i as int].tools@[j as int].name@,
                        ascii_of("mcp:"@) + self.mcp_connections@[i as int].name@,
                    ));
                    assert(e@ == ce[j as int]);
                }
                entries.push(e);
                proof {
                    let ce = conn_tool_entries(self.mcp_connections@[i as int]);
                    assert(entries@.map_values(|p: Vec<u8>| p@) =~= prev_map.push(ce[j as int]));
                    assert(ce.take(j + 1) =~= ce.take(j as int).push(ce[j as int]));
                    assert(prev_map.push(ce[j as int]) =~= before + ce.take(j + 1));
                }
                j = j + 1;
            }
            proof {
                assert(conn_tool_entries(self.mcp_connections@[i as int]).take(
                    c.tools@.len() as int,
                ) =~= conn_tool_entries(self.mcp_connections@[i as int]));
                assert(self.mcp_connections@.take(i + 1).drop_last() =~= self.mcp_connections@.take(
                    i as int,
                ));
                assert(self.mcp_connections@.take(i + 1).last() == self.mcp_connections@[i as int]);
                assert(entries@.map_values(|p: Vec<u8>| p@) =~= head + mcp_tool_entries(
                    self.mcp_connections@.take(i + 1),
                ));
            }
            i = i + 1;
        }
        proof {
            assert(self.mcp_connections@.take(self.mcp_connections@.len() as int)
                =~= self.mcp_connections@);
        }
        let r = crate::wire::active_tools_message(&entries);
        proof {
            assert(entries@.map_values(|p: Vec<u8>| p@) =~= tools_list_entries(*self));
        }
        r
    }
}

/// The sheet-metadata request for one spreadsheet.
pub open spec fn sheet_tabs_url_of(id: Seq<u8>) -> Seq<u8> {
    ascii_of("https://sheets.googleapis.com/v4/spreadsheets/"@) + id + ascii_of(
        "?fields=properties.title,sheets.properties.title"@,
    )
}

/// The failure reply of the sheet-tabs query.
pub open spec fn sheet_tabs_fail_of(msg: Seq<u8>) -> Seq<u8> {
    ascii_of("{\"content\":{\"error\":"@) + crate::json::json_string_of(msg) + ascii_of(
        ",\"success\":false},\"type\":\"sheet_tabs_result\"}"@,
    )
}

/// Renders the failure reply of the sheet-tabs query.
pub fn sheet_tabs_error_reply(msg: &Vec<u8>) -> (r: Vec<u8>)
    ensures
        r@ == sheet_tabs_fail_of(msg@),
{
    proof {
        reveal_strlit("{\"content\":{\"error\":");
        reveal_strlit(",\"success\":false},\"type\":\"sheet_tabs_result\"}");
    }
    let mut r = crate::bytes::lit("{\"content\":{\"error\":");
    crate::json::push_json_string(&mut r, msg);
    push_lit(&mut r, ",\"success\":false},\"type\":\"sheet_tabs_result\"}");
    assert(r@ =~= sheet_tabs_fail_of(msg@));
    r
}

/// The success reply of the sheet-tabs query: the spreadsheet's title and
/// its tab names.
pub open spec fn sheet_tabs_success_of(title: Seq<u8>, tabs: Seq<Seq<u8>>) -> Seq<u8> {
    ascii_of("{\"content\":{\"success\":true,\"tabs\":["@) + crate::bytes::join_of(
        tabs.map_values(|t: Seq<u8>| crate::json::json_string_of(t)),
        ascii_of(","@),
    ) + ascii_of("],\"title\":"@) + crate::json::json_string_of(title) + ascii_of(
        "},\"type\":\"sheet_tabs_result\"}"@,
    )
}

/// Renders the success reply of the sheet-tabs query.
pub fn sheet_tabs_success_reply(title: &Vec<u8>, tabs: &Vec<Vec<u8>>) -> (r: Vec<u8>)
    ensures
        r@ == sheet_tabs_success_of(title@, tabs@.map_values(|t: Vec<u8>| t@)),
{
    proof {
        reveal_strlit("{\"content\":{\"success\":true,\"tabs\":[");
        reveal_strlit("],\"title\":");
        reveal_strlit("},\"type\":\"sheet_tabs_result\"}");
        reveal_strlit(",");
    }
    let mut quoted: Vec<Vec<u8>> = Vec::new();
    let mut i: usize = 0;
    while i < tabs.len()
        invariant
            i <= tabs.len(),
            quoted@.len() == i,
            forall|k: int|
                0 <= k < i ==> (#[trigger] quoted@[k])@ == crate::json::json_string_of(tabs@[k]@),
        decreases tabs.len() - i,
    {
        let mut q: Vec<u8> = Vec::new();
        crate::json::push_json_string(&mut q, &tabs[i]);
        quoted.push(q);
        i = i + 1;
    }
    let mut r = crate::bytes::lit("{\"content\":{\"success\":true,\"tabs\":[");
    let sep = crate::bytes::lit(",");
    let mut joined = crate::bytes::join_bytes(&quoted, &sep);
    r.append(&mut joined);
    push_lit(&mut r, "],\"title\":");
    crate::json::push_json_string(&mut r, title);
    push_lit(&mut r, "},\"type\":\"sheet_tabs_result\"}");
    proof {
        assert(quoted@.map_values(|p: Vec<u8>| p@) =~= tabs@.map_values(|t: Vec<u8>| t@).map_values(
            |t: Seq<u8>| crate::json::json_string_of(t),
        ));
        assert(r@ =~= sheet_tabs_success_of(title@, tabs@.map_values(|t: Vec<u8>| t@)));
    }
    r
}

impl AppState {
    /// Weighs a sheet-tabs query: the id must be present and a Google token
    /// must stand; the reward is the metadata request to send.
    pub fn sheet_tabs_plan(&self, spreadsheet_id: &Vec<u8>) -> (r: Result<Vec<u8>, Vec<u8>>)
        ensures
            spreadsheet_id@.len() == 0 ==> r is Err && r->Err_0@ == sheet_tabs_fail_of(
                ascii_of("Missing spreadsheet_id."@),
            ),
            spreadsheet_id@.len() > 0 && self.google_access_token is None ==> r is Err
                && r->Err_0@ == sheet_tabs_fail_of(
                ascii_of(
                    "Not authenticated with Google. Please connect your Google account first."@,
                ),
            ),
            spreadsheet_id@.len() > 0 && self.google_access_token is Some ==> r is Ok && r->Ok_0@
                == sheet_tabs_url_of(spreadsheet_id@),
    {
        proof {
            reveal_strlit("Missing spreadsheet_id.");
            reveal_strlit(
                "Not authenticated with Google. Please connect your Google account first.",
            );
            reveal_strlit("https://sheets.googleapis.com/v4/spreadsheets/");
            reveal_strlit("?fields=properties.title,sheets.properties.title");
        }
        if spreadsheet_id.len() == 0 {
            let m = crate::bytes::lit("Missing spreadsheet_id.");
            return Err(sheet_tabs_error_reply(&m));
        }
        if self.google_access_token.is_none() {
            let m = crate::bytes::lit(
                "Not authenticated with Google. Please connect your Google account first.",
            );
            return Err(sheet_tabs_error_reply(&m));
        }
        let mut url = crate::bytes::lit("https://sheets.googleapis.com/v4/spreadsheets/");
        push_bytes(&mut url, spreadsheet_id);
        push_lit(&mut url, "?fields=properties.title,sheets.properties.title");
        Ok(url)
    }

    /// Installs a completed browser authentication and acknowledges it.
    pub fn apply_oauth_success(
        &mut self,
        credentials_path: Vec<u8>,
        token_path: Vec<u8>,
        access_token: Vec<u8>,
    ) -> (reply: Vec<u8>)
        ensures
            same_llm(*old(self), *final(self)),
            same_mcp(*old(self), *final(self)),
            same_sheets(*old(self), *final(self)),
            final(self).api_key == old(self).api_key,
            final(self).credentials_file_path == Some(credentials_path),
            final(self).token_file_path == Some(token_path),
            final(self).google_access_token == Some(access_token),
            reply@ == simple_message_of(ascii_of("credentials_success"@), check_of() + ascii_of(
                " Google authentication successful."@,
            )),
    {
        proof {
            reveal_strlit("credentials_success");
            reveal_strlit(" Google authentication successful.");
        }
        self.credentials_file_path = Some(credentials_path);
        self.token_file_path = Some(token_path);
        self.google_access_token = Some(access_token);
        let t = crate::bytes::lit("credentials_success");
        let mut c: Vec<u8> = Vec::new();
        push_check(&mut c);
        push_lit(&mut c, " Google authentication successful.");
        simple_message(&t, &c)
    }
}

/// Validates the credentials directory and fixes the two file paths in it.
pub fn credentials_paths(dir_raw: &Vec<u8>) -> (r: Result<(Vec<u8>, Vec<u8>), Vec<u8>>)
    ensures
        is_blank(dir_raw@) ==> r is Err && r->Err_0@ == simple_message_of(
            ascii_of("credentials_error"@),
            cross_of() + ascii_of(" Credentials directory path is missing."@),
        ),
        !is_blank(dir_raw@) ==> r is Ok && r->Ok_0.0@ == trim_of(dir_raw@) + ascii_of(
            "/credentials.json"@,
        ) && r->Ok_0.1@ == trim_of(dir_raw@) + ascii_of("/token.json"@),
{
    proof {
        reveal_strlit("credentials_error");
        reveal_strlit(" Credentials directory path is missing.");
        reveal_strlit("/credentials.json");
        reveal_strlit("/token.json");
    }
    let dir = trim_bytes(dir_raw);
    proof {
        crate::bytes::lemma_blank_iff_trim_empty(dir_raw@);
    }
    if dir.len() == 0 {
        let t = crate::bytes::lit("credentials_error");
        let mut c: Vec<u8> = Vec::new();
        push_cross(&mut c);
        push_lit(&mut c, " Credentials directory path is missing.");
        return Err(simple_message(&t, &c));
    }
    let mut cred = copy_bytes(&dir);
    push_lit(&mut cred, "/credentials.json");
    let mut token = dir;
    push_lit(&mut token, "/token.json");
    Ok((cred, token))
}

/// Validates the directory of a browser authentication request.
pub fn oauth_paths(dir_raw: &Vec<u8>) -> (r: Result<(Vec<u8>, Vec<u8>), Vec<u8>>)
    ensures
        is_blank(dir_raw@) ==> r is Err && r->Err_0@ == simple_message_of(
            ascii_of("credentials_error"@),
            cross_of() + ascii_of(" dir_path is required for start_oauth."@),
        ),
        !is_blank(dir_raw@) ==> r is Ok && r->Ok_0.0@ == trim_of(dir_raw@) + ascii_of(
            "/credentials.json"@,
        ) && r->Ok_0.1@ == trim_of(dir_raw@) + ascii_of("/token.json"@),
{
    proof {
        reveal_strlit("credentials_error");
        reveal_strlit(" dir_path is required for start_oauth.");
        reveal_strlit("/credentials.json");
        reveal_strlit("/token.json");
    }
    let dir = trim_bytes(dir_raw);
    proof {
        crate::bytes::lemma_blank_iff_trim_empty(dir_raw@);
    }
    if dir.len() == 0 {
        let t = crate::bytes::lit("credentials_error");
        let mut c: Vec<u8> = Vec::new();
        push_cross(&mut c);
        push_lit(&mut c, " dir_path is required for start_oauth.");
        return Err(simple_message(&t, &c));
    }
    let mut cred = copy_bytes(&dir);
    push_lit(&mut cred, "/credentials.json");
    let mut token = dir;
    push_lit(&mut token, "/token.json");
    Ok((cred, token))
}

/// The reply when the credentials file is not where the directory says.
pub fn credentials_missing_reply(path: &Vec<u8>) -> (r: Vec<u8>)
    ensures
        r@ == simple_message_of(ascii_of("credentials_error"@), cross_of() + ascii_of(
            " credentials.json not found at: "@,
        ) + path@),
{
    proof {
        reveal_strlit("credentials_error");
        reveal_strlit(" credentials.json not found at: ");
    }
    let t = crate::bytes::lit("credentials_error");
    let mut c: Vec<u8> = Vec::new();
    push_cross(&mut c);
    push_lit(&mut c, " credentials.json not found at: ");
    push_bytes(&mut c, path);
    simple_message(&t, &c)
}

/// The reply carrying the consent URL to open in the browser.
pub fn oauth_url_reply(url: &Vec<u8>) -> (r: Vec<u8>)
    ensures
        r@ == simple_message_of(ascii_of("oauth_url"@), url@),
{
    proof {
        reveal_strlit("oauth_url");
    }
    let t = crate::bytes::lit("oauth_url");
    simple_message(&t, url)
}

/// The reply when the browser callback refused or failed.
pub fn oauth_failed_reply(e: &Vec<u8>) -> (r: Vec<u8>)
    ensures
        r@ == simple_message_of(ascii_of("credentials_error"@), cross_of() + ascii_of(
            " OAuth failed: "@,
        ) + e@),
{
    proof {
        reveal_strlit("credentials_error");
        reveal_strlit(" OAuth failed: ");
    }
    let t = crate::bytes::lit("credentials_error");
    let mut c: Vec<u8> = Vec::new();
    push_cross(&mut c);
    push_lit(&mut c, " OAuth failed: ");
    push_bytes(&mut c, e);
    simple_message(&t, &c)
}

/// The reply when the browser never came back in time.
pub fn oauth_timeout_reply() -> (r: Vec<u8>)
    ensures
        r@ == simple_message_of(ascii_of("credentials_error"@), cross_of() + ascii_of(
            " OAuth timed out (5 min). Please try again."@,
        )),
{
    proof {
        reveal_strlit("credentials_error");
        reveal_strlit(" OAuth timed out (5 min). Please try again.");
    }
    let t = crate::bytes::lit("credentials_error");
    let mut c: Vec<u8> = Vec::new();
    push_cross(&mut c);
    push_lit(&mut c, " OAuth timed out (5 min). Please try again.");
    simple_message(&t, &c)
}

/// The reply when the consent flow could not even start.
pub fn oauth_prepare_failed_reply(e: &Vec<u8>) -> (r: Vec<u8>)
    ensures
        r@ == simple_message_of(ascii_of("credentials_error"@), cross_of() + ascii_of(
            " Failed to start OAuth: "@,
        ) + e@),
{
    proof {
        reveal_strlit("credentials_error");
        reveal_strlit(" Failed to start OAuth: ");
    }
    let t = crate::bytes::lit("credentials_error");
    let mut c: Vec<u8> = Vec::new();
    push_cross(&mut c);
    push_lit(&mut c, " Failed to start OAuth: ");
    push_bytes(&mut c, e);
    simple_message(&t, &c)
}

} // verus!
