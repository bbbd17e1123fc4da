//! The Google Workspace sub-agent: the one tool through which the main agent
//! delegates mail, calendar and spreadsheet work.  Running the sub-agent's
//! own reasoning loop is the external engine's work; its preamble and its
//! error shapes are fixed here.

use vstd::prelude::*;

use crate::bytes::arrow_of;
use crate::bytes::ascii_of;
use crate::bytes::copy_bytes;
use crate::bytes::emdash_of;
use crate::bytes::join_of;
use crate::bytes::push_arrow;
use crate::bytes::push_bytes;
use crate::bytes::push_emdash;
use crate::bytes::push_lit;
use crate::state::SpreadsheetConfig;
use crate::state::SpreadsheetConfigModel;

verus! {

/// The error the sub-agent tool reports: its message text.
#[derive(Debug)]
pub struct GoogleAgentError(pub Vec<u8>);

/// The sub-agent's standing configuration: the workspace access token, the
/// completion credentials, and the registered spreadsheets.
#[derive(Debug)]
pub struct GoogleSubAgent {
    pub access_token: Vec<u8>,
    pub api_key: Vec<u8>,
    pub provider: Vec<u8>,
    pub model: Vec<u8>,
    pub spreadsheet_configs: Vec<SpreadsheetConfig>,
}

impl GoogleSubAgent {
    pub fn new(
        access_token: Vec<u8>,
        api_key: Vec<u8>,
        provider: Vec<u8>,
        model: Vec<u8>,
        spreadsheet_configs: Vec<SpreadsheetConfig>,
    ) -> (r: GoogleSubAgent)
        ensures
            r.access_token == access_token,
            r.api_key == api_key,
            r.provider == provider,
            r.model == model,
            r.spreadsheet_configs == spreadsheet_configs,
    {
        GoogleSubAgent { access_token, api_key, provider, model, spreadsheet_configs }
    }
}

/// The arguments of one delegation: the task in natural language.
#[derive(Debug)]
pub struct GoogleSubAgentArgs {
    pub task: Vec<u8>,
}

/// One line of the sub-agent's alias table.
pub open spec fn agent_sheet_line_of(c: SpreadsheetConfigModel) -> Seq<u8> {
    ascii_of("- alias: \""@) + c.alias + ascii_of("\" "@) + arrow_of() + ascii_of(
        " spreadsheet_id: `"@,
    ) + c.sheet_id + ascii_of("`"@) + if c.selected_tab.len() > 0 {
        ascii_of(", default tab: \""@) + c.selected_tab + ascii_of("\""@)
    } else {
        Seq::<u8>::empty()
    }
}

/// The header lines of the alias table.
pub open spec fn agent_sheet_header() -> Seq<Seq<u8>> {
    seq![
        ascii_of("\n\n## Registered Spreadsheets (alias "@) + arrow_of() + ascii_of(" real ID)"@),
        ascii_of(
            "When a task refers to a spreadsheet by alias, use the corresponding ID below as the `spreadsheet_id` parameter "@,
        ) + emdash_of() + ascii_of(" NEVER pass the alias itself to the tool."@),
    ]
}

/// The sub-agent's preamble: the dated base prompt, and the alias table when
/// any spreadsheet is registered.
pub open spec fn agent_preamble_of(base: Seq<u8>, cs: Seq<SpreadsheetConfigModel>) -> Seq<u8> {
    if cs.len() == 0 {
        base
    } else {
        join_of(
            seq![base] + agent_sheet_header() + cs.map_values(
                |c: SpreadsheetConfigModel| agent_sheet_line_of(c),
            ),
            ascii_of("\n"@),
        )
    }
}

/// Assembles the sub-agent's preamble.
pub fn render_agent_preamble(base: &Vec<u8>, cs: &Vec<SpreadsheetConfig>) -> (r: Vec<u8>)
    ensures
        r@ == agent_preamble_of(base@, cs@.map_values(|c: SpreadsheetConfig| c@)),
{
    proof {
        reveal_strlit("\n\n## Registered Spreadsheets (alias ");
        reveal_strlit(" real ID)");
        reveal_strlit(
            "When a task refers to a spreadsheet by alias, use the corresponding ID below as the `spreadsheet_id` parameter ",
        );
        reveal_strlit(" NEVER pass the alias itself to the tool.");
        reveal_strlit("- alias: \"");
        reveal_strlit("\" ");
        reveal_strlit(" spreadsheet_id: `");
        reveal_strlit("`");
        reveal_strlit(", default tab: \"");
        reveal_strlit("\"");
        reveal_strlit("\n");
    }
    if cs.len() == 0 {
        return copy_bytes(base);
    }
    let ghost csm = cs@.map_values(|c: SpreadsheetConfig| c@);
    let mut lines: Vec<Vec<u8>> = Vec::new();
    lines.push(copy_bytes(base));
    let mut l1 = crate::bytes::lit("\n\n## Registered Spreadsheets (alias ");
    push_arrow(&mut l1);
    push_lit(&mut l1, " real ID)");
    lines.push(l1);
    let mut l2 = crate::bytes::lit(
        "When a task refers to a spreadsheet by alias, use the corresponding ID below as the `spreadsheet_id` parameter ",
    );
    push_emdash(&mut l2);
    push_lit(&mut l2, " NEVER pass the alias itself to the tool.");
    lines.push(l2);
    let mut i: usize = 0;
    while i < cs.len()
        invariant
            i <= cs.len(),
            csm == cs@.map_values(|c: SpreadsheetConfig| c@),
            lines@.len() == i + 3,
            lines@[0]@ == base@,
            lines@[1]@ == agent_sheet_header()[0],
            lines@[2]@ == agent_sheet_header()[1],
            forall|k: int|
                0 <= k < i ==> (#[trigger] lines@[k + 3])@ == agent_sheet_line_of(csm[k]),
        decreases cs.len() - i,
    {
        let c = &cs[i];
        let mut line = crate::bytes::lit("- alias: \"");
        push_bytes(&mut line, &c.alias);
        push_lit(&mut line, "\" ");
        push_arrow(&mut line);
        push_lit(&mut line, " spreadsheet_id: `");
        push_bytes(&mut line, &c.sheet_id);
        push_lit(&mut line, "`");
        if c.selected_tab.len() > 0 {
            push_lit(&mut line, ", default tab: \"");
            push_bytes(&mut line, &c.selected_tab);
            push_lit(&mut line, "\"");
        }
        assert(line@ == agent_sheet_line_of(csm[i as int]));
        lines.push(line);
        i = i + 1;
    }
    let sep = crate::bytes::lit("\n");
    let r = crate::bytes::join_bytes(&lines, &sep);
    proof {
        let target = seq![base@] + agent_sheet_header() + csm.map_values(
            |c: SpreadsheetConfigModel| agent_sheet_line_of(c),
        );
        assert forall|j: int| 0 <= j < lines@.len() implies (lines@.map_values(|p: Vec<u8>| p@))[j]
            == target[j] by {
            if j >= 3 {
                assert((#[trigger] lines@[(j - 3) + 3])@ == agent_sheet_line_of(csm[j - 3]));
            }
        }
        assert(lines@.map_values(|p: Vec<u8>| p@) =~= target);
    }
    r
}

/// The error text for a provider string the sub-agent cannot drive.
pub fn unsupported_subagent_provider_error(p: &Vec<u8>) -> (r: Vec<u8>)
    ensures
        r@ == ascii_of("Unsupported provider for Google sub-agent: "@) + p@,
{
    proof {
        reveal_strlit("Unsupported provider for Google sub-agent: ");
    }
    let mut r = crate::bytes::lit("Unsupported provider for Google sub-agent: ");
    push_bytes(&mut r, p);
    r
}


impl GoogleSubAgent {
    /// This tool's descriptor: its name, what it does, and its input schema.
    pub fn definition(&self) -> (d: crate::supervisor::ToolDescriptor)
        ensures
            d.name@ == ascii_of("google_agent"@),
            d.description@ == ascii_of("Delegate any Gmail, Google Calendar, or Google Sheets task to a specialized sub-agent. Describe the full task in natural language. The sub-agent will use multiple tool calls as needed.\nCapabilities:\n- Gmail: search messages, read full message/thread content (read-only)\n- Google Calendar: list, create, update, or delete events\n- Google Sheets: read, append, update data, or create new spreadsheets\n\nExamples:\n- 'Search Gmail for unread emails from alice@example.com and summarize them'\n- 'List my calendar events for the next 3 days'\n- 'Create a calendar event: Team Standup on 2024-02-01 at 9am for 30 minutes'\n- 'Read range A1:D20 from spreadsheet ID 1BxiMVs0XRA5nFMdKvBdBZjgmUUqptlbs74OgVE2upms'"@),
            d.schema_json@ == ascii_of("{\"properties\":{\"task\":{\"description\":\"The complete Google Workspace task. Be specific: include email addresses, date ranges, spreadsheet IDs, ranges, etc.\",\"type\":\"string\"}},\"required\":[\"task\"],\"type\":\"object\"}"@),
    {
        proof {
            reveal_strlit("google_agent");
            reveal_strlit("Delegate any Gmail, Google Calendar, or Google Sheets task to a specialized sub-agent. Describe the full task in natural language. The sub-agent will use multiple tool calls as needed.\nCapabilities:\n- Gmail: search messages, read full message/thread content (read-only)\n- Google Calendar: list, create, update, or delete events\n- Google Sheets: read, append, update data, or create new spreadsheets\n\nExamples:\n- 'Search Gmail for unread emails from alice@example.com and summarize them'\n- 'List my calendar events for the next 3 days'\n- 'Create a calendar event: Team Standup on 2024-02-01 at 9am for 30 minutes'\n- 'Read range A1:D20 from spreadsheet ID 1BxiMVs0XRA5nFMdKvBdBZjgmUUqptlbs74OgVE2upms'");
            reveal_strlit("{\"properties\":{\"task\":{\"description\":\"The complete Google Workspace task. Be specific: include email addresses, date ranges, spreadsheet IDs, ranges, etc.\",\"type\":\"string\"}},\"required\":[\"task\"],\"type\":\"object\"}");
        }
        crate::supervisor::ToolDescriptor {
            name: crate::bytes::lit("google_agent"),
            description: crate::bytes::lit("Delegate any Gmail, Google Calendar, or Google Sheets task to a specialized sub-agent. Describe the full task in natural language. The sub-agent will use multiple tool calls as needed.\nCapabilities:\n- Gmail: search messages, read full message/thread content (read-only)\n- Google Calendar: list, create, update, or delete events\n- Google Sheets: read, append, update data, or create new spreadsheets\n\nExamples:\n- 'Search Gmail for unread emails from alice@example.com and summarize them'\n- 'List my calendar events for the next 3 days'\n- 'Create a calendar event: Team Standup on 2024-02-01 at 9am for 30 minutes'\n- 'Read range A1:D20 from spreadsheet ID 1BxiMVs0XRA5nFMdKvBdBZjgmUUqptlbs74OgVE2upms'"),
            schema_json: crate::bytes::lit("{\"properties\":{\"task\":{\"description\":\"The complete Google Workspace task. Be specific: include email addresses, date ranges, spreadsheet IDs, ranges, etc.\",\"type\":\"string\"}},\"required\":[\"task\"],\"type\":\"object\"}"),
        }
    }
}

} // verus!
