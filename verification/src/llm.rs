//! Prompt assembly and provider selection for the main agent's reasoning
//! loop.  The completion calls themselves are the external engine's work.

use vstd::prelude::*;

use crate::bytes::ascii_of;
use crate::bytes::copy_bytes;
use crate::bytes::emdash_of;
use crate::bytes::join_of;
use crate::bytes::push_bytes;
use crate::bytes::push_emdash;
use crate::bytes::push_lit;
use crate::bytes::replace_of;
use crate::state::SpreadsheetConfigModel;

verus! {

/// The name the prompt addresses the user by: the one the caller provided if
/// non-empty, else the login name, else the fixed fallback.
pub fn effective_user_name(provided: Option<Vec<u8>>, login: Option<Vec<u8>>) -> (r: Vec<u8>)
    ensures
        provided matches Some(p) ==> (p@.len() > 0 ==> r@ == p@),
        !(provided matches Some(p) && p@.len() > 0) && login is Some ==> r@ == login->0@,
        !(provided matches Some(p) && p@.len() > 0) && login is None ==> r@ == ascii_of("User"@),
{
    proof {
        reveal_strlit("User");
    }
    match provided {
        Some(p) => {
            if p.len() > 0 {
                return p;
            }
        },
        None => {},
    }
    match login {
        Some(l) => l,
        None => crate::bytes::lit("User"),
    }
}

/// The base prompt: the personality template with the user's name and the
/// current date and time substituted for their placeholders.
pub open spec fn base_prompt_of(template: Seq<u8>, user_name: Seq<u8>, datetime: Seq<u8>) -> Seq<
    u8,
> {
    replace_of(
        replace_of(template, ascii_of("{user_name}"@), user_name),
        ascii_of("{current_datetime}"@),
        datetime,
    )
}

/// Substitutes the user name and the current date and time into the
/// personality template.
pub fn render_base_prompt(template: &Vec<u8>, user_name: &Vec<u8>, datetime: &Vec<u8>) -> (r: Vec<
    u8,
>)
    ensures
        r@ == base_prompt_of(template@, user_name@, datetime@),
{
    proof {
        reveal_strlit("{user_name}");
        reveal_strlit("{current_datetime}");
    }
    let pat1 = crate::bytes::lit("{user_name}");
    let step1 = crate::bytes::replace_bytes(template, &pat1, user_name);
    let pat2 = crate::bytes::lit("{current_datetime}");
    crate::bytes::replace_bytes(&step1, &pat2, datetime)
}

/// One line of the spreadsheet context block: the alias in bold, and the
/// description after a dash when there is one.
pub open spec fn sheet_context_line_of(c: SpreadsheetConfigModel) -> Seq<u8> {
    ascii_of("- **"@) + c.alias + ascii_of("**"@) + if c.description.len() > 0 {
        ascii_of(" "@) + emdash_of() + ascii_of(" "@) + c.description
    } else {
        Seq::<u8>::empty()
    }
}

/// The header lines of the spreadsheet context block.
pub open spec fn sheet_context_header() -> Seq<Seq<u8>> {
    seq![
        ascii_of("\n\n## Available Google Spreadsheets"@),
        ascii_of(
            "The user has registered the following spreadsheets by alias. When they mention one, delegate the task to google_agent using the alias name "@,
        ) + emdash_of() + ascii_of(
            " the sub-agent will resolve it to the correct spreadsheet ID."@,
        ),
    ]
}

/// The spreadsheet context block handed to the main agent: nothing when no
/// spreadsheet is registered, else the header and one line per registration,
/// newline-separated.
pub open spec fn sheet_context_of(cs: Seq<SpreadsheetConfigModel>) -> Seq<u8> {
    if cs.len() == 0 {
        Seq::<u8>::empty()
    } else {
        join_of(
            sheet_context_header() + cs.map_values(|c: SpreadsheetConfigModel| sheet_context_line_of(c)),
            ascii_of("\n"@),
        )
    }
}

/// Renders the spreadsheet context block.
pub fn render_sheet_context(cs: &Vec<crate::state::SpreadsheetConfig>) -> (r: Vec<u8>)
    ensures
        r@ == sheet_context_of(cs@.map_values(|c: crate::state::SpreadsheetConfig| c@)),
{
    proof {
        reveal_strlit("\n\n## Available Google Spreadsheets");
        reveal_strlit(
            "The user has registered the following spreadsheets by alias. When they mention one, delegate the task to google_agent using the alias name ",
        );
        reveal_strlit(" the sub-agent will resolve it to the correct spreadsheet ID.");
        reveal_strlit("- **");
        reveal_strlit("**");
        reveal_strlit(" ");
        reveal_strlit("\n");
    }
    if cs.len() == 0 {
        return Vec::new();
    }
    let ghost csm = cs@.map_values(|c: crate::state::SpreadsheetConfig| c@);
    let mut lines: Vec<Vec<u8>> = Vec::new();
    lines.push(crate::bytes::lit("\n\n## Available Google Spreadsheets"));
    let mut l2 = crate::bytes::lit(
        "The user has registered the following spreadsheets by alias. When they mention one, delegate the task to google_agent using the alias name ",
    );
    push_emdash(&mut l2);
    push_lit(&mut l2, " the sub-agent will resolve it to the correct spreadsheet ID.");
    lines.push(l2);
    let mut i: usize = 0;
    while i < cs.len()
        invariant
            i <= cs.len(),
            csm == cs@.map_values(|c: crate::state::SpreadsheetConfig| c@),
            lines@.len() == i + 2,
            lines@[0]@ == sheet_context_header()[0],
            lines@[1]@ == sheet_context_header()[1],
            forall|k: int|
                0 <= k < i ==> (#[trigger] lines@[k + 2])@ == sheet_context_line_of(csm[k]),
        decreases cs.len() - i,
    {
        let c = &cs[i];
        let mut line = crate::bytes::lit("- **");
        push_bytes(&mut line, &c.alias);
        push_lit(&mut line, "**");
        if c.description.len() > 0 {
            push_lit(&mut line, " ");
            push_emdash(&mut line);
            push_lit(&mut line, " ");
            push_bytes(&mut line, &c.description);
        }
        assert(line@ == sheet_context_line_of(csm[i as int]));
        lines.push(line);
        i = i + 1;
    }
    let sep = crate::bytes::lit("\n");
    let r = crate::bytes::join_bytes(&lines, &sep);
    proof {
        let target = sheet_context_header() + csm.map_values(
            |c: SpreadsheetConfigModel| sheet_context_line_of(c),
        );
        assert forall|j: int| 0 <= j < lines@.len() implies (lines@.map_values(|p: Vec<u8>| p@))[j]
            == target[j] by {
            if j >= 2 {
                assert((#[trigger] lines@[(j - 2) + 2])@ == sheet_context_line_of(csm[j - 2]));
            }
        }
        assert(lines@.map_values(|p: Vec<u8>| p@) =~= target);
    }
    r
}

/// The final preamble for a turn: the base prompt, the spreadsheet context,
/// and the optional mode prompt after a blank line.
pub open spec fn final_prompt_of(base: Seq<u8>, context: Seq<u8>, mode: Option<Seq<u8>>) -> Seq<
    u8,
> {
    base + context + match mode {
        Some(m) => ascii_of("\n\n"@) + m,
        None => Seq::<u8>::empty(),
    }
}

/// Assembles the final preamble.
pub fn render_final_prompt(base: &Vec<u8>, context: &Vec<u8>, mode: &Option<Vec<u8>>) -> (r: Vec<
    u8,
>)
    ensures
        r@ == final_prompt_of(base@, context@, match mode {
            Some(m) => Some(m@),
            None => None,
        }),
{
    proof {
        reveal_strlit("\n\n");
    }
    let mut r = copy_bytes(base);
    push_bytes(&mut r, context);
    match mode {
        Some(m) => {
            push_lit(&mut r, "\n\n");
            push_bytes(&mut r, m);
        },
        None => {},
    }
    r
}

/// The completion backends this system can drive.
#[derive(PartialEq, Eq, Structural, Clone, Copy, Debug)]
pub enum ProviderKind {
    Gemini,
    Openai,
    Anthropic,
    Ollama,
}

/// Selects the backend named by the provider string.
pub fn classify_provider(p: &Vec<u8>) -> (r: Option<ProviderKind>)
    ensures
        p@ == ascii_of("gemini"@) ==> r == Some(ProviderKind::Gemini),
        p@ == ascii_of("openai"@) ==> r == Some(ProviderKind::Openai),
        p@ == ascii_of("anthropic"@) ==> r == Some(ProviderKind::Anthropic),
        p@ == ascii_of("ollama"@) ==> r == Some(ProviderKind::Ollama),
        p@ != ascii_of("gemini"@) && p@ != ascii_of("openai"@) && p@ != ascii_of("anthropic"@)
            && p@ != ascii_of("ollama"@) ==> r is None,
{
    proof {
        reveal_strlit("gemini");
        reveal_strlit("openai");
        reveal_strlit("anthropic");
        reveal_strlit("ollama");
        assert(ascii_of("gemini"@)[0] == 103);
        assert(ascii_of("openai"@)[0] == 111);
        assert(ascii_of("gemini"@)[1] == 101);
        assert(ascii_of("openai"@)[1] == 112);
        assert(ascii_of("ollama"@)[1] == 108);
        assert(ascii_of("anthropic"@).len() == 9);
        assert(ascii_of("gemini"@).len() == 6);
        assert(ascii_of("openai"@).len() == 6);
        assert(ascii_of("ollama"@).len() == 6);
    }
    let gemini = crate::bytes::lit("gemini");
    if crate::bytes::eq_bytes(p, &gemini) {
        return Some(ProviderKind::Gemini);
    }
    let openai = crate::bytes::lit("openai");
    if crate::bytes::eq_bytes(p, &openai) {
        return Some(ProviderKind::Openai);
    }
    let anthropic = crate::bytes::lit("anthropic");
    if crate::bytes::eq_bytes(p, &anthropic) {
        return Some(ProviderKind::Anthropic);
    }
    let ollama = crate::bytes::lit("ollama");
    if crate::bytes::eq_bytes(p, &ollama) {
        return Some(ProviderKind::Ollama);
    }
    None
}

/// The error text for a provider string no backend answers to.
pub fn unsupported_provider_error(p: &Vec<u8>) -> (r: Vec<u8>)
    ensures
        r@ == ascii_of("Unsupported provider: "@) + p@,
{
    proof {
        reveal_strlit("Unsupported provider: ");
    }
    let mut r = crate::bytes::lit("Unsupported provider: ");
    push_bytes(&mut r, p);
    r
}

/// The fixed message when the local completion backend is unreachable.
pub fn ollama_unreachable_error() -> (r: Vec<u8>)
    ensures
        r@ == ascii_of(
            "Ollama is not running. Download and install it from https://ollama.com, then start it with `ollama serve`."@,
        ),
{
    proof {
        reveal_strlit(
            "Ollama is not running. Download and install it from https://ollama.com, then start it with `ollama serve`.",
        );
    }
    crate::bytes::lit(
        "Ollama is not running. Download and install it from https://ollama.com, then start it with `ollama serve`.",
    )
}

} // verus!
