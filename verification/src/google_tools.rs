//! The Google Workspace tools: Gmail reading, Calendar management and Sheets
//! management.  Every request URL, request body and reported result is
//! computed and pinned down here; the HTTP exchanges are the runtime's work.

use vstd::prelude::*;

use crate::bytes::ascii_of;
use crate::bytes::check_of;
use crate::bytes::copy_bytes;
use crate::bytes::dec_of;
use crate::bytes::endash_of;
use crate::bytes::eq_icase;
use crate::bytes::join_of;
use crate::bytes::push_bytes;
use crate::bytes::push_check;
use crate::bytes::push_endash;
use crate::bytes::push_lit;
use crate::bytes::push_u64_dec;
use crate::bytes::starts_with;
use crate::ext::b64_no_pad_decoded_of;
use crate::ext::url_encoded_of;
use crate::ext::utf8_lossy_of;

verus! {

/// The error a Google tool reports: its message text.
#[derive(Debug)]
pub struct GoogleToolError(pub Vec<u8>);

/// The upstream-error report for a non-success Google API answer.
pub open spec fn google_api_error_of(status: Seq<u8>, body: Seq<u8>) -> Seq<u8> {
    ascii_of("Google API "@) + status + ascii_of(" "@) + endash_of() + ascii_of(" "@) + body
}

/// Renders the upstream-error report for a failed Google API call.
pub fn google_api_error(status: &Vec<u8>, body: &Vec<u8>) -> (r: Vec<u8>)
    ensures
        r@ == google_api_error_of(status@, body@),
{
    proof {
        reveal_strlit("Google API ");
        reveal_strlit(" ");
    }
    let mut r = crate::bytes::lit("Google API ");
    push_bytes(&mut r, status);
    push_lit(&mut r, " ");
    push_endash(&mut r);
    push_lit(&mut r, " ");
    push_bytes(&mut r, body);
    r
}

/// The transport-error report for a request that could not be made.
pub fn http_error(e: &Vec<u8>) -> (r: Vec<u8>)
    ensures
        r@ == ascii_of("HTTP error: "@) + e@,
{
    proof {
        reveal_strlit("HTTP error: ");
    }
    let mut r = crate::bytes::lit("HTTP error: ");
    push_bytes(&mut r, e);
    r
}

/// The report for an answer whose body was not readable JSON.
pub fn json_parse_error(e: &Vec<u8>) -> (r: Vec<u8>)
    ensures
        r@ == ascii_of("JSON parse error: "@) + e@,
{
    proof {
        reveal_strlit("JSON parse error: ");
    }
    let mut r = crate::bytes::lit("JSON parse error: ");
    push_bytes(&mut r, e);
    r
}

/// One header of a Gmail message.
#[derive(Debug)]
pub struct GmailHeader {
    pub name: Vec<u8>,
    pub value: Vec<u8>,
}

/// The value of the first header whose name matches up to ASCII case, or
/// nothing's worth of bytes.
pub open spec fn header_of(hs: Seq<GmailHeader>, name: Seq<u8>) -> Seq<u8>
    decreases hs.len(),
{
    if hs.len() == 0 {
        Seq::empty()
    } else if eq_icase(hs[0].name@, name) {
        hs[0].value@
    } else {
        header_of(hs.drop_first(), name)
    }
}

/// Looks a named header up, ignoring ASCII case.
pub fn header(hs: &Vec<GmailHeader>, name: &Vec<u8>) -> (r: Vec<u8>)
    ensures
        r@ == header_of(hs@, name@),
{
    proof {
        assert(hs@.skip(0) =~= hs@);
    }
    let mut i: usize = 0;
    while i < hs.len()
        invariant
            i <= hs.len(),
            header_of(hs@, name@) == header_of(hs@.skip(i as int), name@),
        decreases hs.len() - i,
    {
        proof {
            assert(hs@.skip(i as int)[0] == hs@[i as int]);
            assert(hs@.skip(i as int).drop_first() =~= hs@.skip(i + 1));
        }
        if crate::bytes::eq_ignore_case(&hs[i].name, name) {
            return copy_bytes(&hs[i].value);
        }
        i = i + 1;
    }
    proof {
        assert(hs@.skip(hs@.len() as int).len() == 0);
    }
    Vec::new()
}

/// The base64url-alphabet fix-up applied to Gmail body data before decoding.
pub open spec fn b64url_fixed_of(data: Seq<u8>) -> Seq<u8> {
    data.map_values(
        |b: u8|
            if b == 45 {
                43u8
            } else if b == 95 {
                47u8
            } else {
                b
            },
    )
}

/// A decoded Gmail body: the body data read as base64url and then as lossy
/// UTF-8, or the fixed marker when it does not decode.
pub open spec fn decoded_body_of(data: Seq<u8>) -> Seq<u8> {
    match b64_no_pad_decoded_of(b64url_fixed_of(data)) {
        Some(bytes) => utf8_lossy_of(bytes),
        None => ascii_of("[Could not decode body]"@),
    }
}

/// Decodes base64url-encoded Gmail body data into text.
pub fn decode_gmail_body(data: &Vec<u8>) -> (r: Vec<u8>)
    ensures
        r@ == decoded_body_of(data@),
{
    proof {
        reveal_strlit("[Could not decode body]");
    }
    let mut fixed: Vec<u8> = Vec::new();
    let mut i: usize = 0;
    while i < data.len()
        invariant
            i <= data.len(),
            fixed@ == b64url_fixed_of(data@).take(i as int),
        decreases data.len() - i,
    {
        let b = data[i];
        if b == 45 {
            fixed.push(43);
        } else if b == 95 {
            fixed.push(47);
        } else {
            fixed.push(b);
        }
        assert(fixed@ =~= b64url_fixed_of(data@).take(i + 1));
        i = i + 1;
    }
    assert(fixed@ =~= b64url_fixed_of(data@));
    match crate::ext::b64_decode_no_pad(&fixed) {
        Some(bytes) => crate::ext::utf8_lossy(&bytes),
        None => crate::bytes::lit("[Could not decode body]"),
    }
}

/// One part of a Gmail message payload: its MIME type, its direct body data
/// (base64url text, empty when absent), and its nested parts.
#[derive(Debug)]
pub struct GmailPart {
    pub mime_type: Vec<u8>,
    pub body_data: Vec<u8>,
    pub parts: Vec<GmailPart>,
}

/// The marker used when no text could be extracted.
pub open spec fn no_text() -> Seq<u8> {
    ascii_of("[No text content]"@)
}

/// The index of the first part with the given MIME type and non-empty body
/// data, or `-1`.
pub open spec fn first_part_with(parts: Seq<GmailPart>, mime: Seq<u8>) -> int
    decreases parts.len(),
{
    if parts.len() == 0 {
        -1
    } else if parts[0].mime_type@ == mime && parts[0].body_data@.len() > 0 {
        0
    } else if first_part_with(parts.drop_first(), mime) == -1 {
        -1
    } else {
        1 + first_part_with(parts.drop_first(), mime)
    }
}

/// The plain text of a message payload: direct body data first; else the
/// first plain-text part; else the first HTML part, marked; else the first
/// nested multipart that yields text; else the fixed marker.
pub open spec fn extract_text_of(p: GmailPart) -> Seq<u8>
    decreases p,
{
    if p.body_data@.len() > 0 {
        decoded_body_of(p.body_data@)
    } else {
        let parts = p.parts@;
        let plain = first_part_with(parts, ascii_of("text/plain"@));
        let html = first_part_with(parts, ascii_of("text/html"@));
        if 0 <= plain < parts.len() {
            decoded_body_of(parts[plain].body_data@)
        } else if 0 <= html < parts.len() {
            ascii_of("[HTML] "@) + decoded_body_of(parts[html].body_data@)
        } else {
            multipart_text_of(parts)
        }
    }
}

/// The first nested multipart part that yields text, scanned in order.
pub open spec fn multipart_text_of(parts: Seq<GmailPart>) -> Seq<u8>
    decreases parts,
{
    if parts.len() == 0 {
        no_text()
    } else {
        let head = if starts_with(parts[0].mime_type@, ascii_of("multipart/"@)) {
            extract_text_of(parts[0])
        } else {
            no_text()
        };
        if head != no_text() {
            head
        } else {
            multipart_text_of(parts.drop_first())
        }
    }
}

/// The first index with the given MIME type and body data, as the scan of
/// `first_part_with` finds it.
proof fn lemma_first_part_at(parts: Seq<GmailPart>, mime: Seq<u8>, i: int)
    requires
        0 <= i <= parts.len(),
        forall|k: int|
            0 <= k < i ==> !((#[trigger] parts[k]).mime_type@ == mime && parts[k].body_data@.len()
                > 0),
        i < parts.len() ==> parts[i].mime_type@ == mime && parts[i].body_data@.len() > 0,
    ensures
        i < parts.len() ==> first_part_with(parts, mime) == i,
        i == parts.len() ==> first_part_with(parts, mime) == -1,
    decreases i + 1,
{
    if parts.len() == 0 {
    } else if i == 0 {
    } else {
        assert(forall|k: int|
            0 <= k < i - 1 ==> parts.drop_first()[k] == #[trigger] parts[k + 1]);
        lemma_first_part_at(parts.drop_first(), mime, i - 1);
    }
}

/// Finds the first part with the given MIME type and non-empty body data.
fn find_part_with(parts: &Vec<GmailPart>, mime: &Vec<u8>) -> (r: Option<usize>)
    ensures
        match r {
            Some(i) => first_part_with(parts@, mime@) == i && i < parts@.len(),
            None => first_part_with(parts@, mime@) == -1,
        },
{
    let mut i: usize = 0;
    while i < parts.len()
        invariant
            i <= parts.len(),
            forall|k: int|
                0 <= k < i ==> !((#[trigger] parts@[k]).mime_type@ == mime@
                    && parts@[k].body_data@.len() > 0),
        decreases parts.len() - i,
    {
        let p = &parts[i];
        if crate::bytes::eq_bytes(&p.mime_type, mime) && p.body_data.len() > 0 {
            proof {
                lemma_first_part_at(parts@, mime@, i as int);
            }
            return Some(i);
        }
        i = i + 1;
    }
    proof {
        lemma_first_part_at(parts@, mime@, parts@.len() as int);
    }
    None
}

/// Extracts the readable text of a Gmail payload, multipart nesting
/// included.
pub fn extract_text(p: &GmailPart) -> (r: Vec<u8>)
    ensures
        r@ == extract_text_of(*p),
    decreases *p,
{
    proof {
        reveal_strlit("text/plain");
        reveal_strlit("text/html");
        reveal_strlit("multipart/");
        reveal_strlit("[HTML] ");
        reveal_strlit("[No text content]");
    }
    if p.body_data.len() > 0 {
        return decode_gmail_body(&p.body_data);
    }
    let plain_mime = crate::bytes::lit("text/plain");
    if let Some(i) = find_part_with(&p.parts, &plain_mime) {
        return decode_gmail_body(&p.parts[i].body_data);
    }
    let html_mime = crate::bytes::lit("text/html");
    if let Some(i) = find_part_with(&p.parts, &html_mime) {
        let mut r = crate::bytes::lit("[HTML] ");
        let mut body = decode_gmail_body(&p.parts[i].body_data);
        r.append(&mut body);
        return r;
    }
    let marker = crate::bytes::lit("[No text content]");
    let prefix = crate::bytes::lit("multipart/");
    proof {
        assert(p.parts@.skip(0) =~= p.parts@);
    }
    let mut i: usize = 0;
    while i < p.parts.len()
        invariant
            i <= p.parts@.len(),
            multipart_text_of(p.parts@) == multipart_text_of(p.parts@.skip(i as int)),
            marker@ == no_text(),
            prefix@ == ascii_of("multipart/"@),
        decreases p.parts@.len() - i,
    {
        proof {
            assert(p.parts@.skip(i as int)[0] == p.parts@[i as int]);
            assert(p.parts@.skip(i as int).drop_first() =~= p.parts@.skip(i + 1));
        }
        let part = &p.parts[i];
        if crate::bytes::starts_with_bytes(&part.mime_type, &prefix) {
            let text = extract_text(part);
            if !crate::bytes::eq_bytes(&text, &marker) {
                return text;
            }
        }
        i = i + 1;
    }
    proof {
        assert(p.parts@.skip(p.parts@.len() as int).len() == 0);
    }
    crate::bytes::lit("[No text content]")
}

/// A search or listing cap: the requested count, defaulted and capped.
pub open spec fn capped_of(requested: Option<u32>, dflt: u32, cap: u32) -> u32 {
    match requested {
        Some(v) => if v < cap {
            v
        } else {
            cap
        },
        None => dflt,
    }
}

/// Defaults and caps a requested result count.
pub fn capped(requested: &Option<u32>, dflt: u32, cap: u32) -> (r: u32)
    ensures
        r == capped_of(*requested, dflt, cap),
{
    match requested {
        Some(v) => if *v < cap {
            *v
        } else {
            cap
        },
        None => dflt,
    }
}

/// Searches Gmail with the Gmail query syntax.
#[derive(Debug)]
pub struct SearchGmail {
    pub access_token: Vec<u8>,
}

impl SearchGmail {
    pub fn new(access_token: Vec<u8>) -> (r: SearchGmail)
        ensures
            r.access_token == access_token,
    {
        SearchGmail { access_token }
    }
}

/// The arguments of a Gmail search.
#[derive(Debug)]
pub struct SearchGmailArgs {
    pub query: Vec<u8>,
    pub max_results: Option<u32>,
}

/// The message-list request of a Gmail search: the query percent-encoded,
/// the count defaulted to ten and capped at fifty.
pub open spec fn search_gmail_url_of(query: Seq<u8>, max_results: Option<u32>) -> Seq<u8> {
    ascii_of("https://gmail.googleapis.com/gmail/v1/users/me/messages?q="@) + url_encoded_of(query)
        + ascii_of("&maxResults="@) + dec_of(capped_of(max_results, 10, 50) as nat)
}

/// Builds the message-list request URL of a Gmail search.
pub fn search_gmail_url(args: &SearchGmailArgs) -> (r: Vec<u8>)
    ensures
        r@ == search_gmail_url_of(args.query@, args.max_results),
{
    proof {
        reveal_strlit("https://gmail.googleapis.com/gmail/v1/users/me/messages?q=");
        reveal_strlit("&maxResults=");
    }
    let mut r = crate::bytes::lit("https://gmail.googleapis.com/gmail/v1/users/me/messages?q=");
    let mut enc = crate::ext::url_encode(&args.query);
    r.append(&mut enc);
    push_lit(&mut r, "&maxResults=");
    let m = capped(&args.max_results, 10, 50);
    push_u64_dec(&mut r, m as u64);
    r
}

/// The metadata request for one found message.
pub open spec fn message_metadata_url_of(id: Seq<u8>) -> Seq<u8> {
    ascii_of("https://gmail.googleapis.com/gmail/v1/users/me/messages/"@) + id + ascii_of(
        "?format=metadata&metadataHeaders=Subject&metadataHeaders=From&metadataHeaders=Date"@,
    )
}

/// Builds the metadata request URL for one found message.
pub fn message_metadata_url(id: &Vec<u8>) -> (r: Vec<u8>)
    ensures
        r@ == message_metadata_url_of(id@),
{
    proof {
        reveal_strlit("https://gmail.googleapis.com/gmail/v1/users/me/messages/");
        reveal_strlit(
            "?format=metadata&metadataHeaders=Subject&metadataHeaders=From&metadataHeaders=Date",
        );
    }
    let mut r = crate::bytes::lit("https://gmail.googleapis.com/gmail/v1/users/me/messages/");
    push_bytes(&mut r, id);
    push_lit(
        &mut r,
        "?format=metadata&metadataHeaders=Subject&metadataHeaders=From&metadataHeaders=Date",
    );
    r
}

/// What one metadata fetch of a found message came to.
#[derive(Debug)]
pub enum MessageFetch {
    /// The message's headers and snippet.
    Fetched { id: Vec<u8>, headers: Vec<GmailHeader>, snippet: Vec<u8> },
    /// The fetch failed with this error text.
    Failed { id: Vec<u8>, error: Vec<u8> },
}

/// One line of the search report.
pub open spec fn search_line_of(m: MessageFetch) -> Seq<u8> {
    match m {
        MessageFetch::Fetched { id, headers, snippet } => ascii_of("ID: "@) + id@ + ascii_of(
            "\nFrom: "@,
        ) + header_of(headers@, ascii_of("From"@)) + ascii_of("\nDate: "@) + header_of(
            headers@,
            ascii_of("Date"@),
        ) + ascii_of("\nSubject: "@) + header_of(headers@, ascii_of("Subject"@)) + ascii_of(
            "\nSnippet: "@,
        ) + snippet@,
        MessageFetch::Failed { id, error } => ascii_of("ID: "@) + id@ + ascii_of(" [Error: "@)
            + error@ + ascii_of("]"@),
    }
}

/// The fixed answer when a search matches nothing.
pub fn no_messages_found() -> (r: Vec<u8>)
    ensures
        r@ == ascii_of("No messages found."@),
{
    proof {
        reveal_strlit("No messages found.");
    }
    crate::bytes::lit("No messages found.")
}

/// Renders the search report: one block per message, separated by rules.
pub fn render_search_results(items: &Vec<MessageFetch>) -> (r: Vec<u8>)
    ensures
        r@ == join_of(
            items@.map_values(|m: MessageFetch| search_line_of(m)),
            ascii_of("\n\n---\n\n"@),
        ),
{
    proof {
        reveal_strlit("ID: ");
        reveal_strlit("\nFrom: ");
        reveal_strlit("\nDate: ");
        reveal_strlit("\nSubject: ");
        reveal_strlit("\nSnippet: ");
        reveal_strlit(" [Error: ");
        reveal_strlit("]");
        reveal_strlit("From");
        reveal_strlit("Date");
        reveal_strlit("Subject");
        reveal_strlit("\n\n---\n\n");
    }
    let mut lines: Vec<Vec<u8>> = Vec::new();
    let mut i: usize = 0;
    while i < items.len()
        invariant
            i <= items.len(),
            lines@.len() == i,
            forall|k: int| 0 <= k < i ==> (#[trigger] lines@[k])@ == search_line_of(items@[k]),
        decreases items.len() - i,
    {
        let mut line: Vec<u8>;
        match &items[i] {
            MessageFetch::Fetched { id, headers, snippet } => {
                line = crate::bytes::lit("ID: ");
                push_bytes(&mut line, id);
                push_lit(&mut line, "\nFrom: ");
                let from_name = crate::bytes::lit("From");
                let mut v = header(headers, &from_name);
                line.append(&mut v);
                push_lit(&mut line, "\nDate: ");
                let date_name = crate::bytes::lit("Date");
                let mut v2 = header(headers, &date_name);
                line.append(&mut v2);
                push_lit(&mut line, "\nSubject: ");
                let subject_name = crate::bytes::lit("Subject");
                let mut v3 = header(headers, &subject_name);
                line.append(&mut v3);
                push_lit(&mut line, "\nSnippet: ");
                push_bytes(&mut line, snippet);
            },
            MessageFetch::Failed { id, error } => {
                line = crate::bytes::lit("ID: ");
                push_bytes(&mut line, id);
                push_lit(&mut line, " [Error: ");
                push_bytes(&mut line, error);
                push_lit(&mut line, "]");
            },
        }
        assert(line@ == search_line_of(items@[i as int]));
        lines.push(line);
        i = i + 1;
    }
    let sep = crate::bytes::lit("\n\n---\n\n");
    let r = crate::bytes::join_bytes(&lines, &sep);
    proof {
        assert(lines@.map_values(|p: Vec<u8>| p@) =~= items@.map_values(
            |m: MessageFetch| search_line_of(m),
        ));
    }
    r
}

/// Fetches the full content of one Gmail message.
#[derive(Debug)]
pub struct GetGmailMessage {
    pub access_token: Vec<u8>,
}

impl GetGmailMessage {
    pub fn new(access_token: Vec<u8>) -> (r: GetGmailMessage)
        ensures
            r.access_token == access_token,
    {
        GetGmailMessage { access_token }
    }
}

/// The arguments of a single-message fetch.
#[derive(Debug)]
pub struct GetGmailMessageArgs {
    pub message_id: Vec<u8>,
}

/// The full-format request for one message.
pub open spec fn message_full_url_of(id: Seq<u8>) -> Seq<u8> {
    ascii_of("https://gmail.googleapis.com/gmail/v1/users/me/messages/"@) + id + ascii_of(
        "?format=full"@,
    )
}

/// Builds the full-format request URL for one message.
pub fn message_full_url(id: &Vec<u8>) -> (r: Vec<u8>)
    ensures
        r@ == message_full_url_of(id@),
{
    proof {
        reveal_strlit("https://gmail.googleapis.com/gmail/v1/users/me/messages/");
        reveal_strlit("?format=full");
    }
    let mut r = crate::bytes::lit("https://gmail.googleapis.com/gmail/v1/users/me/messages/");
    push_bytes(&mut r, id);
    push_lit(&mut r, "?format=full");
    r
}

/// The rendered form of one full message.
pub open spec fn message_report_of(headers: Seq<GmailHeader>, payload: GmailPart) -> Seq<u8> {
    ascii_of("From: "@) + header_of(headers, ascii_of("From"@)) + ascii_of("\nTo: "@) + header_of(
        headers,
        ascii_of("To"@),
    ) + ascii_of("\nDate: "@) + header_of(headers, ascii_of("Date"@)) + ascii_of("\nSubject: "@)
        + header_of(headers, ascii_of("Subject"@)) + ascii_of("\n\n"@) + extract_text_of(payload)
}

/// Renders one full message: the common headers and the decoded body.
pub fn render_message(headers: &Vec<GmailHeader>, payload: &GmailPart) -> (r: Vec<u8>)
    ensures
        r@ == message_report_of(headers@, *payload),
{
    proof {
        reveal_strlit("From: ");
        reveal_strlit("\nTo: ");
        reveal_strlit("\nDate: ");
        reveal_strlit("\nSubject: ");
        reveal_strlit("\n\n");
        reveal_strlit("From");
        reveal_strlit("To");
        reveal_strlit("Date");
        reveal_strlit("Subject");
    }
    let mut r = crate::bytes::lit("From: ");
    let from_name = crate::bytes::lit("From");
    let mut v = header(headers, &from_name);
    r.append(&mut v);
    push_lit(&mut r, "\nTo: ");
    let to_name = crate::bytes::lit("To");
    let mut v2 = header(headers, &to_name);
    r.append(&mut v2);
    push_lit(&mut r, "\nDate: ");
    let date_name = crate::bytes::lit("Date");
    let mut v3 = header(headers, &date_name);
    r.append(&mut v3);
    push_lit(&mut r, "\nSubject: ");
    let subject_name = crate::bytes::lit("Subject");
    let mut v4 = header(headers, &subject_name);
    r.append(&mut v4);
    push_lit(&mut r, "\n\n");
    let mut body = extract_text(payload);
    r.append(&mut body);
    r
}

/// Fetches all messages of a Gmail thread.
#[derive(Debug)]
pub struct GetGmailThread {
    pub access_token: Vec<u8>,
}

impl GetGmailThread {
    pub fn new(access_token: Vec<u8>) -> (r: GetGmailThread)
        ensures
            r.access_token == access_token,
    {
        GetGmailThread { access_token }
    }
}

/// The arguments of a thread fetch.
#[derive(Debug)]
pub struct GetGmailThreadArgs {
    pub thread_id: Vec<u8>,
}

/// The full-format request for one thread.
pub open spec fn thread_url_of(id: Seq<u8>) -> Seq<u8> {
    ascii_of("https://gmail.googleapis.com/gmail/v1/users/me/threads/"@) + id + ascii_of(
        "?format=full"@,
    )
}

/// Builds the full-format request URL for one thread.
pub fn thread_url(id: &Vec<u8>) -> (r: Vec<u8>)
    ensures
        r@ == thread_url_of(id@),
{
    proof {
        reveal_strlit("https://gmail.googleapis.com/gmail/v1/users/me/threads/");
        reveal_strlit("?format=full");
    }
    let mut r = crate::bytes::lit("https://gmail.googleapis.com/gmail/v1/users/me/threads/");
    push_bytes(&mut r, id);
    push_lit(&mut r, "?format=full");
    r
}

/// One message of a fetched thread.
#[derive(Debug)]
pub struct GmailMessage {
    pub headers: Vec<GmailHeader>,
    pub payload: GmailPart,
}

/// One block of the thread report, numbered from one.
pub open spec fn thread_block_of(m: GmailMessage, n: nat) -> Seq<u8> {
    ascii_of("--- Message "@) + dec_of(n) + ascii_of(" ---\nFrom: "@) + header_of(
        m.headers@,
        ascii_of("From"@),
    ) + ascii_of("\nDate: "@) + header_of(m.headers@, ascii_of("Date"@)) + ascii_of(
        "\nSubject: "@,
    ) + header_of(m.headers@, ascii_of("Subject"@)) + ascii_of("\n\n"@) + extract_text_of(
        m.payload,
    )
}

/// The fixed answer for a thread with no messages.
pub fn no_thread_messages() -> (r: Vec<u8>)
    ensures
        r@ == ascii_of("No messages in thread."@),
{
    proof {
        reveal_strlit("No messages in thread.");
    }
    crate::bytes::lit("No messages in thread.")
}

/// Renders a thread report: each message's block in order, blank-line
/// separated.
pub fn render_thread(messages: &Vec<GmailMessage>) -> (r: Vec<u8>)
    ensures
        r@ == join_of(
            Seq::new(messages@.len(), |i: int| thread_block_of(messages@[i], (i + 1) as nat)),
            ascii_of("\n\n"@),
        ),
{
    proof {
        reveal_strlit("--- Message ");
        reveal_strlit(" ---\nFrom: ");
        reveal_strlit("\nDate: ");
        reveal_strlit("\nSubject: ");
        reveal_strlit("\n\n");
        reveal_strlit("From");
        reveal_strlit("Date");
        reveal_strlit("Subject");
    }
    let ghost target = Seq::new(
        messages@.len(),
        |i: int| thread_block_of(messages@[i], (i + 1) as nat),
    );
    let mut lines: Vec<Vec<u8>> = Vec::new();
    let mut i: usize = 0;
    while i < messages.len()
        invariant
            i <= messages.len(),
            target == Seq::new(
                messages@.len(),
                |i: int| thread_block_of(messages@[i], (i + 1) as nat),
            ),
            lines@.len() == i,
            forall|k: int| 0 <= k < i ==> (#[trigger] lines@[k])@ == target[k],
        decreases messages.len() - i,
    {
        let m = &messages[i];
        let mut line = crate::bytes::lit("--- Message ");
        push_u64_dec(&mut line, (i as u64) + 1);
        push_lit(&mut line, " ---\nFrom: ");
        let from_name = crate::bytes::lit("From");
        let mut v = header(&m.headers, &from_name);
        line.append(&mut v);
        push_lit(&mut line, "\nDate: ");
        let date_name = crate::bytes::lit("Date");
        let mut v2 = header(&m.headers, &date_name);
        line.append(&mut v2);
        push_lit(&mut line, "\nSubject: ");
        let subject_name = crate::bytes::lit("Subject");
        let mut v3 = header(&m.headers, &subject_name);
        line.append(&mut v3);
        push_lit(&mut line, "\n\n");
        let mut body = extract_text(&m.payload);
        line.append(&mut body);
        assert(line@ == target[i as int]);
        lines.push(line);
        i = i + 1;
    }
    let sep = crate::bytes::lit("\n\n");
    let r = crate::bytes::join_bytes(&lines, &sep);
    proof {
        assert(lines@.map_values(|p: Vec<u8>| p@) =~= target);
    }
    r
}

/// Lists calendar events in a time range.
#[derive(Debug)]
pub struct ListCalendarEvents {
    pub access_token: Vec<u8>,
}

impl ListCalendarEvents {
    pub fn new(access_token: Vec<u8>) -> (r: ListCalendarEvents)
        ensures
            r.access_token == access_token,
    {
        ListCalendarEvents { access_token }
    }
}

/// The arguments of an event listing; absent bounds default to the coming
/// week.
#[derive(Debug)]
pub struct ListCalendarEventsArgs {
    pub time_min: Option<Vec<u8>>,
    pub time_max: Option<Vec<u8>>,
    pub max_results: Option<u32>,
    pub calendar_id: Option<Vec<u8>>,
}

/// A week of seconds.
pub const WEEK_SECONDS: i64 = 604800;

/// The calendar in use: the named one, or the primary calendar.
pub open spec fn calendar_or_primary(c: Option<Vec<u8>>) -> Seq<u8> {
    match c {
        Some(v) => v@,
        None => ascii_of("primary"@),
    }
}

/// The event-listing request: bounds defaulted to now and a week from now,
/// count defaulted to twenty and capped at one hundred, calendar and bounds
/// percent-encoded.
pub open spec fn list_events_url_of(args: ListCalendarEventsArgs, now: int) -> Seq<u8> {
    ascii_of("https://www.googleapis.com/calendar/v3/calendars/"@) + url_encoded_of(
        calendar_or_primary(args.calendar_id),
    ) + ascii_of("/events?timeMin="@) + url_encoded_of(
        match args.time_min {
            Some(v) => v@,
            None => crate::ext::utc_secs_rfc3339_of(now),
        },
    ) + ascii_of("&timeMax="@) + url_encoded_of(
        match args.time_max {
            Some(v) => v@,
            None => crate::ext::utc_secs_rfc3339_of(now + WEEK_SECONDS),
        },
    ) + ascii_of("&maxResults="@) + dec_of(capped_of(args.max_results, 20, 100) as nat) + ascii_of(
        "&orderBy=startTime&singleEvents=true"@,
    )
}

/// Builds the event-listing request URL for time `now`.
pub fn list_events_url(args: &ListCalendarEventsArgs, now: i64) -> (r: Vec<u8>)
    requires
        0 <= now <= 100_000_000_000,
    ensures
        r@ == list_events_url_of(*args, now as int),
{
    proof {
        reveal_strlit("https://www.googleapis.com/calendar/v3/calendars/");
        reveal_strlit("/events?timeMin=");
        reveal_strlit("&timeMax=");
        reveal_strlit("&maxResults=");
        reveal_strlit("&orderBy=startTime&singleEvents=true");
        reveal_strlit("primary");
    }
    let calendar = match &args.calendar_id {
        Some(v) => copy_bytes(v),
        None => crate::bytes::lit("primary"),
    };
    let tmin = match &args.time_min {
        Some(v) => copy_bytes(v),
        None => crate::ext::format_utc_rfc3339(now),
    };
    let tmax = match &args.time_max {
        Some(v) => copy_bytes(v),
        None => crate::ext::format_utc_rfc3339(now + WEEK_SECONDS),
    };
    let mut r = crate::bytes::lit("https://www.googleapis.com/calendar/v3/calendars/");
    let mut e1 = crate::ext::url_encode(&calendar);
    r.append(&mut e1);
    push_lit(&mut r, "/events?timeMin=");
    let mut e2 = crate::ext::url_encode(&tmin);
    r.append(&mut e2);
    push_lit(&mut r, "&timeMax=");
    let mut e3 = crate::ext::url_encode(&tmax);
    r.append(&mut e3);
    push_lit(&mut r, "&maxResults=");
    let m = capped(&args.max_results, 20, 100);
    push_u64_dec(&mut r, m as u64);
    push_lit(&mut r, "&orderBy=startTime&singleEvents=true");
    r
}

/// One listed event, fields as the answer carried them.
#[derive(Debug)]
pub struct CalendarEventFields {
    pub id: Option<Vec<u8>>,
    pub summary: Option<Vec<u8>>,
    pub start_datetime: Option<Vec<u8>>,
    pub start_date: Option<Vec<u8>>,
    pub end_datetime: Option<Vec<u8>>,
    pub end_date: Option<Vec<u8>>,
    pub location: Option<Vec<u8>>,
    pub description: Option<Vec<u8>>,
}

/// An optional field, or a fixed fallback.
pub open spec fn or_text(v: Option<Vec<u8>>, fallback: Seq<u8>) -> Seq<u8> {
    match v {
        Some(x) => x@,
        None => fallback,
    }
}

/// A timed bound falls back to the all-day date, then to the placeholder.
pub open spec fn bound_text(datetime: Option<Vec<u8>>, date: Option<Vec<u8>>) -> Seq<u8> {
    match datetime {
        Some(x) => x@,
        None => or_text(date, ascii_of("?"@)),
    }
}

/// The ellipsis appended to a shortened description.
pub open spec fn ellipsis_of() -> Seq<u8> {
    seq![226u8, 128u8, 166u8]
}

/// A description preview: the full text up to two hundred bytes, else the
/// two-hundred-byte prefix with an ellipsis.
pub open spec fn description_preview_of(d: Seq<u8>) -> Seq<u8> {
    if d.len() > 200 {
        d.take(200) + ellipsis_of()
    } else {
        d
    }
}

/// The fixed head of an event entry: id, title and bounds.
pub open spec fn event_entry_head_of(ev: CalendarEventFields) -> Seq<u8> {
    ascii_of("ID: "@) + or_text(ev.id, ascii_of("?"@)) + ascii_of("\nTitle: "@) + or_text(
        ev.summary,
        ascii_of("(No title)"@),
    ) + ascii_of("\nStart: "@) + bound_text(ev.start_datetime, ev.start_date) + ascii_of(
        "\nEnd: "@,
    ) + bound_text(ev.end_datetime, ev.end_date)
}

/// The location line, present only when a location is.
pub open spec fn event_entry_location_of(ev: CalendarEventFields) -> Seq<u8> {
    if or_text(ev.location, Seq::empty()).len() > 0 {
        ascii_of("\nLocation: "@) + or_text(ev.location, Seq::empty())
    } else {
        Seq::<u8>::empty()
    }
}

/// The description line, present only when a description is, previewed.
pub open spec fn event_entry_description_of(ev: CalendarEventFields) -> Seq<u8> {
    if or_text(ev.description, Seq::empty()).len() > 0 {
        ascii_of("\nDescription: "@) + description_preview_of(or_text(ev.description, Seq::empty()))
    } else {
        Seq::<u8>::empty()
    }
}

/// One entry of the event listing report.
pub open spec fn event_entry_of(ev: CalendarEventFields) -> Seq<u8> {
    event_entry_head_of(ev) + event_entry_location_of(ev) + event_entry_description_of(ev)
}

/// The fixed answer when the range holds no events.
pub fn no_events_found() -> (r: Vec<u8>)
    ensures
        r@ == ascii_of("No events found in the specified time range."@),
{
    proof {
        reveal_strlit("No events found in the specified time range.");
    }
    crate::bytes::lit("No events found in the specified time range.")
}

/// Renders one entry of the event listing report.
#[verifier::rlimit(100)]
pub fn render_event_entry(ev: &CalendarEventFields) -> (r: Vec<u8>)
    ensures
        r@ == event_entry_of(*ev),
{
    proof {
        reveal_strlit("ID: ");
        reveal_strlit("\nTitle: ");
        reveal_strlit("\nStart: ");
        reveal_strlit("\nEnd: ");
        reveal_strlit("\nLocation: ");
        reveal_strlit("\nDescription: ");
        reveal_strlit("?");
        reveal_strlit("(No title)");
    }
    let mut r = crate::bytes::lit("ID: ");
    match &ev.id {
        Some(x) => push_bytes(&mut r, x),
        None => push_lit(&mut r, "?"),
    }
    push_lit(&mut r, "\nTitle: ");
    match &ev.summary {
        Some(x) => push_bytes(&mut r, x),
        None => push_lit(&mut r, "(No title)"),
    }
    push_lit(&mut r, "\nStart: ");
    match &ev.start_datetime {
        Some(x) => push_bytes(&mut r, x),
        None => match &ev.start_date {
            Some(x) => push_bytes(&mut r, x),
            None => push_lit(&mut r, "?"),
        },
    }
    push_lit(&mut r, "\nEnd: ");
    match &ev.end_datetime {
        Some(x) => push_bytes(&mut r, x),
        None => match &ev.end_date {
            Some(x) => push_bytes(&mut r, x),
            None => push_lit(&mut r, "?"),
        },
    }
    assert(r@ =~= event_entry_head_of(*ev));
    let ghost head = r@;
    match &ev.location {
        Some(x) => {
            if x.len() > 0 {
                push_lit(&mut r, "\nLocation: ");
                push_bytes(&mut r, x);
            }
        },
        None => {},
    }
    assert(r@ =~= head + event_entry_location_of(*ev));
    let ghost with_loc = r@;
    match &ev.description {
        Some(x) => {
            if x.len() > 0 {
                push_lit(&mut r, "\nDescription: ");
                if x.len() > 200 {
                    let mut pre = crate::bytes::sub_bytes(x, 0, 200);
                    r.append(&mut pre);
                    r.push(226);
                    r.push(128);
                    r.push(166);
                    assert(x@.take(200) =~= x@.subrange(0, 200));
                } else {
                    push_bytes(&mut r, x);
                }
            }
        },
        None => {},
    }
    assert(r@ =~= with_loc + event_entry_description_of(*ev));
    assert(r@ =~= event_entry_of(*ev));
    r
}

/// Renders the whole event listing report.
pub fn render_event_list(events: &Vec<CalendarEventFields>) -> (r: Vec<u8>)
    ensures
        r@ == join_of(
            events@.map_values(|ev: CalendarEventFields| event_entry_of(ev)),
            ascii_of("\n\n---\n\n"@),
        ),
{
    proof {
        reveal_strlit("\n\n---\n\n");
    }
    let mut lines: Vec<Vec<u8>> = Vec::new();
    let mut i: usize = 0;
    while i < events.len()
        invariant
            i <= events.len(),
            lines@.len() == i,
            forall|k: int| 0 <= k < i ==> (#[trigger] lines@[k])@ == event_entry_of(events@[k]),
        decreases events.len() - i,
    {
        lines.push(render_event_entry(&events[i]));
        i = i + 1;
    }
    let sep = crate::bytes::lit("\n\n---\n\n");
    let r = crate::bytes::join_bytes(&lines, &sep);
    proof {
        assert(lines@.map_values(|p: Vec<u8>| p@) =~= events@.map_values(
            |ev: CalendarEventFields| event_entry_of(ev),
        ));
    }
    r
}

/// Creates one calendar event.
#[derive(Debug)]
pub struct CreateCalendarEvent {
    pub access_token: Vec<u8>,
}

impl CreateCalendarEvent {
    pub fn new(access_token: Vec<u8>) -> (r: CreateCalendarEvent)
        ensures
            r.access_token == access_token,
    {
        CreateCalendarEvent { access_token }
    }
}

/// The arguments of an event creation.
#[derive(Debug)]
pub struct CreateCalendarEventArgs {
    pub summary: Vec<u8>,
    pub start_datetime: Vec<u8>,
    pub end_datetime: Vec<u8>,
    pub description: Option<Vec<u8>>,
    pub location: Option<Vec<u8>>,
    pub attendees: Option<Vec<Vec<u8>>>,
    pub timezone: Option<Vec<u8>>,
    pub calendar_id: Option<Vec<u8>>,
}

/// The event-creation endpoint; the calendar id is embedded as given.
pub open spec fn create_event_url_of(calendar_id: Option<Vec<u8>>) -> Seq<u8> {
    ascii_of("https://www.googleapis.com/calendar/v3/calendars/"@) + calendar_or_primary(
        calendar_id,
    ) + ascii_of("/events"@)
}

/// Builds the event-creation endpoint URL.
pub fn create_event_url(calendar_id: &Option<Vec<u8>>) -> (r: Vec<u8>)
    ensures
        r@ == create_event_url_of(*calendar_id),
{
    proof {
        reveal_strlit("https://www.googleapis.com/calendar/v3/calendars/");
        reveal_strlit("/events");
        reveal_strlit("primary");
    }
    let mut r = crate::bytes::lit("https://www.googleapis.com/calendar/v3/calendars/");
    match calendar_id {
        Some(v) => push_bytes(&mut r, v),
        None => push_lit(&mut r, "primary"),
    }
    push_lit(&mut r, "/events");
    r
}

/// A `{"dateTime": D, "timeZone": Z}` bound object.
pub open spec fn bound_json_of(datetime: Seq<u8>, tz: Seq<u8>) -> Seq<u8> {
    ascii_of("{\"dateTime\":"@) + crate::json::json_string_of(datetime) + ascii_of(
        ",\"timeZone\":"@,
    ) + crate::json::json_string_of(tz) + ascii_of("}"@)
}

fn push_bound_json(dst: &mut Vec<u8>, datetime: &Vec<u8>, tz: &Vec<u8>)
    ensures
        final(dst)@ == old(dst)@ + bound_json_of(datetime@, tz@),
{
    proof {
        reveal_strlit("{\"dateTime\":");
        reveal_strlit(",\"timeZone\":");
        reveal_strlit("}");
    }
    push_lit(dst, "{\"dateTime\":");
    crate::json::push_json_string(dst, datetime);
    push_lit(dst, ",\"timeZone\":");
    crate::json::push_json_string(dst, tz);
    push_lit(dst, "}");
    assert(dst@ =~= old(dst)@ + bound_json_of(datetime@, tz@));
}

/// The attendee array: one `{"email": E}` object per address.
pub open spec fn attendees_json_of(emails: Seq<Vec<u8>>) -> Seq<u8> {
    ascii_of("["@) + join_of(
        emails.map_values(
            |e: Vec<u8>| ascii_of("{\"email\":"@) + crate::json::json_string_of(e@) + ascii_of("}"@),
        ),
        ascii_of(","@),
    ) + ascii_of("]"@)
}

/// The timezone in force: the named one or UTC.
pub open spec fn tz_or_utc(tz: Option<Vec<u8>>) -> Seq<u8> {
    match tz {
        Some(v) => v@,
        None => ascii_of("UTC"@),
    }
}

/// The event-creation request body, keys in lexicographic order; optional
/// fields appear only when given.
pub open spec fn create_event_body_of(args: CreateCalendarEventArgs) -> Seq<u8> {
    ascii_of("{"@) + (match args.attendees {
        Some(emails) => ascii_of("\"attendees\":"@) + attendees_json_of(emails@) + ascii_of(","@),
        None => Seq::<u8>::empty(),
    }) + (match args.description {
        Some(d) => ascii_of("\"description\":"@) + crate::json::json_string_of(d@) + ascii_of(","@),
        None => Seq::<u8>::empty(),
    }) + ascii_of("\"end\":"@) + bound_json_of(args.end_datetime@, tz_or_utc(args.timezone)) + (
    match args.location {
        Some(l) => ascii_of(",\"location\":"@) + crate::json::json_string_of(l@),
        None => Seq::<u8>::empty(),
    }) + ascii_of(",\"start\":"@) + bound_json_of(args.start_datetime@, tz_or_utc(args.timezone))
        + ascii_of(",\"summary\":"@) + crate::json::json_string_of(args.summary@) + ascii_of("}"@)
}

/// Builds the event-creation request body.
#[verifier::rlimit(100)]
pub fn create_event_body(args: &CreateCalendarEventArgs) -> (r: Vec<u8>)
    ensures
        r@ == create_event_body_of(*args),
{
    proof {
        reveal_strlit("{");
        reveal_strlit("\"attendees\":");
        reveal_strlit("\"description\":");
        reveal_strlit("\"end\":");
        reveal_strlit(",\"location\":");
        reveal_strlit(",\"start\":");
        reveal_strlit(",\"summary\":");
        reveal_strlit("}");
        reveal_strlit("{\"email\":");
        reveal_strlit("[");
        reveal_strlit("]");
        reveal_strlit(",");
        reveal_strlit("UTC");
    }
    let tz = match &args.timezone {
        Some(v) => copy_bytes(v),
        None => crate::bytes::lit("UTC"),
    };
    let mut r = crate::bytes::lit("{");
    match &args.attendees {
        Some(emails) => {
            push_lit(&mut r, "\"attendees\":");
            let mut entries: Vec<Vec<u8>> = Vec::new();
            let mut i: usize = 0;
            while i < emails.len()
                invariant
                    i <= emails.len(),
                    entries@.len() == i,
                    forall|k: int|
                        0 <= k < i ==> (#[trigger] entries@[k])@ == ascii_of("{\"email\":"@)
                            + crate::json::json_string_of(emails@[k]@) + ascii_of("}"@),
                decreases emails.len() - i,
            {
                let mut entry = crate::bytes::lit("{\"email\":");
                crate::json::push_json_string(&mut entry, &emails[i]);
                push_lit(&mut entry, "}");
                entries.push(entry);
                i = i + 1;
            }
            push_lit(&mut r, "[");
            let sep = crate::bytes::lit(",");
            let mut joined = crate::bytes::join_bytes(&entries, &sep);
            r.append(&mut joined);
            push_lit(&mut r, "]");
            push_lit(&mut r, ",");
            proof {
                assert(entries@.map_values(|p: Vec<u8>| p@) =~= emails@.map_values(
                    |e: Vec<u8>|
                        ascii_of("{\"email\":"@) + crate::json::json_string_of(e@) + ascii_of(
                            "}"@,
                        ),
                ));
            }
        },
        None => {},
    }
    match &args.description {
        Some(d) => {
            push_lit(&mut r, "\"description\":");
            crate::json::push_json_string(&mut r, d);
            push_lit(&mut r, ",");
        },
        None => {},
    }
    push_lit(&mut r, "\"end\":");
    push_bound_json(&mut r, &args.end_datetime, &tz);
    match &args.location {
        Some(l) => {
            push_lit(&mut r, ",\"location\":");
            crate::json::push_json_string(&mut r, l);
        },
        None => {},
    }
    push_lit(&mut r, ",\"start\":");
    push_bound_json(&mut r, &args.start_datetime, &tz);
    push_lit(&mut r, ",\"summary\":");
    crate::json::push_json_string(&mut r, &args.summary);
    push_lit(&mut r, "}");
    assert(r@ =~= create_event_body_of(*args));
    r
}

/// The acknowledgement after creating an event.
pub open spec fn event_created_report_of(id: Seq<u8>, link: Seq<u8>) -> Seq<u8> {
    check_of() + ascii_of(" Event created.\nID: "@) + id + ascii_of("\nLink: "@) + link
}

/// Renders the creation acknowledgement from the answer's id and link.
pub fn render_event_created(id: &Vec<u8>, link: &Vec<u8>) -> (r: Vec<u8>)
    ensures
        r@ == event_created_report_of(id@, link@),
{
    proof {
        reveal_strlit(" Event created.\nID: ");
        reveal_strlit("\nLink: ");
    }
    let mut r: Vec<u8> = Vec::new();
    push_check(&mut r);
    push_lit(&mut r, " Event created.\nID: ");
    push_bytes(&mut r, id);
    push_lit(&mut r, "\nLink: ");
    push_bytes(&mut r, link);
    r
}

/// Updates fields of one calendar event.
#[derive(Debug)]
pub struct UpdateCalendarEvent {
    pub access_token: Vec<u8>,
}

impl UpdateCalendarEvent {
    pub fn new(access_token: Vec<u8>) -> (r: UpdateCalendarEvent)
        ensures
            r.access_token == access_token,
    {
        UpdateCalendarEvent { access_token }
    }
}

/// The arguments of an event update: only given fields change.
#[derive(Debug)]
pub struct UpdateCalendarEventArgs {
    pub event_id: Vec<u8>,
    pub summary: Option<Vec<u8>>,
    pub description: Option<Vec<u8>>,
    pub location: Option<Vec<u8>>,
    pub start_datetime: Option<Vec<u8>>,
    pub end_datetime: Option<Vec<u8>>,
    pub timezone: Option<Vec<u8>>,
    pub calendar_id: Option<Vec<u8>>,
}

/// The endpoint of one event, for updates and deletion; ids are embedded as
/// given.
pub open spec fn event_url_of(calendar_id: Option<Vec<u8>>, event_id: Seq<u8>) -> Seq<u8> {
    ascii_of("https://www.googleapis.com/calendar/v3/calendars/"@) + calendar_or_primary(
        calendar_id,
    ) + ascii_of("/events/"@) + event_id
}

/// Builds the endpoint URL of one event.
pub fn event_url(calendar_id: &Option<Vec<u8>>, event_id: &Vec<u8>) -> (r: Vec<u8>)
    ensures
        r@ == event_url_of(*calendar_id, event_id@),
{
    proof {
        reveal_strlit("https://www.googleapis.com/calendar/v3/calendars/");
        reveal_strlit("/events/");
        reveal_strlit("primary");
    }
    let mut r = crate::bytes::lit("https://www.googleapis.com/calendar/v3/calendars/");
    match calendar_id {
        Some(v) => push_bytes(&mut r, v),
        None => push_lit(&mut r, "primary"),
    }
    push_lit(&mut r, "/events/");
    push_bytes(&mut r, event_id);
    r
}

/// The present fields of an event update, in key order.
pub open spec fn update_fields_of(args: UpdateCalendarEventArgs) -> Seq<Seq<u8>> {
    let tz = tz_or_utc(args.timezone);
    let s0 = Seq::<Seq<u8>>::empty();
    let s1 = match args.description {
        Some(v) => s0.push(ascii_of("\"description\":"@) + crate::json::json_string_of(v@)),
        None => s0,
    };
    let s2 = match args.end_datetime {
        Some(v) => s1.push(ascii_of("\"end\":"@) + bound_json_of(v@, tz)),
        None => s1,
    };
    let s3 = match args.location {
        Some(v) => s2.push(ascii_of("\"location\":"@) + crate::json::json_string_of(v@)),
        None => s2,
    };
    let s4 = match args.start_datetime {
        Some(v) => s3.push(ascii_of("\"start\":"@) + bound_json_of(v@, tz)),
        None => s3,
    };
    match args.summary {
        Some(v) => s4.push(ascii_of("\"summary\":"@) + crate::json::json_string_of(v@)),
        None => s4,
    }
}

/// The patch body of an event update, keys in lexicographic order, holding
/// exactly the given fields.
pub open spec fn update_event_body_of(args: UpdateCalendarEventArgs) -> Seq<u8> {
    ascii_of("{"@) + join_of(update_fields_of(args), ascii_of(","@)) + ascii_of("}"@)
}

/// Builds the patch body of an event update.
pub fn update_event_body(args: &UpdateCalendarEventArgs) -> (r: Vec<u8>)
    ensures
        r@ == update_event_body_of(*args),
{
    proof {
        reveal_strlit("{");
        reveal_strlit("}");
        reveal_strlit(",");
        reveal_strlit("\"description\":");
        reveal_strlit("\"end\":");
        reveal_strlit("\"location\":");
        reveal_strlit("\"start\":");
        reveal_strlit("\"summary\":");
        reveal_strlit("UTC");
    }
    let tz = match &args.timezone {
        Some(v) => copy_bytes(v),
        None => crate::bytes::lit("UTC"),
    };
    let mut fields: Vec<Vec<u8>> = Vec::new();
    match &args.description {
        Some(v) => {
            let mut f = crate::bytes::lit("\"description\":");
            crate::json::push_json_string(&mut f, v);
            fields.push(f);
        },
        None => {},
    }
    match &args.end_datetime {
        Some(v) => {
            let mut f = crate::bytes::lit("\"end\":");
            push_bound_json(&mut f, v, &tz);
            fields.push(f);
        },
        None => {},
    }
    match &args.location {
        Some(v) => {
            let mut f = crate::bytes::lit("\"location\":");
            crate::json::push_json_string(&mut f, v);
            fields.push(f);
        },
        None => {},
    }
    match &args.start_datetime {
        Some(v) => {
            let mut f = crate::bytes::lit("\"start\":");
            push_bound_json(&mut f, v, &tz);
            fields.push(f);
        },
        None => {},
    }
    match &args.summary {
        Some(v) => {
            let mut f = crate::bytes::lit("\"summary\":");
            crate::json::push_json_string(&mut f, v);
            fields.push(f);
        },
        None => {},
    }
    let mut r = crate::bytes::lit("{");
    let sep = crate::bytes::lit(",");
    let mut joined = crate::bytes::join_bytes(&fields, &sep);
    r.append(&mut joined);
    push_lit(&mut r, "}");
    proof {
        assert(fields@.map_values(|p: Vec<u8>| p@) =~= update_fields_of(*args));
        assert(r@ =~= update_event_body_of(*args));
    }
    r
}

/// The acknowledgement after updating an event.
pub open spec fn event_updated_report_of(id: Seq<u8>, link: Seq<u8>) -> Seq<u8> {
    check_of() + ascii_of(" Event updated.\nID: "@) + id + ascii_of("\nLink: "@) + link
}

/// Renders the update acknowledgement from the answer's id and link.
pub fn render_event_updated(id: &Vec<u8>, link: &Vec<u8>) -> (r: Vec<u8>)
    ensures
        r@ == event_updated_report_of(id@, link@),
{
    proof {
        reveal_strlit(" Event updated.\nID: ");
        reveal_strlit("\nLink: ");
    }
    let mut r: Vec<u8> = Vec::new();
    push_check(&mut r);
    push_lit(&mut r, " Event updated.\nID: ");
    push_bytes(&mut r, id);
    push_lit(&mut r, "\nLink: ");
    push_bytes(&mut r, link);
    r
}

/// Deletes one calendar event.
#[derive(Debug)]
pub struct DeleteCalendarEvent {
    pub access_token: Vec<u8>,
}

impl DeleteCalendarEvent {
    pub fn new(access_token: Vec<u8>) -> (r: DeleteCalendarEvent)
        ensures
            r.access_token == access_token,
    {
        DeleteCalendarEvent { access_token }
    }
}

/// The arguments of an event deletion.
#[derive(Debug)]
pub struct DeleteCalendarEventArgs {
    pub event_id: Vec<u8>,
    pub calendar_id: Option<Vec<u8>>,
}

/// The acknowledgement after deleting an event.
pub fn render_event_deleted(event_id: &Vec<u8>) -> (r: Vec<u8>)
    ensures
        r@ == check_of() + ascii_of(" Event "@) + event_id@ + ascii_of(" deleted."@),
{
    proof {
        reveal_strlit(" Event ");
        reveal_strlit(" deleted.");
    }
    let mut r: Vec<u8> = Vec::new();
    push_check(&mut r);
    push_lit(&mut r, " Event ");
    push_bytes(&mut r, event_id);
    push_lit(&mut r, " deleted.");
    r
}

/// Manages a spreadsheet: read, append, update or create.
#[derive(Debug)]
pub struct ManageSpreadsheet {
    pub access_token: Vec<u8>,
}

impl ManageSpreadsheet {
    pub fn new(access_token: Vec<u8>) -> (r: ManageSpreadsheet)
        ensures
            r.access_token == access_token,
    {
        ManageSpreadsheet { access_token }
    }
}

/// The arguments of a spreadsheet operation.
#[derive(Debug)]
pub struct ManageSpreadsheetArgs {
    /// One of `read`, `append`, `update`, `create`.
    pub action: Vec<u8>,
    /// The cell range, or the new spreadsheet's title for `create`.
    pub range_name: Vec<u8>,
    pub spreadsheet_id: Option<Vec<u8>>,
    /// A JSON array-of-arrays for `append` and `update`.
    pub values_json: Option<Vec<u8>>,
}

/// A spreadsheet id that is present and non-empty.
pub open spec fn sid_present(sid: Option<Vec<u8>>) -> bool {
    match sid {
        Some(v) => v@.len() > 0,
        None => false,
    }
}

/// The value-range endpoint of a read.
pub open spec fn sheet_read_url_of(sid: Seq<u8>, range: Seq<u8>) -> Seq<u8> {
    ascii_of("https://sheets.googleapis.com/v4/spreadsheets/"@) + sid + ascii_of("/values/"@)
        + url_encoded_of(range)
}

/// The append endpoint.
pub open spec fn sheet_append_url_of(sid: Seq<u8>, range: Seq<u8>) -> Seq<u8> {
    sheet_read_url_of(sid, range) + ascii_of(":append?valueInputOption=USER_ENTERED"@)
}

/// The overwrite endpoint.
pub open spec fn sheet_update_url_of(sid: Seq<u8>, range: Seq<u8>) -> Seq<u8> {
    sheet_read_url_of(sid, range) + ascii_of("?valueInputOption=USER_ENTERED"@)
}

/// The spreadsheet-creation endpoint.
pub open spec fn sheet_create_url_of() -> Seq<u8> {
    ascii_of("https://sheets.googleapis.com/v4/spreadsheets"@)
}

/// The creation request body naming the new spreadsheet.
pub open spec fn sheet_create_body_of(title: Seq<u8>) -> Seq<u8> {
    ascii_of("{\"properties\":{\"title\":"@) + crate::json::json_string_of(title) + ascii_of("}}"@)
}

fn sheet_values_url(sid: &Vec<u8>, range: &Vec<u8>) -> (r: Vec<u8>)
    ensures
        r@ == sheet_read_url_of(sid@, range@),
{
    proof {
        reveal_strlit("https://sheets.googleapis.com/v4/spreadsheets/");
        reveal_strlit("/values/");
    }
    let mut r = crate::bytes::lit("https://sheets.googleapis.com/v4/spreadsheets/");
    push_bytes(&mut r, sid);
    push_lit(&mut r, "/values/");
    let mut enc = crate::ext::url_encode(range);
    r.append(&mut enc);
    r
}

/// The fixed message when a required value list is absent or empty.
pub fn values_json_required() -> (r: Vec<u8>)
    ensures
        r@ == ascii_of("values_json is required for this action"@),
{
    proof {
        reveal_strlit("values_json is required for this action");
    }
    crate::bytes::lit("values_json is required for this action")
}

/// Reads the value list of an append or update: required, non-empty, and a
/// well-formed JSON array of arrays, else the matching error.
pub fn parse_values_json(raw: &Option<Vec<u8>>) -> (r: Result<
    Vec<Vec<serde_json::Value>>,
    GoogleToolError,
>)
    ensures
        raw is None || raw->0@.len() == 0 ==> r is Err && r->Err_0.0@ == ascii_of(
            "values_json is required for this action"@,
        ),
        raw matches Some(v) && v@.len() > 0 && crate::ext::rows_parse_ok(v@) ==> r is Ok,
        raw matches Some(v) && v@.len() > 0 && !crate::ext::rows_parse_ok(v@) ==> r is Err
            && crate::bytes::starts_with(
            r->Err_0.0@,
            ascii_of(
                "values_json must be a JSON array-of-arrays (e.g. [[\"a\",1]]). Parse error: "@,
            ),
        ),
{
    proof {
        reveal_strlit("values_json is required for this action");
        reveal_strlit("values_json must be a JSON array-of-arrays (e.g. [[\"a\",1]]). Parse error: ");
    }
    match raw {
        None => Err(GoogleToolError(values_json_required())),
        Some(v) => {
            if v.len() == 0 {
                return Err(GoogleToolError(values_json_required()));
            }
            match crate::ext::parse_rows(v) {
                Ok(rows) => Ok(rows),
                Err(e) => {
                    let mut m = crate::bytes::lit(
                        "values_json must be a JSON array-of-arrays (e.g. [[\"a\",1]]). Parse error: ",
                    );
                    let mut tail = crate::ext::json_error_text(&e);
                    let ghost pre = m@;
                    m.append(&mut tail);
                    proof {
                        assert(m@.take(pre.len() as int) =~= pre);
                    }
                    Err(GoogleToolError(m))
                },
            }
        },
    }
}

/// One planned spreadsheet request, ready for the runtime to send.
#[derive(Debug)]
pub enum SheetRequest {
    /// Fetch the range.
    Read { url: Vec<u8> },
    /// Add rows after the range.
    Append { url: Vec<u8>, rows: Vec<Vec<serde_json::Value>> },
    /// Overwrite the range.
    Update { url: Vec<u8>, rows: Vec<Vec<serde_json::Value>> },
    /// Create a spreadsheet with this body.
    Create { url: Vec<u8>, body: Vec<u8> },
}

/// `r` is a read of this URL.
pub open spec fn is_read_req(r: SheetRequest, url: Seq<u8>) -> bool {
    match r {
        SheetRequest::Read { url: u } => u@ == url,
        _ => false,
    }
}

/// `r` is an append to this URL.
pub open spec fn is_append_req(r: SheetRequest, url: Seq<u8>) -> bool {
    match r {
        SheetRequest::Append { url: u, .. } => u@ == url,
        _ => false,
    }
}

/// `r` is an overwrite of this URL.
pub open spec fn is_update_req(r: SheetRequest, url: Seq<u8>) -> bool {
    match r {
        SheetRequest::Update { url: u, .. } => u@ == url,
        _ => false,
    }
}

/// `r` is a creation with this URL and body.
pub open spec fn is_create_req(r: SheetRequest, url: Seq<u8>, body: Seq<u8>) -> bool {
    match r {
        SheetRequest::Create { url: u, body: b } => u@ == url && b@ == body,
        _ => false,
    }
}

/// The error message for an id-less read, append or update.
pub open spec fn sid_required_of(action: Seq<u8>) -> Seq<u8> {
    ascii_of("spreadsheet_id is required for "@) + action
}

/// The error message for an action no operation answers to.
pub open spec fn unknown_action_of(action: Seq<u8>) -> Seq<u8> {
    ascii_of("Unknown action '"@) + action + ascii_of("'. Use: read, append, update, create."@)
}

/// Plans one spreadsheet operation: validates the action, the spreadsheet id
/// and the value list, and fixes the request to send.
pub fn plan_spreadsheet(args: ManageSpreadsheetArgs) -> (r: Result<SheetRequest, GoogleToolError>)
    ensures
        args.action@ == ascii_of("read"@) && !sid_present(args.spreadsheet_id) ==> r is Err
            && r->Err_0.0@ == sid_required_of(ascii_of("read"@)),
        args.action@ == ascii_of("read"@) && sid_present(args.spreadsheet_id) ==> r is Ok
            && is_read_req(r->Ok_0, sheet_read_url_of(args.spreadsheet_id->0@, args.range_name@)),
        args.action@ == ascii_of("append"@) && !sid_present(args.spreadsheet_id) ==> r is Err
            && r->Err_0.0@ == sid_required_of(ascii_of("append"@)),
        args.action@ == ascii_of("append"@) && sid_present(args.spreadsheet_id) && (
        args.values_json is None || args.values_json->0@.len() == 0) ==> r is Err && r->Err_0.0@
            == ascii_of("values_json is required for this action"@),
        args.action@ == ascii_of("append"@) && sid_present(args.spreadsheet_id)
            && args.values_json is Some && args.values_json->0@.len() > 0 && crate::ext::rows_parse_ok(
            args.values_json->0@,
        ) ==> r is Ok && is_append_req(
            r->Ok_0,
            sheet_append_url_of(args.spreadsheet_id->0@, args.range_name@),
        ),
        args.action@ == ascii_of("update"@) && !sid_present(args.spreadsheet_id) ==> r is Err
            && r->Err_0.0@ == sid_required_of(ascii_of("update"@)),
        args.action@ == ascii_of("update"@) && sid_present(args.spreadsheet_id) && (
        args.values_json is None || args.values_json->0@.len() == 0) ==> r is Err && r->Err_0.0@
            == ascii_of("values_json is required for this action"@),
        args.action@ == ascii_of("update"@) && sid_present(args.spreadsheet_id)
            && args.values_json is Some && args.values_json->0@.len() > 0 && crate::ext::rows_parse_ok(
            args.values_json->0@,
        ) ==> r is Ok && is_update_req(
            r->Ok_0,
            sheet_update_url_of(args.spreadsheet_id->0@, args.range_name@),
        ),
        args.action@ == ascii_of("create"@) ==> r is Ok && is_create_req(
            r->Ok_0,
            sheet_create_url_of(),
            sheet_create_body_of(args.range_name@),
        ),
        args.action@ != ascii_of("read"@) && args.action@ != ascii_of("append"@) && args.action@
            != ascii_of("update"@) && args.action@ != ascii_of("create"@) ==> r is Err
            && r->Err_0.0@ == unknown_action_of(args.action@),
{
    proof {
        reveal_strlit("read");
        reveal_strlit("append");
        reveal_strlit("update");
        reveal_strlit("create");
        reveal_strlit("spreadsheet_id is required for ");
        reveal_strlit("Unknown action '");
        reveal_strlit("'. Use: read, append, update, create.");
        reveal_strlit(":append?valueInputOption=USER_ENTERED");
        reveal_strlit("?valueInputOption=USER_ENTERED");
        reveal_strlit("https://sheets.googleapis.com/v4/spreadsheets");
        reveal_strlit("{\"properties\":{\"title\":");
        reveal_strlit("}}");
        assert(ascii_of("read"@)[0] == 114);
        assert(ascii_of("append"@)[0] == 97);
        assert(ascii_of("update"@)[0] == 117);
        assert(ascii_of("create"@)[0] == 99);
        assert(ascii_of("read"@).len() == 4);
        assert(ascii_of("append"@).len() == 6);
        assert(ascii_of("update"@).len() == 6);
        assert(ascii_of("create"@).len() == 6);
    }
    let read_name = crate::bytes::lit("read");
    let append_name = crate::bytes::lit("append");
    let update_name = crate::bytes::lit("update");
    let create_name = crate::bytes::lit("create");
    let sid: Vec<u8>;
    let sid_ok: bool;
    match &args.spreadsheet_id {
        Some(v) => {
            sid_ok = v.len() > 0;
            sid = copy_bytes(v);
        },
        None => {
            sid_ok = false;
            sid = Vec::new();
        },
    }
    if crate::bytes::eq_bytes(&args.action, &read_name) {
        if !sid_ok {
            let mut m = crate::bytes::lit("spreadsheet_id is required for ");
            push_lit(&mut m, "read");
            return Err(GoogleToolError(m));
        }
        let url = sheet_values_url(&sid, &args.range_name);
        return Ok(SheetRequest::Read { url });
    }
    if crate::bytes::eq_bytes(&args.action, &append_name) {
        if !sid_ok {
            let mut m = crate::bytes::lit("spreadsheet_id is required for ");
            push_lit(&mut m, "append");
            return Err(GoogleToolError(m));
        }
        let rows = match parse_values_json(&args.values_json) {
            Ok(rows) => rows,
            Err(e) => {
                return Err(e);
            },
        };
        let mut url = sheet_values_url(&sid, &args.range_name);
        push_lit(&mut url, ":append?valueInputOption=USER_ENTERED");
        return Ok(SheetRequest::Append { url, rows });
    }
    if crate::bytes::eq_bytes(&args.action, &update_name) {
        if !sid_ok {
            let mut m = crate::bytes::lit("spreadsheet_id is required for ");
            push_lit(&mut m, "update");
            return Err(GoogleToolError(m));
        }
        let rows = match parse_values_json(&args.values_json) {
            Ok(rows) => rows,
            Err(e) => {
                return Err(e);
            },
        };
        let mut url = sheet_values_url(&sid, &args.range_name);
        push_lit(&mut url, "?valueInputOption=USER_ENTERED");
        return Ok(SheetRequest::Update { url, rows });
    }
    if crate::bytes::eq_bytes(&args.action, &create_name) {
        let url = crate::bytes::lit("https://sheets.googleapis.com/v4/spreadsheets");
        let mut body = crate::bytes::lit("{\"properties\":{\"title\":");
        crate::json::push_json_string(&mut body, &args.range_name);
        push_lit(&mut body, "}}");
        return Ok(SheetRequest::Create { url, body });
    }
    let mut m = crate::bytes::lit("Unknown action '");
    push_bytes(&mut m, &args.action);
    push_lit(&mut m, "'. Use: read, append, update, create.");
    Err(GoogleToolError(m))
}

/// The report of a successful read: the row count and the data text from the
/// answer.
pub open spec fn read_report_of(range: Seq<u8>, n: nat, data: Seq<u8>) -> Seq<u8> {
    check_of() + ascii_of(" Read "@) + dec_of(n) + ascii_of(" row(s) from "@) + range + ascii_of(
        ".\nData: "@,
    ) + data
}

/// Renders the report of a successful read.
pub fn render_read_result(range: &Vec<u8>, n: u64, data: &Vec<u8>) -> (r: Vec<u8>)
    ensures
        r@ == read_report_of(range@, n as nat, data@),
{
    proof {
        reveal_strlit(" Read ");
        reveal_strlit(" row(s) from ");
        reveal_strlit(".\nData: ");
    }
    let mut r: Vec<u8> = Vec::new();
    push_check(&mut r);
    push_lit(&mut r, " Read ");
    push_u64_dec(&mut r, n);
    push_lit(&mut r, " row(s) from ");
    push_bytes(&mut r, range);
    push_lit(&mut r, ".\nData: ");
    push_bytes(&mut r, data);
    r
}

/// Renders the report of a successful append.
pub fn render_append_result(range: &Vec<u8>, updated_rows: u64) -> (r: Vec<u8>)
    ensures
        r@ == check_of() + ascii_of(" Appended "@) + dec_of(updated_rows as nat) + ascii_of(
            " row(s) to "@,
        ) + range@ + ascii_of("."@),
{
    proof {
        reveal_strlit(" Appended ");
        reveal_strlit(" row(s) to ");
        reveal_strlit(".");
    }
    let mut r: Vec<u8> = Vec::new();
    push_check(&mut r);
    push_lit(&mut r, " Appended ");
    push_u64_dec(&mut r, updated_rows);
    push_lit(&mut r, " row(s) to ");
    push_bytes(&mut r, range);
    push_lit(&mut r, ".");
    r
}

/// Renders the report of a successful update.
pub fn render_update_result(range: &Vec<u8>, updated_cells: u64) -> (r: Vec<u8>)
    ensures
        r@ == check_of() + ascii_of(" Updated "@) + dec_of(updated_cells as nat) + ascii_of(
            " cell(s) in "@,
        ) + range@ + ascii_of("."@),
{
    proof {
        reveal_strlit(" Updated ");
        reveal_strlit(" cell(s) in ");
        reveal_strlit(".");
    }
    let mut r: Vec<u8> = Vec::new();
    push_check(&mut r);
    push_lit(&mut r, " Updated ");
    push_u64_dec(&mut r, updated_cells);
    push_lit(&mut r, " cell(s) in ");
    push_bytes(&mut r, range);
    push_lit(&mut r, ".");
    r
}

/// Renders the report of a created spreadsheet.
pub fn render_create_result(title: &Vec<u8>, new_id: &Vec<u8>, link: &Vec<u8>) -> (r: Vec<u8>)
    ensures
        r@ == check_of() + ascii_of(" Created spreadsheet '"@) + title@ + ascii_of("'. ID: "@)
            + new_id@ + ascii_of("\nURL: "@) + link@,
{
    proof {
        reveal_strlit(" Created spreadsheet '");
        reveal_strlit("'. ID: ");
        reveal_strlit("\nURL: ");
    }
    let mut r: Vec<u8> = Vec::new();
    push_check(&mut r);
    push_lit(&mut r, " Created spreadsheet '");
    push_bytes(&mut r, title);
    push_lit(&mut r, "'. ID: ");
    push_bytes(&mut r, new_id);
    push_lit(&mut r, "\nURL: ");
    push_bytes(&mut r, link);
    r
}


impl SearchGmail {
    /// This tool's descriptor: its name, what it does, and its input schema.
    pub fn definition(&self) -> (d: crate::supervisor::ToolDescriptor)
        ensures
            d.name@ == ascii_of("search_gmail"@),
            d.description@ == ascii_of("Search Gmail messages using Gmail query syntax (e.g. 'from:alice subject:meeting is:unread'). Returns a list of matching messages with ID, sender, date, subject, and a short snippet."@),
            d.schema_json@ == ascii_of("{\"properties\":{\"max_results\":{\"description\":\"Max messages to return (default 10, max 50)\",\"type\":\"integer\"},\"query\":{\"description\":\"Gmail search query (same syntax as the Gmail search bar)\",\"type\":\"string\"}},\"required\":[\"query\"],\"type\":\"object\"}"@),
    {
        proof {
            reveal_strlit("search_gmail");
            reveal_strlit("Search Gmail messages using Gmail query syntax (e.g. 'from:alice subject:meeting is:unread'). Returns a list of matching messages with ID, sender, date, subject, and a short snippet.");
            reveal_strlit("{\"properties\":{\"max_results\":{\"description\":\"Max messages to return (default 10, max 50)\",\"type\":\"integer\"},\"query\":{\"description\":\"Gmail search query (same syntax as the Gmail search bar)\",\"type\":\"string\"}},\"required\":[\"query\"],\"type\":\"object\"}");
        }
        crate::supervisor::ToolDescriptor {
            name: crate::bytes::lit("search_gmail"),
            description: crate::bytes::lit("Search Gmail messages using Gmail query syntax (e.g. 'from:alice subject:meeting is:unread'). Returns a list of matching messages with ID, sender, date, subject, and a short snippet."),
            schema_json: crate::bytes::lit("{\"properties\":{\"max_results\":{\"description\":\"Max messages to return (default 10, max 50)\",\"type\":\"integer\"},\"query\":{\"description\":\"Gmail search query (same syntax as the Gmail search bar)\",\"type\":\"string\"}},\"required\":[\"query\"],\"type\":\"object\"}"),
        }
    }
}


impl GetGmailMessage {
    /// This tool's descriptor: its name, what it does, and its input schema.
    pub fn definition(&self) -> (d: crate::supervisor::ToolDescriptor)
        ensures
            d.name@ == ascii_of("get_gmail_message"@),
            d.description@ == ascii_of("Fetch the full content of a Gmail message by its ID. Returns From, To, Subject, Date headers and the decoded message body."@),
            d.schema_json@ == ascii_of("{\"properties\":{\"message_id\":{\"description\":\"Gmail message ID (from search_gmail results)\",\"type\":\"string\"}},\"required\":[\"message_id\"],\"type\":\"object\"}"@),
    {
        proof {
            reveal_strlit("get_gmail_message");
            reveal_strlit("Fetch the full content of a Gmail message by its ID. Returns From, To, Subject, Date headers and the decoded message body.");
            reveal_strlit("{\"properties\":{\"message_id\":{\"description\":\"Gmail message ID (from search_gmail results)\",\"type\":\"string\"}},\"required\":[\"message_id\"],\"type\":\"object\"}");
        }
        crate::supervisor::ToolDescriptor {
            name: crate::bytes::lit("get_gmail_message"),
            description: crate::bytes::lit("Fetch the full content of a Gmail message by its ID. Returns From, To, Subject, Date headers and the decoded message body."),
            schema_json: crate::bytes::lit("{\"properties\":{\"message_id\":{\"description\":\"Gmail message ID (from search_gmail results)\",\"type\":\"string\"}},\"required\":[\"message_id\"],\"type\":\"object\"}"),
        }
    }
}


impl GetGmailThread {
    /// This tool's descriptor: its name, what it does, and its input schema.
    pub fn definition(&self) -> (d: crate::supervisor::ToolDescriptor)
        ensures
            d.name@ == ascii_of("get_gmail_thread"@),
            d.description@ == ascii_of("Fetch all messages in a Gmail thread. Returns each message's headers and body in chronological order."@),
            d.schema_json@ == ascii_of("{\"properties\":{\"thread_id\":{\"description\":\"Gmail thread ID\",\"type\":\"string\"}},\"required\":[\"thread_id\"],\"type\":\"object\"}"@),
    {
        proof {
            reveal_strlit("get_gmail_thread");
            reveal_strlit("Fetch all messages in a Gmail thread. Returns each message's headers and body in chronological order.");
            reveal_strlit("{\"properties\":{\"thread_id\":{\"description\":\"Gmail thread ID\",\"type\":\"string\"}},\"required\":[\"thread_id\"],\"type\":\"object\"}");
        }
        crate::supervisor::ToolDescriptor {
            name: crate::bytes::lit("get_gmail_thread"),
            description: crate::bytes::lit("Fetch all messages in a Gmail thread. Returns each message's headers and body in chronological order."),
            schema_json: crate::bytes::lit("{\"properties\":{\"thread_id\":{\"description\":\"Gmail thread ID\",\"type\":\"string\"}},\"required\":[\"thread_id\"],\"type\":\"object\"}"),
        }
    }
}


impl ListCalendarEvents {
    /// This tool's descriptor: its name, what it does, and its input schema.
    pub fn definition(&self) -> (d: crate::supervisor::ToolDescriptor)
        ensures
            d.name@ == ascii_of("list_calendar_events"@),
            d.description@ == ascii_of("List Google Calendar events in a given time range. Defaults to the next 7 days if no range is specified."@),
            d.schema_json@ == ascii_of("{\"properties\":{\"calendar_id\":{\"description\":\"Calendar ID (default: 'primary')\",\"type\":\"string\"},\"max_results\":{\"description\":\"Maximum events to return (default 20)\",\"type\":\"integer\"},\"time_max\":{\"description\":\"End of time range in RFC3339. Defaults to 7 days from now.\",\"type\":\"string\"},\"time_min\":{\"description\":\"Start of time range in RFC3339 (e.g. '2024-01-15T00:00:00Z'). Defaults to now.\",\"type\":\"string\"}},\"required\":[],\"type\":\"object\"}"@),
    {
        proof {
            reveal_strlit("list_calendar_events");
            reveal_strlit("List Google Calendar events in a given time range. Defaults to the next 7 days if no range is specified.");
            reveal_strlit("{\"properties\":{\"calendar_id\":{\"description\":\"Calendar ID (default: 'primary')\",\"type\":\"string\"},\"max_results\":{\"description\":\"Maximum events to return (default 20)\",\"type\":\"integer\"},\"time_max\":{\"description\":\"End of time range in RFC3339. Defaults to 7 days from now.\",\"type\":\"string\"},\"time_min\":{\"description\":\"Start of time range in RFC3339 (e.g. '2024-01-15T00:00:00Z'). Defaults to now.\",\"type\":\"string\"}},\"required\":[],\"type\":\"object\"}");
        }
        crate::supervisor::ToolDescriptor {
            name: crate::bytes::lit("list_calendar_events"),
            description: crate::bytes::lit("List Google Calendar events in a given time range. Defaults to the next 7 days if no range is specified."),
            schema_json: crate::bytes::lit("{\"properties\":{\"calendar_id\":{\"description\":\"Calendar ID (default: 'primary')\",\"type\":\"string\"},\"max_results\":{\"description\":\"Maximum events to return (default 20)\",\"type\":\"integer\"},\"time_max\":{\"description\":\"End of time range in RFC3339. Defaults to 7 days from now.\",\"type\":\"string\"},\"time_min\":{\"description\":\"Start of time range in RFC3339 (e.g. '2024-01-15T00:00:00Z'). Defaults to now.\",\"type\":\"string\"}},\"required\":[],\"type\":\"object\"}"),
        }
    }
}


impl CreateCalendarEvent {
    /// This tool's descriptor: its name, what it does, and its input schema.
    pub fn definition(&self) -> (d: crate::supervisor::ToolDescriptor)
        ensures
            d.name@ == ascii_of("create_calendar_event"@),
            d.description@ == ascii_of("Create a new Google Calendar event."@),
            d.schema_json@ == ascii_of("{\"properties\":{\"attendees\":{\"description\":\"List of attendee email addresses\",\"items\":{\"type\":\"string\"},\"type\":\"array\"},\"calendar_id\":{\"description\":\"Calendar ID (default: 'primary')\",\"type\":\"string\"},\"description\":{\"description\":\"Event description / notes\",\"type\":\"string\"},\"end_datetime\":{\"description\":\"End time in RFC3339\",\"type\":\"string\"},\"location\":{\"description\":\"Event location\",\"type\":\"string\"},\"start_datetime\":{\"description\":\"Start time in RFC3339 (e.g. '2024-01-15T10:00:00-05:00')\",\"type\":\"string\"},\"summary\":{\"description\":\"Event title\",\"type\":\"string\"},\"timezone\":{\"description\":\"IANA timezone (e.g. 'America/New_York'). Defaults to UTC.\",\"type\":\"string\"}},\"required\":[\"summary\",\"start_datetime\",\"end_datetime\"],\"type\":\"object\"}"@),
    {
        proof {
            reveal_strlit("create_calendar_event");
            reveal_strlit("Create a new Google Calendar event.");
            reveal_strlit("{\"properties\":{\"attendees\":{\"description\":\"List of attendee email addresses\",\"items\":{\"type\":\"string\"},\"type\":\"array\"},\"calendar_id\":{\"description\":\"Calendar ID (default: 'primary')\",\"type\":\"string\"},\"description\":{\"description\":\"Event description / notes\",\"type\":\"string\"},\"end_datetime\":{\"description\":\"End time in RFC3339\",\"type\":\"string\"},\"location\":{\"description\":\"Event location\",\"type\":\"string\"},\"start_datetime\":{\"description\":\"Start time in RFC3339 (e.g. '2024-01-15T10:00:00-05:00')\",\"type\":\"string\"},\"summary\":{\"description\":\"Event title\",\"type\":\"string\"},\"timezone\":{\"description\":\"IANA timezone (e.g. 'America/New_York'). Defaults to UTC.\",\"type\":\"string\"}},\"required\":[\"summary\",\"start_datetime\",\"end_datetime\"],\"type\":\"object\"}");
        }
        crate::supervisor::ToolDescriptor {
            name: crate::bytes::lit("create_calendar_event"),
            description: crate::bytes::lit("Create a new Google Calendar event."),
            schema_json: crate::bytes::lit("{\"properties\":{\"attendees\":{\"description\":\"List of attendee email addresses\",\"items\":{\"type\":\"string\"},\"type\":\"array\"},\"calendar_id\":{\"description\":\"Calendar ID (default: 'primary')\",\"type\":\"string\"},\"description\":{\"description\":\"Event description / notes\",\"type\":\"string\"},\"end_datetime\":{\"description\":\"End time in RFC3339\",\"type\":\"string\"},\"location\":{\"description\":\"Event location\",\"type\":\"string\"},\"start_datetime\":{\"description\":\"Start time in RFC3339 (e.g. '2024-01-15T10:00:00-05:00')\",\"type\":\"string\"},\"summary\":{\"description\":\"Event title\",\"type\":\"string\"},\"timezone\":{\"description\":\"IANA timezone (e.g. 'America/New_York'). Defaults to UTC.\",\"type\":\"string\"}},\"required\":[\"summary\",\"start_datetime\",\"end_datetime\"],\"type\":\"object\"}"),
        }
    }
}


impl UpdateCalendarEvent {
    /// This tool's descriptor: its name, what it does, and its input schema.
    pub fn definition(&self) -> (d: crate::supervisor::ToolDescriptor)
        ensures
            d.name@ == ascii_of("update_calendar_event"@),
            d.description@ == ascii_of("Update an existing Google Calendar event. Only provide the fields you want to change."@),
            d.schema_json@ == ascii_of("{\"properties\":{\"calendar_id\":{\"description\":\"Calendar ID (default: 'primary')\",\"type\":\"string\"},\"description\":{\"description\":\"New description\",\"type\":\"string\"},\"end_datetime\":{\"description\":\"New end time in RFC3339\",\"type\":\"string\"},\"event_id\":{\"description\":\"Event ID to update\",\"type\":\"string\"},\"location\":{\"description\":\"New location\",\"type\":\"string\"},\"start_datetime\":{\"description\":\"New start time in RFC3339\",\"type\":\"string\"},\"summary\":{\"description\":\"New title\",\"type\":\"string\"},\"timezone\":{\"description\":\"IANA timezone for start/end\",\"type\":\"string\"}},\"required\":[\"event_id\"],\"type\":\"object\"}"@),
    {
        proof {
            reveal_strlit("update_calendar_event");
            reveal_strlit("Update an existing Google Calendar event. Only provide the fields you want to change.");
            reveal_strlit("{\"properties\":{\"calendar_id\":{\"description\":\"Calendar ID (default: 'primary')\",\"type\":\"string\"},\"description\":{\"description\":\"New description\",\"type\":\"string\"},\"end_datetime\":{\"description\":\"New end time in RFC3339\",\"type\":\"string\"},\"event_id\":{\"description\":\"Event ID to update\",\"type\":\"string\"},\"location\":{\"description\":\"New location\",\"type\":\"string\"},\"start_datetime\":{\"description\":\"New start time in RFC3339\",\"type\":\"string\"},\"summary\":{\"description\":\"New title\",\"type\":\"string\"},\"timezone\":{\"description\":\"IANA timezone for start/end\",\"type\":\"string\"}},\"required\":[\"event_id\"],\"type\":\"object\"}");
        }
        crate::supervisor::ToolDescriptor {
            name: crate::bytes::lit("update_calendar_event"),
            description: crate::bytes::lit("Update an existing Google Calendar event. Only provide the fields you want to change."),
            schema_json: crate::bytes::lit("{\"properties\":{\"calendar_id\":{\"description\":\"Calendar ID (default: 'primary')\",\"type\":\"string\"},\"description\":{\"description\":\"New description\",\"type\":\"string\"},\"end_datetime\":{\"description\":\"New end time in RFC3339\",\"type\":\"string\"},\"event_id\":{\"description\":\"Event ID to update\",\"type\":\"string\"},\"location\":{\"description\":\"New location\",\"type\":\"string\"},\"start_datetime\":{\"description\":\"New start time in RFC3339\",\"type\":\"string\"},\"summary\":{\"description\":\"New title\",\"type\":\"string\"},\"timezone\":{\"description\":\"IANA timezone for start/end\",\"type\":\"string\"}},\"required\":[\"event_id\"],\"type\":\"object\"}"),
        }
    }
}


impl DeleteCalendarEvent {
    /// This tool's descriptor: its name, what it does, and its input schema.
    pub fn definition(&self) -> (d: crate::supervisor::ToolDescriptor)
        ensures
            d.name@ == ascii_of("delete_calendar_event"@),
            d.description@ == ascii_of("Delete a Google Calendar event by its ID."@),
            d.schema_json@ == ascii_of("{\"properties\":{\"calendar_id\":{\"description\":\"Calendar ID (default: 'primary')\",\"type\":\"string\"},\"event_id\":{\"description\":\"Event ID to delete\",\"type\":\"string\"}},\"required\":[\"event_id\"],\"type\":\"object\"}"@),
    {
        proof {
            reveal_strlit("delete_calendar_event");
            reveal_strlit("Delete a Google Calendar event by its ID.");
            reveal_strlit("{\"properties\":{\"calendar_id\":{\"description\":\"Calendar ID (default: 'primary')\",\"type\":\"string\"},\"event_id\":{\"description\":\"Event ID to delete\",\"type\":\"string\"}},\"required\":[\"event_id\"],\"type\":\"object\"}");
        }
        crate::supervisor::ToolDescriptor {
            name: crate::bytes::lit("delete_calendar_event"),
            description: crate::bytes::lit("Delete a Google Calendar event by its ID."),
            schema_json: crate::bytes::lit("{\"properties\":{\"calendar_id\":{\"description\":\"Calendar ID (default: 'primary')\",\"type\":\"string\"},\"event_id\":{\"description\":\"Event ID to delete\",\"type\":\"string\"}},\"required\":[\"event_id\"],\"type\":\"object\"}"),
        }
    }
}


impl ManageSpreadsheet {
    /// This tool's descriptor: its name, what it does, and its input schema.
    pub fn definition(&self) -> (d: crate::supervisor::ToolDescriptor)
        ensures
            d.name@ == ascii_of("manage_spreadsheet"@),
            d.description@ == ascii_of("Read, append, update, or create a Google Sheets spreadsheet.\n                - action='read':   read cells from spreadsheet_id at range_name\n                - action='append': add rows to spreadsheet_id at range_name (requires values_json)\n                - action='update': overwrite cells in spreadsheet_id at range_name (requires values_json)\n                - action='create': create a new spreadsheet titled range_name (spreadsheet_id not needed)"@),
            d.schema_json@ == ascii_of("{\"properties\":{\"action\":{\"description\":\"Operation to perform\",\"enum\":[\"read\",\"append\",\"update\",\"create\"],\"type\":\"string\"},\"range_name\":{\"description\":\"Cell range like 'Sheet1!A1:D10', or new spreadsheet title for 'create'\",\"type\":\"string\"},\"spreadsheet_id\":{\"description\":\"Google Sheets spreadsheet ID (required for read/append/update)\",\"type\":\"string\"},\"values_json\":{\"description\":\"JSON array-of-arrays of values to write, e.g. [[\\\"Name\\\",\\\"Age\\\"],[\\\"Alice\\\",30]]\",\"type\":\"string\"}},\"required\":[\"action\",\"range_name\"],\"type\":\"object\"}"@),
    {
        proof {
            reveal_strlit("manage_spreadsheet");
            reveal_strlit("Read, append, update, or create a Google Sheets spreadsheet.\n                - action='read':   read cells from spreadsheet_id at range_name\n                - action='append': add rows to spreadsheet_id at range_name (requires values_json)\n                - action='update': overwrite cells in spreadsheet_id at range_name (requires values_json)\n                - action='create': create a new spreadsheet titled range_name (spreadsheet_id not needed)");
            reveal_strlit("{\"properties\":{\"action\":{\"description\":\"Operation to perform\",\"enum\":[\"read\",\"append\",\"update\",\"create\"],\"type\":\"string\"},\"range_name\":{\"description\":\"Cell range like 'Sheet1!A1:D10', or new spreadsheet title for 'create'\",\"type\":\"string\"},\"spreadsheet_id\":{\"description\":\"Google Sheets spreadsheet ID (required for read/append/update)\",\"type\":\"string\"},\"values_json\":{\"description\":\"JSON array-of-arrays of values to write, e.g. [[\\\"Name\\\",\\\"Age\\\"],[\\\"Alice\\\",30]]\",\"type\":\"string\"}},\"required\":[\"action\",\"range_name\"],\"type\":\"object\"}");
        }
        crate::supervisor::ToolDescriptor {
            name: crate::bytes::lit("manage_spreadsheet"),
            description: crate::bytes::lit("Read, append, update, or create a Google Sheets spreadsheet.\n                - action='read':   read cells from spreadsheet_id at range_name\n                - action='append': add rows to spreadsheet_id at range_name (requires values_json)\n                - action='update': overwrite cells in spreadsheet_id at range_name (requires values_json)\n                - action='create': create a new spreadsheet titled range_name (spreadsheet_id not needed)"),
            schema_json: crate::bytes::lit("{\"properties\":{\"action\":{\"description\":\"Operation to perform\",\"enum\":[\"read\",\"append\",\"update\",\"create\"],\"type\":\"string\"},\"range_name\":{\"description\":\"Cell range like 'Sheet1!A1:D10', or new spreadsheet title for 'create'\",\"type\":\"string\"},\"spreadsheet_id\":{\"description\":\"Google Sheets spreadsheet ID (required for read/append/update)\",\"type\":\"string\"},\"values_json\":{\"description\":\"JSON array-of-arrays of values to write, e.g. [[\\\"Name\\\",\\\"Age\\\"],[\\\"Alice\\\",30]]\",\"type\":\"string\"}},\"required\":[\"action\",\"range_name\"],\"type\":\"object\"}"),
        }
    }
}

} // verus!
