//! The built-in tools: the calculator's shell, desktop actions, and the
//! persistent memory file's rules.  Process spawning and file reading are the
//! runtime's work; every command line, script and reported message is fixed
//! here.

use vstd::prelude::*;

use crate::bytes::ascii_of;
use crate::bytes::copy_bytes;
use crate::bytes::dec_of;
use crate::bytes::is_blank;
use crate::bytes::push_bytes;
use crate::bytes::push_lit;
use crate::bytes::push_u64_dec;

verus! {

/// A built-in tool's failure: an I/O error's text, or a command that did not
/// succeed.
#[derive(Debug, PartialEq, Eq)]
pub enum ToolError {
    Io(Vec<u8>),
    CommandFailed(Vec<u8>),
}

/// `e` is a command failure carrying this message.
pub open spec fn is_command_failed(e: ToolError, m: Seq<u8>) -> bool {
    match e {
        ToolError::CommandFailed(v) => v@ == m,
        ToolError::Io(_) => false,
    }
}

/// `e` is an I/O failure carrying this message.
pub open spec fn is_io_error(e: ToolError, m: Seq<u8>) -> bool {
    match e {
        ToolError::Io(v) => v@ == m,
        ToolError::CommandFailed(_) => false,
    }
}

/// The calculator's failure marker.
#[derive(Debug)]
pub struct MathError;

/// Performs basic arithmetic; its arguments and results are floating-point,
/// so its evaluation lives with the runtime.
#[derive(Debug)]
pub struct Calculator;

/// Reports the current local date and time.
#[derive(Debug)]
pub struct GetCurrentDateTime;

/// The empty argument object of tools that take nothing.
#[derive(Debug)]
pub struct EmptyArgs {}

/// Opens a named desktop application.
#[derive(Debug)]
pub struct OpenApplication;

/// The arguments of an application launch.
#[derive(Debug)]
pub struct OpenApplicationArgs {
    pub app_name: Vec<u8>,
}

/// The follow-up script that brings the opened application forward.
pub fn open_app_activate_script(app_name: &Vec<u8>) -> (r: Vec<u8>)
    ensures
        r@ == ascii_of("activate application \""@) + app_name@ + ascii_of("\""@),
{
    proof {
        reveal_strlit("activate application \"");
        reveal_strlit("\"");
    }
    let mut r = crate::bytes::lit("activate application \"");
    push_bytes(&mut r, app_name);
    push_lit(&mut r, "\"");
    r
}

/// Turns the launcher's exit into the tool's result: success reports the
/// opened application, failure is a command error naming it.
pub fn open_application_outcome(app_name: &Vec<u8>, success: bool) -> (r: Result<
    Vec<u8>,
    ToolError,
>)
    ensures
        success ==> r is Ok && r->Ok_0@ == ascii_of("Opened "@) + app_name@,
        !success ==> r is Err && is_command_failed(r->Err_0, ascii_of("Failed to open "@)
            + app_name@),
{
    proof {
        reveal_strlit("Opened ");
        reveal_strlit("Failed to open ");
    }
    if success {
        let mut m = crate::bytes::lit("Opened ");
        push_bytes(&mut m, app_name);
        Ok(m)
    } else {
        let mut m = crate::bytes::lit("Failed to open ");
        push_bytes(&mut m, app_name);
        Err(ToolError::CommandFailed(m))
    }
}

/// Opens a URL in a new browser tab.
#[derive(Debug)]
pub struct OpenChromeTab;

/// The arguments of a tab request.
#[derive(Debug)]
pub struct OpenChromeTabArgs {
    pub url: Vec<u8>,
}

/// The browser script that opens the URL in a new tab of the first window,
/// making one when none is open.
pub fn chrome_tab_script(url: &Vec<u8>) -> (r: Vec<u8>)
    ensures
        r@ == ascii_of(
            "tell application \"Google Chrome\"\n    activate\n    if (count every window) = 0 then\n        make new window\n    end if\n    tell window 1\n        make new tab with properties {URL:\""@,
        ) + url@ + ascii_of("\"}\n    end tell\nend tell"@),
{
    proof {
        reveal_strlit(
            "tell application \"Google Chrome\"\n    activate\n    if (count every window) = 0 then\n        make new window\n    end if\n    tell window 1\n        make new tab with properties {URL:\"",
        );
        reveal_strlit("\"}\n    end tell\nend tell");
    }
    let mut r = crate::bytes::lit(
        "tell application \"Google Chrome\"\n    activate\n    if (count every window) = 0 then\n        make new window\n    end if\n    tell window 1\n        make new tab with properties {URL:\"",
    );
    push_bytes(&mut r, url);
    push_lit(&mut r, "\"}\n    end tell\nend tell");
    r
}

/// Turns the script runner's exit into the tool's result.
pub fn open_chrome_tab_outcome(url: &Vec<u8>, success: bool) -> (r: Result<Vec<u8>, ToolError>)
    ensures
        success ==> r is Ok && r->Ok_0@ == ascii_of("Opened "@) + url@ + ascii_of(" in Chrome"@),
        !success ==> r is Err && is_command_failed(r->Err_0, ascii_of(
            "Failed to open Chrome tab"@,
        )),
{
    proof {
        reveal_strlit("Opened ");
        reveal_strlit(" in Chrome");
        reveal_strlit("Failed to open Chrome tab");
    }
    if success {
        let mut m = crate::bytes::lit("Opened ");
        push_bytes(&mut m, url);
        push_lit(&mut m, " in Chrome");
        Ok(m)
    } else {
        Err(ToolError::CommandFailed(crate::bytes::lit("Failed to open Chrome tab")))
    }
}

/// What reading the memory file came to.
#[derive(Debug)]
pub enum FileReadOutcome {
    /// The file's contents.
    Content(Vec<u8>),
    /// The file does not exist.
    NotFound,
    /// Another I/O failure, with its text.
    Failure(Vec<u8>),
}

/// Reads the persistent memory file.
#[derive(Debug)]
pub struct ReadMemory {
    pub path: Vec<u8>,
}

impl ReadMemory {
    pub fn new(path: Vec<u8>) -> (r: ReadMemory)
        ensures
            r.path == path,
    {
        ReadMemory { path }
    }
}

/// Turns the memory file's read into the tool's result: blank contents and a
/// missing file each earn their fixed message, other failures propagate.
pub fn read_memory_outcome(io: FileReadOutcome) -> (r: Result<Vec<u8>, ToolError>)
    ensures
        io matches FileReadOutcome::Content(c) ==> r is Ok && r->Ok_0@ == (if is_blank(c@) {
            ascii_of("Memory is empty."@)
        } else {
            c@
        }),
        io is NotFound ==> r is Ok && r->Ok_0@ == ascii_of(
            "Memory file does not exist yet. Use save_to_memory to create it."@,
        ),
        io matches FileReadOutcome::Failure(e) ==> r is Err && is_io_error(r->Err_0, e@),
{
    proof {
        reveal_strlit("Memory is empty.");
        reveal_strlit("Memory file does not exist yet. Use save_to_memory to create it.");
    }
    match io {
        FileReadOutcome::Content(c) => {
            if crate::bytes::blank_bytes(&c) {
                Ok(crate::bytes::lit("Memory is empty."))
            } else {
                Ok(c)
            }
        },
        FileReadOutcome::NotFound => Ok(
            crate::bytes::lit("Memory file does not exist yet. Use save_to_memory to create it."),
        ),
        FileReadOutcome::Failure(e) => Err(ToolError::Io(e)),
    }
}

/// Replaces the memory file whole.
#[derive(Debug)]
pub struct SaveToMemory {
    pub path: Vec<u8>,
}

impl SaveToMemory {
    pub fn new(path: Vec<u8>) -> (r: SaveToMemory)
        ensures
            r.path == path,
    {
        SaveToMemory { path }
    }
}

/// The arguments of a full rewrite.
#[derive(Debug)]
pub struct SaveToMemoryArgs {
    pub content: Vec<u8>,
}

/// Turns the write's outcome into the tool's result, counting the bytes
/// saved.
pub fn save_memory_outcome(content: &Vec<u8>, io: Result<(), Vec<u8>>) -> (r: Result<
    Vec<u8>,
    ToolError,
>)
    ensures
        io is Ok ==> r is Ok && r->Ok_0@ == ascii_of("Memory saved ("@) + dec_of(content@.len())
            + ascii_of(" characters)"@),
        io matches Err(e) ==> r is Err && is_io_error(r->Err_0, e@),
{
    proof {
        reveal_strlit("Memory saved (");
        reveal_strlit(" characters)");
    }
    match io {
        Ok(()) => {
            let mut m = crate::bytes::lit("Memory saved (");
            push_u64_dec(&mut m, content.len() as u64);
            push_lit(&mut m, " characters)");
            Ok(m)
        },
        Err(e) => Err(ToolError::Io(e)),
    }
}

/// Appends to the memory file without overwriting it.
#[derive(Debug)]
pub struct AppendToMemory {
    pub path: Vec<u8>,
}

impl AppendToMemory {
    pub fn new(path: Vec<u8>) -> (r: AppendToMemory)
        ensures
            r.path == path,
    {
        AppendToMemory { path }
    }
}

/// The arguments of an append.
#[derive(Debug)]
pub struct AppendToMemoryArgs {
    pub content: Vec<u8>,
}

/// The file's new contents after an append: the addition alone when the file
/// was empty, else the old contents, a blank line, and the addition.
pub open spec fn appended_content_of(existing: Seq<u8>, content: Seq<u8>) -> Seq<u8> {
    if existing.len() == 0 {
        content
    } else {
        existing + ascii_of("\n\n"@) + content
    }
}

/// Computes the memory file's new contents for an append.
pub fn appended_content(existing: &Vec<u8>, content: &Vec<u8>) -> (r: Vec<u8>)
    ensures
        r@ == appended_content_of(existing@, content@),
{
    proof {
        reveal_strlit("\n\n");
    }
    if existing.len() == 0 {
        copy_bytes(content)
    } else {
        let mut r = copy_bytes(existing);
        push_lit(&mut r, "\n\n");
        push_bytes(&mut r, content);
        r
    }
}

/// Turns the append's outcome into the tool's result, counting the bytes
/// added.
pub fn append_memory_outcome(content: &Vec<u8>, io: Result<(), Vec<u8>>) -> (r: Result<
    Vec<u8>,
    ToolError,
>)
    ensures
        io is Ok ==> r is Ok && r->Ok_0@ == ascii_of("Appended to memory ("@) + dec_of(
            content@.len(),
        ) + ascii_of(" characters added)"@),
        io matches Err(e) ==> r is Err && is_io_error(r->Err_0, e@),
{
    proof {
        reveal_strlit("Appended to memory (");
        reveal_strlit(" characters added)");
    }
    match io {
        Ok(()) => {
            let mut m = crate::bytes::lit("Appended to memory (");
            push_u64_dec(&mut m, content.len() as u64);
            push_lit(&mut m, " characters added)");
            Ok(m)
        },
        Err(e) => Err(ToolError::Io(e)),
    }
}


impl Calculator {
    /// This tool's descriptor: its name, what it does, and its input schema.
    pub fn definition(&self) -> (d: crate::supervisor::ToolDescriptor)
        ensures
            d.name@ == ascii_of("calculator"@),
            d.description@ == ascii_of("Performs basic math operations (add, subtract, multiply, divide)"@),
            d.schema_json@ == ascii_of("{\"properties\":{\"operation\":{\"enum\":[\"add\",\"subtract\",\"multiply\",\"divide\"],\"type\":\"string\"},\"x\":{\"description\":\"First number\",\"type\":\"number\"},\"y\":{\"description\":\"Second number\",\"type\":\"number\"}},\"required\":[\"x\",\"y\",\"operation\"],\"type\":\"object\"}"@),
    {
        proof {
            reveal_strlit("calculator");
            reveal_strlit("Performs basic math operations (add, subtract, multiply, divide)");
            reveal_strlit("{\"properties\":{\"operation\":{\"enum\":[\"add\",\"subtract\",\"multiply\",\"divide\"],\"type\":\"string\"},\"x\":{\"description\":\"First number\",\"type\":\"number\"},\"y\":{\"description\":\"Second number\",\"type\":\"number\"}},\"required\":[\"x\",\"y\",\"operation\"],\"type\":\"object\"}");
        }
        crate::supervisor::ToolDescriptor {
            name: crate::bytes::lit("calculator"),
            description: crate::bytes::lit("Performs basic math operations (add, subtract, multiply, divide)"),
            schema_json: crate::bytes::lit("{\"properties\":{\"operation\":{\"enum\":[\"add\",\"subtract\",\"multiply\",\"divide\"],\"type\":\"string\"},\"x\":{\"description\":\"First number\",\"type\":\"number\"},\"y\":{\"description\":\"Second number\",\"type\":\"number\"}},\"required\":[\"x\",\"y\",\"operation\"],\"type\":\"object\"}"),
        }
    }
}


impl GetCurrentDateTime {
    /// This tool's descriptor: its name, what it does, and its input schema.
    pub fn definition(&self) -> (d: crate::supervisor::ToolDescriptor)
        ensures
            d.name@ == ascii_of("get_current_date_time"@),
            d.description@ == ascii_of("Returns the current local date and time in YYYY-MM-DD HH:MM:SS format."@),
            d.schema_json@ == ascii_of("{\"properties\":{},\"required\":[],\"type\":\"object\"}"@),
    {
        proof {
            reveal_strlit("get_current_date_time");
            reveal_strlit("Returns the current local date and time in YYYY-MM-DD HH:MM:SS format.");
            reveal_strlit("{\"properties\":{},\"required\":[],\"type\":\"object\"}");
        }
        crate::supervisor::ToolDescriptor {
            name: crate::bytes::lit("get_current_date_time"),
            description: crate::bytes::lit("Returns the current local date and time in YYYY-MM-DD HH:MM:SS format."),
            schema_json: crate::bytes::lit("{\"properties\":{},\"required\":[],\"type\":\"object\"}"),
        }
    }
}


impl OpenApplication {
    /// This tool's descriptor: its name, what it does, and its input schema.
    pub fn definition(&self) -> (d: crate::supervisor::ToolDescriptor)
        ensures
            d.name@ == ascii_of("open_application"@),
            d.description@ == ascii_of("Opens a specified application on macOS (e.g. Safari, Spotify, Terminal)."@),
            d.schema_json@ == ascii_of("{\"properties\":{\"app_name\":{\"description\":\"Name of the application to open\",\"type\":\"string\"}},\"required\":[\"app_name\"],\"type\":\"object\"}"@),
    {
        proof {
            reveal_strlit("open_application");
            reveal_strlit("Opens a specified application on macOS (e.g. Safari, Spotify, Terminal).");
            reveal_strlit("{\"properties\":{\"app_name\":{\"description\":\"Name of the application to open\",\"type\":\"string\"}},\"required\":[\"app_name\"],\"type\":\"object\"}");
        }
        crate::supervisor::ToolDescriptor {
            name: crate::bytes::lit("open_application"),
            description: crate::bytes::lit("Opens a specified application on macOS (e.g. Safari, Spotify, Terminal)."),
            schema_json: crate::bytes::lit("{\"properties\":{\"app_name\":{\"description\":\"Name of the application to open\",\"type\":\"string\"}},\"required\":[\"app_name\"],\"type\":\"object\"}"),
        }
    }
}


impl OpenChromeTab {
    /// This tool's descriptor: its name, what it does, and its input schema.
    pub fn definition(&self) -> (d: crate::supervisor::ToolDescriptor)
        ensures
            d.name@ == ascii_of("open_chrome_tab"@),
            d.description@ == ascii_of("Opens a URL in a new tab in Google Chrome."@),
            d.schema_json@ == ascii_of("{\"properties\":{\"url\":{\"description\":\"The URL to open\",\"type\":\"string\"}},\"required\":[\"url\"],\"type\":\"object\"}"@),
    {
        proof {
            reveal_strlit("open_chrome_tab");
            reveal_strlit("Opens a URL in a new tab in Google Chrome.");
            reveal_strlit("{\"properties\":{\"url\":{\"description\":\"The URL to open\",\"type\":\"string\"}},\"required\":[\"url\"],\"type\":\"object\"}");
        }
        crate::supervisor::ToolDescriptor {
            name: crate::bytes::lit("open_chrome_tab"),
            description: crate::bytes::lit("Opens a URL in a new tab in Google Chrome."),
            schema_json: crate::bytes::lit("{\"properties\":{\"url\":{\"description\":\"The URL to open\",\"type\":\"string\"}},\"required\":[\"url\"],\"type\":\"object\"}"),
        }
    }
}


impl ReadMemory {
    /// This tool's descriptor: its name, what it does, and its input schema.
    pub fn definition(&self) -> (d: crate::supervisor::ToolDescriptor)
        ensures
            d.name@ == ascii_of("read_memory"@),
            d.description@ == ascii_of("Read the persistent memory file. Use to recall stored information about the user."@),
            d.schema_json@ == ascii_of("{\"properties\":{},\"required\":[],\"type\":\"object\"}"@),
    {
        proof {
            reveal_strlit("read_memory");
            reveal_strlit("Read the persistent memory file. Use to recall stored information about the user.");
            reveal_strlit("{\"properties\":{},\"required\":[],\"type\":\"object\"}");
        }
        crate::supervisor::ToolDescriptor {
            name: crate::bytes::lit("read_memory"),
            description: crate::bytes::lit("Read the persistent memory file. Use to recall stored information about the user."),
            schema_json: crate::bytes::lit("{\"properties\":{},\"required\":[],\"type\":\"object\"}"),
        }
    }
}


impl SaveToMemory {
    /// This tool's descriptor: its name, what it does, and its input schema.
    pub fn definition(&self) -> (d: crate::supervisor::ToolDescriptor)
        ensures
            d.name@ == ascii_of("save_to_memory"@),
            d.description@ == ascii_of("Replace the entire memory file with new content. Use to reorganize or rewrite memory."@),
            d.schema_json@ == ascii_of("{\"properties\":{\"content\":{\"description\":\"Full markdown content to save (replaces existing)\",\"type\":\"string\"}},\"required\":[\"content\"],\"type\":\"object\"}"@),
    {
        proof {
            reveal_strlit("save_to_memory");
            reveal_strlit("Replace the entire memory file with new content. Use to reorganize or rewrite memory.");
            reveal_strlit("{\"properties\":{\"content\":{\"description\":\"Full markdown content to save (replaces existing)\",\"type\":\"string\"}},\"required\":[\"content\"],\"type\":\"object\"}");
        }
        crate::supervisor::ToolDescriptor {
            name: crate::bytes::lit("save_to_memory"),
            description: crate::bytes::lit("Replace the entire memory file with new content. Use to reorganize or rewrite memory."),
            schema_json: crate::bytes::lit("{\"properties\":{\"content\":{\"description\":\"Full markdown content to save (replaces existing)\",\"type\":\"string\"}},\"required\":[\"content\"],\"type\":\"object\"}"),
        }
    }
}


impl AppendToMemory {
    /// This tool's descriptor: its name, what it does, and its input schema.
    pub fn definition(&self) -> (d: crate::supervisor::ToolDescriptor)
        ensures
            d.name@ == ascii_of("append_to_memory"@),
            d.description@ == ascii_of("Append new content to the memory file without overwriting existing content."@),
            d.schema_json@ == ascii_of("{\"properties\":{\"content\":{\"description\":\"Content to append to memory\",\"type\":\"string\"}},\"required\":[\"content\"],\"type\":\"object\"}"@),
    {
        proof {
            reveal_strlit("append_to_memory");
            reveal_strlit("Append new content to the memory file without overwriting existing content.");
            reveal_strlit("{\"properties\":{\"content\":{\"description\":\"Content to append to memory\",\"type\":\"string\"}},\"required\":[\"content\"],\"type\":\"object\"}");
        }
        crate::supervisor::ToolDescriptor {
            name: crate::bytes::lit("append_to_memory"),
            description: crate::bytes::lit("Append new content to the memory file without overwriting existing content."),
            schema_json: crate::bytes::lit("{\"properties\":{\"content\":{\"description\":\"Content to append to memory\",\"type\":\"string\"}},\"required\":[\"content\"],\"type\":\"object\"}"),
        }
    }
}

} // verus!
