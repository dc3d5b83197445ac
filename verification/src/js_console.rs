//! Console support for the emulated environment: `console.log` and its
//! siblings stringify every argument, join the pieces with single spaces, and
//! route the line to the host's log sink at the matching severity.
//!
//! A native string is used as-is; any other value arrives either already
//! serialized by the engine's structured serializer or as an explicit
//! "could not be serialized" marker, which degrades to a fixed placeholder
//! string instead of raising.

use vstd::prelude::*;

verus! {

/// Severity of one console line at the host's log sink.
#[derive(Clone, Copy, PartialEq, Eq, Structural, Debug)]
pub enum Severity {
    /// `console.log`, `info`, `debug` and `trace`.
    Info,
    /// `console.warn`.
    Warn,
    /// `console.error`.
    Error,
}

/// One console argument after crossing the engine boundary.
#[derive(Debug)]
pub enum ConsoleArg {
    /// The argument was a native string; it is used as-is.
    Text(String),
    /// The argument was serialized by the engine's structured serializer.
    Serialized(String),
    /// Serialization failed or produced nothing; a placeholder is printed.
    Unserializable,
}

/// One line for the host's log sink.
#[derive(Debug)]
pub struct LogEntry {
    /// The severity matching the console method that was called.
    pub severity: Severity,
    /// The space-joined, stringified arguments.
    pub message: String,
}

/// The placeholder printed for an argument that could not be serialized.
pub open spec fn placeholder_text() -> Seq<char> {
    "(value could not be serialized)"@
}

/// The text one console argument contributes to the line.
pub open spec fn arg_text(a: ConsoleArg) -> Seq<char> {
    match a {
        ConsoleArg::Text(s) => s@,
        ConsoleArg::Serialized(s) => s@,
        ConsoleArg::Unserializable => placeholder_text(),
    }
}

/// The stringified arguments joined with single spaces.
pub open spec fn joined_args(args: Seq<ConsoleArg>) -> Seq<char>
    decreases args.len(),
{
    if args.len() == 0 {
        Seq::empty()
    } else if args.len() == 1 {
        arg_text(args[0])
    } else {
        joined_args(args.drop_last()) + " "@ + arg_text(args.last())
    }
}

/// Stringifies and space-joins console arguments.  Total: an argument that
/// could not be serialized contributes the placeholder text instead of
/// raising an error.
pub fn format_args(args: &Vec<ConsoleArg>) -> (s: String)
    ensures
        s@ == joined_args(args@),
{
    let mut s = String::new();
    let mut i: usize = 0;
    while i < args.len()
        invariant
            i <= args@.len(),
            s@ == joined_args(args@.take(i as int)),
        decreases args@.len() - i,
    {
        if i > 0 {
            s.append(" ");
        }
        match &args[i] {
            ConsoleArg::Text(t) => s.append(t.as_str()),
            ConsoleArg::Serialized(t) => s.append(t.as_str()),
            ConsoleArg::Unserializable => s.append("(value could not be serialized)"),
        }
        proof {
            assert(args@.take(i + 1).drop_last() =~= args@.take(i as int));
            assert(args@.take(i + 1).last() == args@[i as int]);
        }
        i = i + 1;
    }
    proof {
        assert(args@.take(args@.len() as int) =~= args@);
    }
    s
}

/// The severity for each console method, by the method's index in the
/// installed `console` object: `log`, `info`, `debug` and `trace` (0 to 3)
/// are informational, `warn` (4) warns, `error` (5) errors.  An index the
/// environment never produces falls back to informational.
pub open spec fn severity_for_level(level: u32) -> Severity {
    if level == 4 {
        Severity::Warn
    } else if level == 5 {
        Severity::Error
    } else {
        Severity::Info
    }
}

/// Decodes one drained console argument: kind 0 is a native string used
/// as-is, kind 1 was serialized by the engine, anything else could not be
/// serialized and becomes the placeholder.
pub fn console_arg_of(kind: u32, text: String) -> (a: ConsoleArg)
    ensures
        kind == 0 ==> a == ConsoleArg::Text(text),
        kind == 1 ==> a == ConsoleArg::Serialized(text),
        kind != 0 && kind != 1 ==> a == ConsoleArg::Unserializable,
{
    if kind == 0 {
        ConsoleArg::Text(text)
    } else if kind == 1 {
        ConsoleArg::Serialized(text)
    } else {
        ConsoleArg::Unserializable
    }
}

/// Builds the log line for one drained console entry: the severity matching
/// the method index, and the space-joined stringified arguments.
pub fn console_entry_for_level(level: u32, args: &Vec<ConsoleArg>) -> (e: LogEntry)
    ensures
        e.severity == severity_for_level(level),
        e.message@ == joined_args(args@),
{
    if level == 4 {
        console_warn(args)
    } else if level == 5 {
        console_error(args)
    } else {
        console_log(args)
    }
}

/// Builds the informational log line for `console.log` and its aliases.
pub fn console_log(args: &Vec<ConsoleArg>) -> (e: LogEntry)
    ensures
        e.severity == Severity::Info,
        e.message@ == joined_args(args@),
{
    LogEntry { severity: Severity::Info, message: format_args(args) }
}

/// Builds the warning log line for `console.warn`.
pub fn console_warn(args: &Vec<ConsoleArg>) -> (e: LogEntry)
    ensures
        e.severity == Severity::Warn,
        e.message@ == joined_args(args@),
{
    LogEntry { severity: Severity::Warn, message: format_args(args) }
}

/// Builds the error log line for `console.error`.
pub fn console_error(args: &Vec<ConsoleArg>) -> (e: LogEntry)
    ensures
        e.severity == Severity::Error,
        e.message@ == joined_args(args@),
{
    LogEntry { severity: Severity::Error, message: format_args(args) }
}

} // verus!
