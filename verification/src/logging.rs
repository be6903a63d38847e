//! The filter directives that the log output starts from.

use vstd::prelude::*;
use vstd::string::StringExecFns;

verus! {

/// A level of the log output.
#[derive(Clone, Copy, Debug, PartialEq, Eq, Structural)]
pub enum TraceLevel {
    Trace,
    Debug,
    Info,
    Warn,
    Error,
}

/// The directive that stands for `level`: its name in lower case, and
/// `info` where the output is switched off.
pub open spec fn spec_level_directive(level: Option<TraceLevel>) -> Seq<char> {
    match level {
        Some(TraceLevel::Trace) => "trace"@,
        Some(TraceLevel::Debug) => "debug"@,
        Some(TraceLevel::Info) => "info"@,
        Some(TraceLevel::Warn) => "warn"@,
        Some(TraceLevel::Error) => "error"@,
        None => "info"@,
    }
}

/// The directives of a filter at `level` with the further directives
/// `extra`: the directive of the level, then a comma and `extra` if there
/// are any.
pub open spec fn spec_directives(extra: Option<Seq<char>>, level: Option<TraceLevel>) -> Seq<
    char,
> {
    match extra {
        Some(more) => spec_level_directive(level) + ","@ + more,
        None => spec_level_directive(level),
    }
}

/// The characters of the text in `text`, if there is one.
pub open spec fn option_str_view(text: Option<&str>) -> Option<Seq<char>> {
    match text {
        Some(t) => Some(t@),
        None => None,
    }
}

/// The directives of a filter at `level` with the further directives
/// `extra`.
pub fn directives(extra: Option<&str>, level: Option<TraceLevel>) -> (text: String)
    ensures
        text@ == spec_directives(option_str_view(extra), level),
{
    let base: &str = match level {
        Some(TraceLevel::Trace) => "trace",
        Some(TraceLevel::Debug) => "debug",
        Some(TraceLevel::Info) => "info",
        Some(TraceLevel::Warn) => "warn",
        Some(TraceLevel::Error) => "error",
        None => "info",
    };
    let mut text = base.to_owned();
    match extra {
        Some(more) => {
            text.append(",");
            text.append(more);
        },
        None => {},
    }
    text
}

} // verus!
