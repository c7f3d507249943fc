//! How failures are reported and where the log goes.

use crate::utils::str_eq;
use vstd::prelude::*;
use vstd::string::StringExecFns;

verus! {

/// A reporter for the failures of one part of the program: whatever failure
/// it is handed, it answers with `msg`, the one error that this part shows to
/// its callers. `module` and `item` name the part; `report_line` gives the
/// line that tells such a failure in the log.
pub fn get_reporter<E>(module: &'static str, item: &'static str, msg: &'static str) -> (f: impl Fn(
    E,
) -> &'static str)
    ensures
        forall|e: E| f.requires((e,)),
        forall|e: E, r: &'static str| f.ensures((e,), r) ==> r == msg,
{
    move |e: E| -> (r: &'static str)
        ensures
            r == msg,
        { msg }
}

/// The line that tells the failure `e` of the part `item` of `module` in the
/// log.
pub fn report_line(module: &str, item: &str, e: &str) -> (line: String)
    ensures
        line@ == "["@ + module@ + "] "@ + item@ + " error: "@ + e@,
{
    let mut line = String::from_str("[");
    line.append(module);
    line.append("] ");
    line.append(item);
    line.append(" error: ");
    line.append(e);
    line
}

pub const LOG_CONSOLE: &'static str = "console";

pub const LOG_FILE: &'static str = "file";

/// Where the log goes.
#[derive(Clone, Copy, Debug, PartialEq, Eq, Structural)]
pub enum LogKind {
    /// To the terminal.
    Console,
    /// To a file.
    File,
}

/// The choice of where the log goes.
pub struct LogChoice {
    /// Where the log goes.
    pub kind: LogKind,
    /// Whether the configuration named that kind. Where it named none that
    /// there is, the log goes to the terminal.
    pub supported: bool,
}

/// Where the log goes, for the name `kind` of the configuration: `console` or
/// `file`; with any other name, to the terminal.
pub fn choose_log_kind(kind: &str) -> (r: LogChoice)
    ensures
        kind@ == LOG_CONSOLE@ ==> r.kind == LogKind::Console && r.supported,
        kind@ != LOG_CONSOLE@ && kind@ == LOG_FILE@ ==> r.kind == LogKind::File && r.supported,
        kind@ != LOG_CONSOLE@ && kind@ != LOG_FILE@ ==> r.kind == LogKind::Console && !r.supported,
{
    if str_eq(kind, LOG_CONSOLE) {
        LogChoice { kind: LogKind::Console, supported: true }
    } else if str_eq(kind, LOG_FILE) {
        LogChoice { kind: LogKind::File, supported: true }
    } else {
        LogChoice { kind: LogKind::Console, supported: false }
    }
}

} // verus!
