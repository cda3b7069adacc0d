//! CLI output styling: ANSI colors and the shape of a status line.
use vstd::prelude::*;
use vstd::string::StringExecFns;

verus! {

pub const DIM: &'static str = "\x1b[2m";
pub const RESET: &'static str = "\x1b[0m";
pub const AMBER: &'static str = "\x1b[38;2;232;168;73m";
pub const TEAL: &'static str = "\x1b[38;2;91;184;176m";
pub const GREEN: &'static str = "\x1b[38;2;126;200;139m";
pub const RED: &'static str = "\x1b[38;2;212;87;78m";

/// A status line: the dim `gifterm` prefix, the action in its color, then
/// the detail.
pub open spec fn status_text(action_color: Seq<char>, action: Seq<char>, detail: Seq<char>) -> Seq<char> {
    DIM@ + "gifterm"@ + RESET@ + " "@ + action_color + action + RESET@ + " "@ + detail
}

/// A hint line: dim, indented under the action column.
pub open spec fn hint_text(msg: Seq<char>) -> Seq<char> {
    DIM@ + "gifterm         "@ + msg + RESET@
}

/// The styled gifterm status line `gifterm <action> <detail>`.
pub fn status_line(action_color: &str, action: &str, detail: &str) -> (line: String)
    ensures
        line@ == status_text(action_color@, action@, detail@),
{
    let mut line = String::new();
    line.append(DIM);
    line.append("gifterm");
    line.append(RESET);
    line.append(" ");
    line.append(action_color);
    line.append(action);
    line.append(RESET);
    line.append(" ");
    line.append(detail);
    line
}

/// The dim hint line (indented under errors).
pub fn hint_line(msg: &str) -> (line: String)
    ensures
        line@ == hint_text(msg@),
{
    let mut line = String::new();
    line.append(DIM);
    line.append("gifterm         ");
    line.append(msg);
    line.append(RESET);
    line
}

} // verus!
