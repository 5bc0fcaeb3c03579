//! Report budgeting: truncate an oversized codebase report to a character
//! ceiling, appending a fixed truncation marker. Lengths are measured in
//! Unicode scalar values, never in bytes, so truncation cannot split an
//! encoded character.

use vstd::prelude::*;
use vstd::string::StrSliceExecFns;
use vstd::string::StringExecFns;

verus! {

/// The fixed marker appended to a truncated report.
pub open spec fn trunc_marker() -> Seq<char> {
    "\n\n--- REPORT TRUNCATED DUE TO TOKEN LIMIT ---"@
}

/// What `budget` returns: the report itself when it fits the limit, else its
/// first `limit` scalar values followed by the truncation marker.
pub open spec fn budgeted(report: Seq<char>, limit: int) -> Seq<char> {
    if report.len() <= limit {
        report
    } else {
        report.subrange(0, limit) + trunc_marker()
    }
}

/// Truncates `report` to at most `limit` Unicode scalar values, appending the
/// truncation marker when anything was cut; a report at or under the limit is
/// returned unchanged.
pub fn budget(report: &str, limit: usize) -> (r: String)
    ensures
        r@ == budgeted(report@, limit as int),
{
    let n = report.unicode_len();
    if n <= limit {
        report.to_owned()
    } else {
        let mut out = report.substring_char(0, limit).to_owned();
        out.append("\n\n--- REPORT TRUNCATED DUE TO TOKEN LIMIT ---");
        out
    }
}

} // verus!
