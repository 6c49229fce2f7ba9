//! What a caller is asked to do once a result has been examined: go on with
//! a value, print a line, or end the process with a code.

use vstd::prelude::*;
use vstd::string::*;

verus! {

/// A request to end the process.
pub struct ExitPlan {
    /// The line to print to standard error first, if any.
    pub message: Option<String>,
    /// The exit code.
    pub code: i32,
}

/// Either a value to go on with, or a request to end the process.
pub enum Outcome<T> {
    Value(T),
    Exit(ExitPlan),
}

/// A value together with a line to print to standard error, if any.
pub struct Noted<V> {
    pub value: V,
    pub note: Option<String>,
}

/// The line reported for a failure described by `msg`: the description
/// alone, or followed by a colon and what the error shows when `verbose`.
pub open spec fn failure_text(msg: Seq<char>, shown: Seq<char>, verbose: bool) -> Seq<char> {
    if verbose {
        msg + ": "@ + shown
    } else {
        msg
    }
}

/// The line reported for a failure described by `msg`, `shown` being what
/// the error shows.
pub fn failure_line(msg: &str, shown: &str, verbose: bool) -> (r: String)
    ensures
        r@ == failure_text(msg@, shown@, verbose),
{
    let mut out = String::from_str(msg);
    if verbose {
        out.append(": ");
        out.append(shown);
    }
    out
}

/// Whether `text` is something that `e` may show through its `Display`.
pub open spec fn displays<E: core::fmt::Display>(e: &E, text: Seq<char>) -> bool {
    exists|s: String| #[trigger] to_string_from_display_ensures::<E>(e, s) && s@ == text
}

/// Whether `line` is a line that may be reported for the failure `e`
/// described by `msg`.
pub open spec fn reports<E: core::fmt::Display>(
    line: Seq<char>,
    msg: Seq<char>,
    e: &E,
    verbose: bool,
) -> bool {
    if verbose {
        exists|shown: Seq<char>| #[trigger]
            displays(e, shown) && line == failure_text(msg, shown, true)
    } else {
        line == msg
    }
}

/// The line reported for the failure `e` described by `msg`; the error is
/// asked to show itself only when `verbose`.
pub fn report_line<E: core::fmt::Display>(msg: &str, e: &E, verbose: bool) -> (r: String)
    ensures
        reports(r@, msg@, e, verbose),
{
    if verbose {
        let shown = e.to_string();
        assert(displays(e, shown@));
        failure_line(msg, shown.as_str(), true)
    } else {
        failure_line(msg, "", false)
    }
}

} // verus!
