use vstd::prelude::*;
use vstd::string::*;
use crate::outcome::{report_line, reports, Noted};

verus! {

/// What `or_default_context` gives: the value of a success with nothing to
/// print, or `default` with the failure reported under the description `msg`.
pub open spec fn default_of<T, E: core::fmt::Display>(
    res: Result<T, E>,
    msg: Seq<char>,
    default: T,
    verbose: bool,
    r: Noted<T>,
) -> bool {
    match res {
        Ok(t) => r.value == t && r.note is None,
        Err(e) => r.value == default && r.note is Some && reports(
            r.note->Some_0@,
            msg,
            &e,
            verbose,
        ),
    }
}

/// Unwraps a success; a failure gives `default` and asks to print `msg`,
/// with the error behind it when `verbose`.
pub fn or_default_context_impl<T, E>(res: Result<T, E>, msg: &str, default: T, verbose: bool) -> (r:
    Noted<T>) where E: core::fmt::Display
    ensures
        default_of(res, msg@, default, verbose, r),
{
    match res {
        Ok(t) => Noted { value: t, note: None },
        Err(e) => Noted { value: default, note: Some(report_line(msg, &e, verbose)) },
    }
}

/// As [`or_default_context_impl`], the description computed by `closure`,
/// which is called only on a failure.
pub fn with_default_context_impl<T, E, F>(
    res: Result<T, E>,
    closure: F,
    default: T,
    verbose: bool,
) -> (r: Noted<T>) where E: core::fmt::Display, F: FnOnce() -> String
    requires
        res is Err ==> closure.requires(()),
    ensures
        match res {
            Ok(t) => r.value == t && r.note is None,
            Err(e) => exists|msg: String| #[trigger]
                closure.ensures((), msg) && default_of(res, msg@, default, verbose, r),
        },
{
    match res {
        Ok(t) => Noted { value: t, note: None },
        Err(e) => {
            let msg = closure();
            Noted { value: default, note: Some(report_line(msg.as_str(), &e, verbose)) }
        },
    }
}

} // verus!
