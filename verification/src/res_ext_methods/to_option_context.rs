use vstd::prelude::*;
use vstd::string::*;
use crate::outcome::{report_line, reports, Noted};

verus! {

/// What `to_option_context` gives: the value of a success with nothing to
/// print, or nothing with the failure reported under the description `msg`.
pub open spec fn option_of<T, E: core::fmt::Display>(
    res: Result<T, E>,
    msg: Seq<char>,
    verbose: bool,
    r: Noted<Option<T>>,
) -> bool {
    match res {
        Ok(t) => r.value == Some(t) && r.note is None,
        Err(e) => r.value is None && r.note is Some && reports(
            r.note->Some_0@,
            msg,
            &e,
            verbose,
        ),
    }
}

/// Turns a success into `Some`; a failure gives `None` and asks to print
/// `msg`, with the error behind it when `verbose`.
pub fn to_option_context_impl<T, E>(res: Result<T, E>, msg: &'static str, verbose: bool) -> (r:
    Noted<Option<T>>) where E: core::fmt::Display
    ensures
        option_of(res, msg@, verbose, r),
{
    match res {
        Ok(t) => Noted { value: Some(t), note: None },
        Err(e) => Noted { value: None, note: Some(report_line(msg, &e, verbose)) },
    }
}

/// As [`to_option_context_impl`], the description computed by `closure`,
/// which is called only on a failure.
pub fn with_option_context_impl<T, E, F>(res: Result<T, E>, closure: F, verbose: bool) -> (r: Noted<
    Option<T>,
>) where E: core::fmt::Display, F: FnOnce() -> String
    requires
        res is Err ==> closure.requires(()),
    ensures
        match res {
            Ok(t) => r.value == Some(t) && r.note is None,
            Err(e) => exists|msg: String| #[trigger]
                closure.ensures((), msg) && option_of(res, msg@, verbose, r),
        },
{
    match res {
        Ok(t) => Noted { value: Some(t), note: None },
        Err(e) => {
            let msg = closure();
            Noted { value: None, note: Some(report_line(msg.as_str(), &e, verbose)) }
        },
    }
}

} // verus!
