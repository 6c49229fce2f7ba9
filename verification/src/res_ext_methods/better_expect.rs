use vstd::prelude::*;
use vstd::string::*;
use crate::outcome::{report_line, reports, ExitPlan, Outcome};

verus! {

/// What `better_expect` asks for: the value of a success, or an exit with
/// `code` after reporting the failure under the description `msg`.
pub open spec fn expect_of<T, E: core::fmt::Display>(
    res: Result<T, E>,
    msg: Seq<char>,
    code: i32,
    verbose: bool,
    r: Outcome<T>,
) -> bool {
    match res {
        Ok(t) => r == Outcome::Value(t),
        Err(e) => {
            &&& r is Exit
            &&& r->Exit_0.code == code
            &&& r->Exit_0.message is Some
            &&& reports(r->Exit_0.message->Some_0@, msg, &e, verbose)
        },
    }
}

/// Unwraps a success; a failure asks to print `msg`, with the error behind it
/// when `verbose`, and to exit with `code`.
pub fn better_expect_impl<T, E>(res: Result<T, E>, msg: &str, code: i32, verbose: bool) -> (r:
    Outcome<T>) where E: core::fmt::Display
    ensures
        expect_of(res, msg@, code, verbose, r),
{
    match res {
        Ok(t) => Outcome::Value(t),
        Err(e) => Outcome::Exit(ExitPlan { message: Some(report_line(msg, &e, verbose)), code }),
    }
}

/// As [`better_expect_impl`], the description computed by `closure`, which
/// is called only on a failure.
pub fn dyn_expect_impl<T, E, F>(res: Result<T, E>, closure: F, code: i32, verbose: bool) -> (r:
    Outcome<T>) where E: core::fmt::Display, F: FnOnce() -> String
    requires
        res is Err ==> closure.requires(()),
    ensures
        match res {
            Ok(t) => r == Outcome::Value(t),
            Err(e) => exists|msg: String| #[trigger]
                closure.ensures((), msg) && expect_of(res, msg@, code, verbose, r),
        },
{
    match res {
        Ok(t) => Outcome::Value(t),
        Err(e) => {
            let msg = closure();
            Outcome::Exit(ExitPlan { message: Some(report_line(msg.as_str(), &e, verbose)), code })
        },
    }
}

} // verus!
