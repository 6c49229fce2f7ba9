use vstd::prelude::*;
use crate::outcome::{ExitPlan, Outcome};

verus! {

/// What `or_exit` asks for: the value of a success, or an exit with `code`
/// and nothing printed.
pub open spec fn or_exit_of<T, E>(res: Result<T, E>, code: i32, r: Outcome<T>) -> bool {
    match res {
        Ok(t) => r == Outcome::Value(t),
        Err(_) => r is Exit && r->Exit_0.message is None && r->Exit_0.code == code,
    }
}

/// Unwraps a success; a failure asks to exit with `code`, silently.
pub fn or_exit_impl<T, E>(res: Result<T, E>, code: i32) -> (r: Outcome<T>)
    ensures
        or_exit_of(res, code, r),
{
    match res {
        Ok(t) => Outcome::Value(t),
        Err(_) => Outcome::Exit(ExitPlan { message: None, code }),
    }
}

} // verus!
