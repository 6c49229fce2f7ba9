//! Checks that turn a condition into an exit request or into an error with
//! context.

use vstd::prelude::*;
use vstd::string::*;
use vstd::utf8::*;
use crate::ctx::ErrCtx;
use crate::outcome::ExitPlan;

verus! {

/// Asks to print `msg` and exit with `code` when `condition` holds, and for
/// nothing otherwise.
pub fn throw_err_if(condition: bool, msg: &str, code: i32) -> (r: Option<ExitPlan>)
    ensures
        r is Some <==> condition,
        condition ==> r->Some_0.code == code && r->Some_0.message is Some
            && r->Some_0.message->Some_0@ == msg@,
{
    if condition {
        Some(ExitPlan { message: Some(String::from_str(msg)), code })
    } else {
        None
    }
}

/// As [`throw_err_if`], the message computed by `msg`, which is called only
/// when `condition` holds.
pub fn throw_err_if_with<F>(condition: bool, msg: F, code: i32) -> (r: Option<ExitPlan>) where
    F: FnOnce() -> String,

    requires
        condition ==> msg.requires(()),
    ensures
        r is Some <==> condition,
        condition ==> r->Some_0.code == code && r->Some_0.message is Some && msg.ensures(
            (),
            r->Some_0.message->Some_0,
        ),
{
    if condition {
        Some(ExitPlan { message: Some(msg()), code })
    } else {
        None
    }
}

/// Fails with `source` under the context `msg` when `condition` holds, and
/// succeeds otherwise.
pub fn return_err_if<E>(condition: bool, msg: &str, source: E) -> (r: Result<(), ErrCtx<E>>)
    ensures
        r is Err <==> condition,
        condition ==> r->Err_0.msg@ == msg.spec_bytes() && r->Err_0.source == source,
{
    if condition {
        Err(ErrCtx::new(source, msg.as_bytes_vec()))
    } else {
        Ok(())
    }
}

/// As [`return_err_if`], the context computed by `msg`, which is called only
/// when `condition` holds.
pub fn return_err_if_with<E, F>(condition: bool, msg: F, source: E) -> (r: Result<
    (),
    ErrCtx<E>,
>) where F: FnOnce() -> String
    requires
        condition ==> msg.requires(()),
    ensures
        r is Err <==> condition,
        condition ==> r->Err_0.source == source && exists|s: String| #[trigger]
            msg.ensures((), s) && r->Err_0.msg@ == encode_utf8(s@),
{
    if condition {
        let s = msg();
        Err(ErrCtx::new(source, s.as_str().as_bytes_vec()))
    } else {
        Ok(())
    }
}

} // verus!
