//! The methods on results: attach context to a failure, or decide what to
//! do about it.

use vstd::prelude::*;
use vstd::string::*;
use vstd::utf8::*;
use crate::ctx::{ctx_shown, ErrCtx};
use crate::outcome::{displays, failure_line, failure_text, ExitPlan, Outcome};
use crate::res_ext_methods::better_expect::{better_expect_impl, dyn_expect_impl};
use crate::res_ext_methods::context::{
    appended,
    byte_context_impl,
    carries,
    extra_byte_context_impl,
    extra_ctx_impl,
    has_room,
    new_context_impl,
};
use crate::res_ext_methods::or_exit::{or_exit_impl, or_exit_of};
use crate::res_ext_methods::with_context::{extra_with_ctx_impl, with_context_impl};

verus! {

/// Whether `r` is what `better_expect` asks for, for a result that stands
/// for `plain`, under the description `msg`, when the error is shown as
/// `shown_as` makes of what its source shows.
pub open spec fn expects<T, E: core::fmt::Display>(
    plain: Result<T, E>,
    shown_as: spec_fn(Seq<char>) -> Seq<char>,
    msg: Seq<char>,
    code: i32,
    verbose: bool,
    r: Outcome<T>,
) -> bool {
    match plain {
        Ok(t) => r == Outcome::Value(t),
        Err(e) => {
            &&& r is Exit
            &&& r->Exit_0.code == code
            &&& r->Exit_0.message is Some
            &&& if verbose {
                exists|s: Seq<char>| #[trigger]
                    displays(&e, s) && r->Exit_0.message->Some_0@ == failure_text(
                        msg,
                        shown_as(s),
                        true,
                    )
            } else {
                r->Exit_0.message->Some_0@ == msg
            }
        },
    }
}

/// Context and exit decisions for a result with source errors of type `E`.
pub trait ResExt<T, E>: Sized {
    /// The result that `self` stands for: its value, or its source error.
    spec fn plain(self) -> Result<T, E>;

    /// The chain of context after the message `bytes` is attached.
    spec fn chain(self, bytes: Seq<u8>) -> Seq<u8>;

    /// Whether a message of `len` bytes can still be attached.
    spec fn room_for(self, len: nat) -> bool;

    /// Whether the context, if any, is text that can be shown.
    spec fn showable(self) -> bool;

    /// What the error shows when its source shows `source`.
    spec fn shown_as(self, source: Seq<char>) -> Seq<char>;

    /// Unwraps a success; a failure asks to exit with `code`, silently.
    fn or_exit(self, code: i32) -> (r: Outcome<T>)
        ensures
            or_exit_of(self.plain(), code, r),
    ;

    /// Unwraps a success; a failure asks to print `msg`, with the error
    /// behind it when `verbose`, and to exit with `code`.
    fn better_expect(self, msg: &str, code: i32, verbose: bool) -> (r: Outcome<T>) where
        E: core::fmt::Display,

        requires
            verbose ==> self.showable(),
        ensures
            expects(self.plain(), |s: Seq<char>| self.shown_as(s), msg@, code, verbose, r),
    ;

    /// As `better_expect`, the description computed by `closure`, which is
    /// called only on a failure.
    fn dyn_expect<F>(self, closure: F, code: i32, verbose: bool) -> (r: Outcome<T>) where
        E: core::fmt::Display,
        F: FnOnce() -> String,

        requires
            verbose ==> self.showable(),
            self.plain() is Err ==> closure.requires(()),
        ensures
            match self.plain() {
                Ok(t) => r == Outcome::Value(t),
                Err(_) => exists|msg: String| #[trigger]
                    closure.ensures((), msg) && expects(
                        self.plain(),
                        |s: Seq<char>| self.shown_as(s),
                        msg@,
                        code,
                        verbose,
                        r,
                    ),
            },
    ;

    /// Attaches the text `msg` to a failure.
    fn context(self, msg: &'static str) -> (r: Result<T, ErrCtx<E>>)
        requires
            self.room_for(msg.spec_bytes().len()),
        ensures
            carries(r, self.plain(), self.chain(msg.spec_bytes())),
            self.showable() && r is Err ==> valid_utf8(r->Err_0.msg@),
    ;

    /// Attaches the text that `closure` computes to a failure; it is called
    /// only on a failure.
    fn with_context<F>(self, closure: F) -> (r: Result<T, ErrCtx<E>>) where F: FnOnce() -> String
        requires
            self.plain() is Err ==> closure.requires(()),
            forall|s: String| #[trigger]
                closure.ensures((), s) ==> self.room_for(encode_utf8(s@).len()),
        ensures
            match self.plain() {
                Ok(t) => r == Ok::<T, ErrCtx<E>>(t),
                Err(_) => exists|s: String| #[trigger]
                    closure.ensures((), s) && carries(
                        r,
                        self.plain(),
                        self.chain(encode_utf8(s@)),
                    ),
            },
            self.showable() && r is Err ==> valid_utf8(r->Err_0.msg@),
    ;

    /// Attaches the bytes `bytes` to a failure.
    fn byte_context(self, bytes: Vec<u8>) -> (r: Result<T, ErrCtx<E>>)
        requires
            self.room_for(bytes@.len()),
        ensures
            carries(r, self.plain(), self.chain(bytes@)),
    ;
}

impl<T, E> ResExt<T, E> for Result<T, E> {
    open spec fn plain(self) -> Result<T, E> {
        self
    }

    /// The first message is the whole chain.
    open spec fn chain(self, bytes: Seq<u8>) -> Seq<u8> {
        bytes
    }

    open spec fn room_for(self, len: nat) -> bool {
        true
    }

    open spec fn showable(self) -> bool {
        true
    }

    open spec fn shown_as(self, source: Seq<char>) -> Seq<char> {
        source
    }

    fn or_exit(self, code: i32) -> (r: Outcome<T>) {
        or_exit_impl(self, code)
    }

    fn better_expect(self, msg: &str, code: i32, verbose: bool) -> (r: Outcome<T>) where
        E: core::fmt::Display,
     {
        better_expect_impl(self, msg, code, verbose)
    }

    fn dyn_expect<F>(self, closure: F, code: i32, verbose: bool) -> (r: Outcome<T>) where
        E: core::fmt::Display,
        F: FnOnce() -> String,
     {
        dyn_expect_impl(self, closure, code, verbose)
    }

    fn context(self, msg: &'static str) -> (r: Result<T, ErrCtx<E>>) {
        new_context_impl(self, msg)
    }

    fn with_context<F>(self, closure: F) -> (r: Result<T, ErrCtx<E>>) where F: FnOnce() -> String {
        with_context_impl(self, closure)
    }

    fn byte_context(self, bytes: Vec<u8>) -> (r: Result<T, ErrCtx<E>>) {
        byte_context_impl(self, bytes)
    }
}

/// The line printed for the failure `e` described by `msg`; the error is
/// asked to show itself only when `verbose`.
pub fn ctx_report_line<E: core::fmt::Display>(msg: &str, e: &ErrCtx<E>, verbose: bool) -> (r:
    String)
    requires
        verbose ==> valid_utf8(e.msg@),
    ensures
        if verbose {
            exists|s: Seq<char>| #[trigger]
                displays(&e.source, s) && r@ == failure_text(msg@, ctx_shown(e.msg@, s), true)
        } else {
            r@ == msg@
        },
{
    if verbose {
        let source = e.source.to_string();
        assert(displays(&e.source, source@));
        let shown = e.render(source.as_str());
        failure_line(msg, shown.as_str(), true)
    } else {
        failure_line(msg, "", false)
    }
}

/// An exit with a line made by `ctx_report_line` is what `expects` asks for.
proof fn lemma_expects_ctx<T, E: core::fmt::Display>(
    res: Result<T, ErrCtx<E>>,
    msg: Seq<char>,
    code: i32,
    verbose: bool,
    r: Outcome<T>,
)
    requires
        res is Err,
        r is Exit,
        r->Exit_0.code == code,
        r->Exit_0.message is Some,
        if verbose {
            exists|s: Seq<char>| #[trigger]
                displays(&res->Err_0.source, s) && r->Exit_0.message->Some_0@ == failure_text(
                    msg,
                    ctx_shown(res->Err_0.msg@, s),
                    true,
                )
        } else {
            r->Exit_0.message->Some_0@ == msg
        },
    ensures
        expects(
            <Result<T, ErrCtx<E>> as ResExt<T, E>>::plain(res),
            |s: Seq<char>| <Result<T, ErrCtx<E>> as ResExt<T, E>>::shown_as(res, s),
            msg,
            code,
            verbose,
            r,
        ),
{
    if verbose {
        let s = choose|s: Seq<char>| #[trigger]
            displays(&res->Err_0.source, s) && r->Exit_0.message->Some_0@ == failure_text(
                msg,
                ctx_shown(res->Err_0.msg@, s),
                true,
            );
        let f = |s: Seq<char>| <Result<T, ErrCtx<E>> as ResExt<T, E>>::shown_as(res, s);
        let plain = <Result<T, ErrCtx<E>> as ResExt<T, E>>::plain(res);
        assert(f(s) == ctx_shown(res->Err_0.msg@, s));
        assert(displays(&plain->Err_0, s));
    }
}

impl<T, E> ResExt<T, E> for Result<T, ErrCtx<E>> {
    open spec fn plain(self) -> Result<T, E> {
        match self {
            Ok(t) => Ok(t),
            Err(e) => Err(e.source),
        }
    }

    /// The message joins the chain that the error already carries.
    open spec fn chain(self, bytes: Seq<u8>) -> Seq<u8> {
        match self {
            Ok(_) => bytes,
            Err(e) => appended(e.msg@, bytes),
        }
    }

    open spec fn room_for(self, len: nat) -> bool {
        has_room(self, len)
    }

    open spec fn showable(self) -> bool {
        self is Err ==> valid_utf8(self->Err_0.msg@)
    }

    open spec fn shown_as(self, source: Seq<char>) -> Seq<char> {
        match self {
            Ok(_) => source,
            Err(e) => ctx_shown(e.msg@, source),
        }
    }

    fn or_exit(self, code: i32) -> (r: Outcome<T>) {
        or_exit_impl(self, code)
    }

    fn better_expect(self, msg: &str, code: i32, verbose: bool) -> (r: Outcome<T>) where
        E: core::fmt::Display,
     {
        match self {
            Ok(t) => Outcome::Value(t),
            Err(e) => {
                let r = Outcome::Exit(
                    ExitPlan { message: Some(ctx_report_line(msg, &e, verbose)), code },
                );
                proof {
                    lemma_expects_ctx(self, msg@, code, verbose, r);
                }
                r
            },
        }
    }

    fn dyn_expect<F>(self, closure: F, code: i32, verbose: bool) -> (r: Outcome<T>) where
        E: core::fmt::Display,
        F: FnOnce() -> String,
     {
        match self {
            Ok(t) => Outcome::Value(t),
            Err(e) => {
                let msg = closure();
                let r = Outcome::Exit(
                    ExitPlan { message: Some(ctx_report_line(msg.as_str(), &e, verbose)), code },
                );
                proof {
                    lemma_expects_ctx(self, msg@, code, verbose, r);
                }
                r
            },
        }
    }

    fn context(self, msg: &'static str) -> (r: Result<T, ErrCtx<E>>) {
        extra_ctx_impl(self, msg)
    }

    fn with_context<F>(self, closure: F) -> (r: Result<T, ErrCtx<E>>) where F: FnOnce() -> String {
        extra_with_ctx_impl(self, closure)
    }

    fn byte_context(self, bytes: Vec<u8>) -> (r: Result<T, ErrCtx<E>>) {
        extra_byte_context_impl(self, bytes.as_slice())
    }
}

} // verus!
