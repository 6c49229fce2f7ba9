//! An error value with its context kept in a fixed buffer: the source error,
//! the chain of messages attached to it, and how the two are shown.

use vstd::prelude::*;
use vstd::string::*;
use vstd::utf8::*;
use crate::buf::{extended, lemma_written, written, ResBuf};
use crate::options::{Format, FormatView};
use crate::outcome::{displays, ExitPlan, Outcome};
use crate::std_specs::debug_text;

verus! {

broadcast use vstd::utf8::group_utf8_lib;

/// A source error and the context gathered for it so far.
pub struct ResErr<E, const N: usize> {
    pub msg: ResBuf<N>,
    pub source: E,
}

/// The buffer after the message `msg` joins the chain in it. The first
/// message is written as it is. Every later one starts a new line and is
/// written as delimiter, message prefix, message, message suffix. Each of
/// these pieces is cut at the last whole character that still fits.
pub open spec fn chained(buf: Seq<u8>, fmt: FormatView, msg: Seq<u8>, cap: int) -> Seq<u8> {
    if buf.len() == 0 {
        written(buf, msg, cap)
    } else {
        let line = written(buf, encode_utf8("\n"@), cap);
        let delimited = written(line, encode_utf8(fmt.delimiter), cap);
        let opened = written(delimited, encode_utf8(fmt.msg_prefix), cap);
        let told = written(opened, msg, cap);
        written(told, encode_utf8(fmt.msg_suffix), cap)
    }
}

/// As [`chained`], for a message given as raw bytes: every piece is cut at
/// the byte where the buffer is full.
pub open spec fn chained_bytes(buf: Seq<u8>, fmt: FormatView, msg: Seq<u8>, cap: int) -> Seq<u8> {
    if buf.len() == 0 {
        extended(buf, msg, cap)
    } else {
        let line = extended(buf, encode_utf8("\n"@), cap);
        let delimited = extended(line, encode_utf8(fmt.delimiter), cap);
        let opened = extended(delimited, encode_utf8(fmt.msg_prefix), cap);
        let told = extended(opened, msg, cap);
        extended(told, encode_utf8(fmt.msg_suffix), cap)
    }
}

/// What is shown for an error whose context is the text `msg` and whose
/// source shows as `source`: without context, the source between its prefix
/// and the suffix; with context, the prefix and the context on top, then the
/// same line.
pub open spec fn shown(fmt: FormatView, msg: Seq<u8>, source: Seq<char>) -> Seq<char> {
    if msg.len() == 0 {
        fmt.source_prefix + source + fmt.suffix
    } else {
        fmt.prefix + decode_utf8(msg) + "\n"@ + fmt.source_prefix + source + fmt.suffix
    }
}

/// A chain of text messages is text, and stays within the capacity.
pub proof fn lemma_chained(buf: Seq<u8>, fmt: FormatView, msg: Seq<u8>, cap: int)
    requires
        valid_utf8(msg),
        buf.len() <= cap,
    ensures
        chained(buf, fmt, msg, cap).len() <= cap,
        valid_utf8(buf) ==> valid_utf8(chained(buf, fmt, msg, cap)),
{
    if buf.len() == 0 {
        lemma_written(buf, msg, cap);
    } else {
        let line = written(buf, encode_utf8("\n"@), cap);
        let delimited = written(line, encode_utf8(fmt.delimiter), cap);
        let opened = written(delimited, encode_utf8(fmt.msg_prefix), cap);
        let told = written(opened, msg, cap);
        lemma_written(buf, encode_utf8("\n"@), cap);
        lemma_written(line, encode_utf8(fmt.delimiter), cap);
        lemma_written(delimited, encode_utf8(fmt.msg_prefix), cap);
        lemma_written(opened, msg, cap);
        lemma_written(told, encode_utf8(fmt.msg_suffix), cap);
    }
}

/// A message that fits is attached whole: the first as it is, a later one
/// behind a line break, the delimiter and the message prefix, and followed
/// by the message suffix.
pub proof fn lemma_chained_fits(buf: Seq<u8>, fmt: FormatView, msg: Seq<u8>, cap: int)
    requires
        valid_utf8(msg),
        if buf.len() == 0 {
            msg.len() <= cap
        } else {
            buf.len() + encode_utf8("\n"@).len() + encode_utf8(fmt.delimiter).len() + encode_utf8(
                fmt.msg_prefix,
            ).len() + msg.len() + encode_utf8(fmt.msg_suffix).len() <= cap
        },
    ensures
        chained(buf, fmt, msg, cap) == if buf.len() == 0 {
            msg
        } else {
            buf + encode_utf8("\n"@) + encode_utf8(fmt.delimiter) + encode_utf8(fmt.msg_prefix)
                + msg + encode_utf8(fmt.msg_suffix)
        },
{
    if buf.len() == 0 {
        lemma_written(buf, msg, cap);
        assert(buf + msg =~= msg);
    } else {
        let line = written(buf, encode_utf8("\n"@), cap);
        let delimited = written(line, encode_utf8(fmt.delimiter), cap);
        let opened = written(delimited, encode_utf8(fmt.msg_prefix), cap);
        let told = written(opened, msg, cap);
        lemma_written(buf, encode_utf8("\n"@), cap);
        lemma_written(line, encode_utf8(fmt.delimiter), cap);
        lemma_written(delimited, encode_utf8(fmt.msg_prefix), cap);
        lemma_written(opened, msg, cap);
        lemma_written(told, encode_utf8(fmt.msg_suffix), cap);
    }
}

impl<E, const N: usize> ResErr<E, N> {
    /// How many bytes of context an error of this type holds at most.
    pub open spec fn capacity() -> int {
        ResBuf::<N>::capacity()
    }

    /// An error without context.
    pub fn from_source(source: E) -> (r: Self)
        ensures
            r.msg@ == Seq::<u8>::empty(),
            r.source == source,
    {
        ResErr { msg: ResBuf::new(), source }
    }

    /// An error made from `source`, with `msg` as its first context.
    pub fn new<S>(msg: &str, source: S) -> (r: Self) where E: From<S>
        ensures
            r.msg@ == written(Seq::<u8>::empty(), msg.spec_bytes(), Self::capacity()),
            call_ensures(E::from, (source,), r.source),
            valid_utf8(r.msg@),
    {
        let mut buf = ResBuf::new();
        buf.write_str(msg);
        ResErr { msg: buf, source: E::from(source) }
    }

    /// Attaches the message `msg`.
    pub fn context(&mut self, fmt: &Format, msg: &str)
        ensures
            final(self).msg@ == chained(
                old(self).msg@,
                fmt@,
                msg.spec_bytes(),
                Self::capacity(),
            ),
            final(self).source == old(self).source,
            valid_utf8(old(self).msg@) ==> valid_utf8(final(self).msg@),
            final(self).msg@.len() <= Self::capacity(),
    {
        if self.msg.is_empty() {
            self.msg.write_str(msg);
        } else {
            self.msg.write_str("\n");
            self.msg.write_str(fmt.delimiter.as_str());
            self.msg.write_str(fmt.msg_prefix.as_str());
            self.msg.write_str(msg);
            self.msg.write_str(fmt.msg_suffix.as_str());
        }
    }

    /// Attaches a message given as raw bytes.
    pub fn byte_context(&mut self, fmt: &Format, bytes: &[u8])
        ensures
            final(self).msg@ == chained_bytes(
                old(self).msg@,
                fmt@,
                bytes@,
                Self::capacity(),
            ),
            final(self).source == old(self).source,
            final(self).msg@.len() <= Self::capacity(),
    {
        if self.msg.is_empty() {
            self.msg.extend_from_slice(bytes);
        } else {
            self.msg.extend_from_slice("\n".as_bytes());
            self.msg.extend_from_slice(fmt.delimiter.as_str().as_bytes());
            self.msg.extend_from_slice(fmt.msg_prefix.as_str().as_bytes());
            self.msg.extend_from_slice(bytes);
            self.msg.extend_from_slice(fmt.msg_suffix.as_str().as_bytes());
        }
    }

    /// What is shown for this error when its source shows as `source`.
    pub fn render(&self, fmt: &Format, source: &str) -> (r: String)
        requires
            valid_utf8(self.msg@),
        ensures
            r@ == shown(fmt@, self.msg@, source@),
    {
        let mut out = String::new();
        if self.msg.is_empty() {
            out.append(fmt.source_prefix.as_str());
            out.append(source);
            out.append(fmt.suffix.as_str());
            proof {
                assert(out@ =~= shown(fmt@, self.msg@, source@));
            }
        } else {
            out.append(fmt.prefix.as_str());
            out.append(self.msg.as_str());
            out.append("\n");
            out.append(fmt.source_prefix.as_str());
            out.append(source);
            out.append(fmt.suffix.as_str());
            proof {
                assert(out@ =~= shown(fmt@, self.msg@, source@));
            }
        }
        out
    }

    /// What is shown for this error, the source shown by its `Display`.
    pub fn to_display_string(&self, fmt: &Format) -> (r: String) where E: core::fmt::Display
        requires
            valid_utf8(self.msg@),
        ensures
            exists|s: Seq<char>| #[trigger]
                displays(&self.source, s) && r@ == shown(fmt@, self.msg@, s),
    {
        let s = self.source.to_string();
        assert(displays(&self.source, s@));
        self.render(fmt, s.as_str())
    }

    /// What is shown for this error, the source shown by its `Debug`.
    pub fn to_debug_string(&self, fmt: &Format) -> (r: String) where E: core::fmt::Debug
        requires
            valid_utf8(self.msg@),
        ensures
            exists|s: Seq<char>| r@ == #[trigger] shown(fmt@, self.msg@, s),
    {
        let s = debug_text(&self.source);
        self.render(fmt, s.as_str())
    }
}

/// Whether `r` is `res` with its failure, if any, turned into an error that
/// carries the chain `msg`.
pub open spec fn raised<T, S, E: From<S>, const N: usize>(
    r: Result<T, ResErr<E, N>>,
    res: Result<T, S>,
    msg: Seq<u8>,
) -> bool {
    match res {
        Ok(t) => r == Ok::<T, ResErr<E, N>>(t),
        Err(e) => r is Err && r->Err_0.msg@ == msg && call_ensures(E::from, (e,), r->Err_0.source),
    }
}

/// Whether `r` is `res` with the chain of its error, if any, replaced by
/// `msg`.
pub open spec fn rechained<T, E, const N: usize>(
    r: Result<T, ResErr<E, N>>,
    res: Result<T, ResErr<E, N>>,
    msg: Seq<u8>,
) -> bool {
    match res {
        Ok(t) => r == Ok::<T, ResErr<E, N>>(t),
        Err(e) => r is Err && r->Err_0.msg@ == msg && r->Err_0.source == e.source,
    }
}

/// Turns a failure into an error with the text `msg` as its first context.
pub fn context<T, S, E, const N: usize>(res: Result<T, S>, msg: &str) -> (r: Result<
    T,
    ResErr<E, N>,
>) where E: From<S>
    ensures
        raised(
            r,
            res,
            written(Seq::<u8>::empty(), msg.spec_bytes(), ResErr::<E, N>::capacity()),
        ),
        r is Err ==> valid_utf8(r->Err_0.msg@),
{
    match res {
        Ok(ok) => Ok(ok),
        Err(e) => Err(ResErr::new(msg, e)),
    }
}

/// Attaches the text `msg` to a failure that may already carry context.
pub fn extra_context<T, E, const N: usize>(
    res: Result<T, ResErr<E, N>>,
    fmt: &Format,
    msg: &str,
) -> (r: Result<T, ResErr<E, N>>)
    ensures
        res is Err ==> rechained(
            r,
            res,
            chained(res->Err_0.msg@, fmt@, msg.spec_bytes(), ResErr::<E, N>::capacity()),
        ),
        res is Ok ==> r == res,
        res is Err && valid_utf8(res->Err_0.msg@) ==> valid_utf8(r->Err_0.msg@),
{
    match res {
        Ok(ok) => Ok(ok),
        Err(mut e) => {
            e.context(fmt, msg);
            Err(e)
        },
    }
}

/// Turns a failure into an error whose first context is the text that
/// `closure` computes; it is called only on a failure.
pub fn with_context<T, S, E, F, const N: usize>(res: Result<T, S>, closure: F) -> (r: Result<
    T,
    ResErr<E, N>,
>) where E: From<S>, F: FnOnce() -> String
    requires
        res is Err ==> closure.requires(()),
    ensures
        match res {
            Ok(t) => r == Ok::<T, ResErr<E, N>>(t),
            Err(_) => exists|s: String| #[trigger]
                closure.ensures((), s) && raised(
                    r,
                    res,
                    written(Seq::<u8>::empty(), encode_utf8(s@), ResErr::<E, N>::capacity()),
                ),
        },
        r is Err ==> valid_utf8(r->Err_0.msg@),
{
    match res {
        Ok(ok) => Ok(ok),
        Err(e) => {
            let s = closure();
            Err(ResErr::new(s.as_str(), e))
        },
    }
}

/// Attaches the text that `closure` computes to a failure that may already
/// carry context; it is called only on a failure.
pub fn extra_with_context<T, E, F, const N: usize>(
    res: Result<T, ResErr<E, N>>,
    fmt: &Format,
    closure: F,
) -> (r: Result<T, ResErr<E, N>>) where F: FnOnce() -> String
    requires
        res is Err ==> closure.requires(()),
    ensures
        match res {
            Ok(t) => r == Ok::<T, ResErr<E, N>>(t),
            Err(e) => exists|s: String| #[trigger]
                closure.ensures((), s) && rechained(
                    r,
                    res,
                    chained(e.msg@, fmt@, encode_utf8(s@), ResErr::<E, N>::capacity()),
                ),
        },
        res is Err && valid_utf8(res->Err_0.msg@) ==> valid_utf8(r->Err_0.msg@),
{
    match res {
        Ok(ok) => Ok(ok),
        Err(mut e) => {
            let s = closure();
            e.context(fmt, s.as_str());
            Err(e)
        },
    }
}

/// Turns a failure into an error with the bytes `bytes` as its first
/// context.
pub fn byte_context<T, S, E, const N: usize>(res: Result<T, S>, bytes: &[u8]) -> (r: Result<
    T,
    ResErr<E, N>,
>) where E: From<S>
    ensures
        raised(r, res, extended(Seq::<u8>::empty(), bytes@, ResErr::<E, N>::capacity())),
{
    match res {
        Ok(ok) => Ok(ok),
        Err(e) => {
            let mut buf = ResBuf::new();
            buf.extend_from_slice(bytes);
            Err(ResErr { msg: buf, source: E::from(e) })
        },
    }
}

/// Attaches the bytes `bytes` to a failure that may already carry context.
pub fn extra_byte_context<T, E, const N: usize>(
    res: Result<T, ResErr<E, N>>,
    fmt: &Format,
    bytes: &[u8],
) -> (r: Result<T, ResErr<E, N>>)
    ensures
        res is Err ==> rechained(
            r,
            res,
            chained_bytes(res->Err_0.msg@, fmt@, bytes@, ResErr::<E, N>::capacity()),
        ),
        res is Ok ==> r == res,
{
    match res {
        Ok(ok) => Ok(ok),
        Err(mut e) => {
            e.byte_context(fmt, bytes);
            Err(e)
        },
    }
}

/// The lines printed before an exit: the headline, then `Error: ` and what
/// the error shows.
pub open spec fn expect_text(headline: Seq<char>, shown: Seq<char>) -> Seq<char> {
    headline + "\nError: "@ + shown
}

/// The lines printed before an exit.
pub fn expect_line(headline: &str, shown: &str) -> (r: String)
    ensures
        r@ == expect_text(headline@, shown@),
{
    let mut out = String::from_str(headline);
    out.append("\nError: ");
    out.append(shown);
    out
}

/// Unwraps a success; a failure asks to print the headline that `f`
/// computes, with the error under it, and to exit with `code`. `f` is called
/// only on a failure.
pub fn better_expect<T, E, M, F, const N: usize>(
    res: Result<T, ResErr<E, N>>,
    fmt: &Format,
    f: F,
    code: i32,
) -> (r: Outcome<T>) where E: core::fmt::Display, M: core::fmt::Display, F: FnOnce() -> M
    requires
        res is Err ==> f.requires(()) && valid_utf8(res->Err_0.msg@),
    ensures
        match res {
            Ok(t) => r == Outcome::Value(t),
            Err(e) => {
                &&& r is Exit
                &&& r->Exit_0.code == code
                &&& r->Exit_0.message is Some
                &&& exists|m: M, headline: Seq<char>, source: Seq<char>| #[trigger]
                    f.ensures((), m) && #[trigger] displays(&m, headline) && #[trigger] displays(
                        &e.source,
                        source,
                    ) && r->Exit_0.message->Some_0@ == expect_text(
                        headline,
                        shown(fmt@, e.msg@, source),
                    )
            },
        },
{
    match res {
        Ok(t) => Outcome::Value(t),
        Err(e) => {
            let m = f();
            let headline = m.to_string();
            let source = e.source.to_string();
            let text = e.render(fmt, source.as_str());
            let line = expect_line(headline.as_str(), text.as_str());
            proof {
                assert(displays(&m, headline@));
                assert(displays(&e.source, source@));
            }
            Outcome::Exit(ExitPlan { message: Some(line), code })
        },
    }
}

} // verus!
