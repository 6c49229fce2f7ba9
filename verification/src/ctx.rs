//! The error value with a growable context: a source error and the bytes of
//! the messages attached to it.

use vstd::prelude::*;
use vstd::string::*;
use vstd::utf8::*;
use crate::outcome::displays;
use crate::std_specs::debug_text;

verus! {

broadcast use vstd::utf8::group_utf8_lib;

/// A source error together with its context messages, kept as raw bytes.
pub struct ErrCtx<E> {
    pub msg: Vec<u8>,
    pub source: E,
}

/// A result whose error carries context.
pub type CtxResult<T, E> = Result<T, ErrCtx<E>>;

/// What is shown for an error whose context is the text `msg` and whose
/// source shows as `source`: the source alone when there is no context,
/// else the context, then `Caused by: ` and the source on a line of its own.
pub open spec fn ctx_shown(msg: Seq<u8>, source: Seq<char>) -> Seq<char> {
    if msg.len() == 0 {
        source
    } else {
        decode_utf8(msg) + "\nCaused by: "@ + source + "\n"@
    }
}

impl<E> ErrCtx<E> {
    /// An error made of a source and the bytes of its context.
    pub fn new(source: E, msg: Vec<u8>) -> (r: Self)
        ensures
            r.msg@ == msg@,
            r.source == source,
    {
        ErrCtx { msg, source }
    }

    /// The context as text.
    pub fn msg(&self) -> (r: &str)
        requires
            valid_utf8(self.msg@),
        ensures
            r.spec_bytes() == self.msg@,
            r@ == decode_utf8(self.msg@),
    {
        match core::str::from_utf8(self.msg.as_slice()) {
            Ok(s) => s,
            Err(_) => vstd::pervasive::unreached(),
        }
    }

    /// What is shown for this error when its source shows as `source`.
    pub fn render(&self, source: &str) -> (r: String)
        requires
            valid_utf8(self.msg@),
        ensures
            r@ == ctx_shown(self.msg@, source@),
    {
        if self.msg.len() == 0 {
            String::from_str(source)
        } else {
            let mut out = String::from_str(self.msg());
            out.append("\nCaused by: ");
            out.append(source);
            out.append("\n");
            out
        }
    }

    /// What is shown for this error, the source shown by its `Display`.
    pub fn to_display_string(&self) -> (r: String) where E: core::fmt::Display
        requires
            valid_utf8(self.msg@),
        ensures
            exists|s: Seq<char>| #[trigger]
                displays(&self.source, s) && r@ == ctx_shown(self.msg@, s),
    {
        let s = self.source.to_string();
        assert(displays(&self.source, s@));
        self.render(s.as_str())
    }

    /// What is shown for this error, the source shown by its `Debug`.
    pub fn to_debug_string(&self) -> (r: String) where E: core::fmt::Debug
        requires
            valid_utf8(self.msg@),
        ensures
            exists|s: Seq<char>| r@ == #[trigger] ctx_shown(self.msg@, s),
    {
        let s = debug_text(&self.source);
        self.render(s.as_str())
    }
}

impl<E> vstd::std_specs::convert::FromSpecImpl<E> for ErrCtx<E> {
    /// The conversion is stated by the contract of `from` itself.
    open spec fn obeys_from_spec() -> bool {
        false
    }

    open spec fn from_spec(value: E) -> Self {
        choose|r: Self| r.msg@ == Seq::<u8>::empty() && r.source == value
    }
}

impl<E> From<E> for ErrCtx<E> {
    /// An error without context.
    fn from(value: E) -> (r: Self)
        ensures
            r.msg@ == Seq::<u8>::empty(),
            r.source == value,
    {
        ErrCtx { msg: Vec::with_capacity(0), source: value }
    }
}

} // verus!
