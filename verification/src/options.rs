//! The settings that shape how a context chain is written and shown, with
//! their defaults.

use vstd::prelude::*;
use vstd::string::*;

verus! {

/// The fixed strings that surround the parts of a displayed error.
pub struct Format {
    /// Put before the whole message when there is context.
    pub prefix: String,
    /// Put after the whole message.
    pub suffix: String,
    /// Put before each context message after the first.
    pub msg_prefix: String,
    /// Put after each context message after the first.
    pub msg_suffix: String,
    /// Separates a context message from the one before it, after a line break.
    pub delimiter: String,
    /// Put before the source error.
    pub source_prefix: String,
}

/// Mathematical value of a [`Format`].
pub ghost struct FormatView {
    pub prefix: Seq<char>,
    pub suffix: Seq<char>,
    pub msg_prefix: Seq<char>,
    pub msg_suffix: Seq<char>,
    pub delimiter: Seq<char>,
    pub source_prefix: Seq<char>,
}

impl View for Format {
    type V = FormatView;

    open spec fn view(&self) -> FormatView {
        FormatView {
            prefix: self.prefix@,
            suffix: self.suffix@,
            msg_prefix: self.msg_prefix@,
            msg_suffix: self.msg_suffix@,
            delimiter: self.delimiter@,
            source_prefix: self.source_prefix@,
        }
    }
}

/// The format used when nothing is configured: contexts separated by `" - "`,
/// the source introduced by `"Error: "`, everything else empty.
pub open spec fn default_format() -> FormatView {
    FormatView {
        prefix: Seq::empty(),
        suffix: Seq::empty(),
        msg_prefix: Seq::empty(),
        msg_suffix: Seq::empty(),
        delimiter: " - "@,
        source_prefix: "Error: "@,
    }
}

/// Capacity in bytes of a context buffer when none is configured.
pub const DEFAULT_BUF_SIZE: usize = 64;

impl Default for Format {
    fn default() -> (r: Self)
        ensures
            r@ == default_format(),
    {
        Format {
            prefix: String::new(),
            suffix: String::new(),
            msg_prefix: String::new(),
            msg_suffix: String::new(),
            delimiter: String::from_str(" - "),
            source_prefix: String::from_str("Error: "),
        }
    }
}

/// Settings as written by the user: each one present or left out.
pub struct ResExtArgs {
    pub prefix: Option<String>,
    pub suffix: Option<String>,
    pub msg_prefix: Option<String>,
    pub msg_suffix: Option<String>,
    pub delimiter: Option<String>,
    pub source_prefix: Option<String>,
    pub include_variant: bool,
    pub alias: Option<String>,
    pub buf_size: Option<usize>,
}

/// Mathematical value of a [`ResExtArgs`].
pub ghost struct ResExtArgsView {
    pub prefix: Option<Seq<char>>,
    pub suffix: Option<Seq<char>>,
    pub msg_prefix: Option<Seq<char>>,
    pub msg_suffix: Option<Seq<char>>,
    pub delimiter: Option<Seq<char>>,
    pub source_prefix: Option<Seq<char>>,
    pub include_variant: bool,
    pub alias: Option<Seq<char>>,
    pub buf_size: Option<usize>,
}

/// Value of an optional string.
pub open spec fn opt_view(s: Option<String>) -> Option<Seq<char>> {
    match s {
        Some(s) => Some(s@),
        None => None,
    }
}

impl View for ResExtArgs {
    type V = ResExtArgsView;

    open spec fn view(&self) -> ResExtArgsView {
        ResExtArgsView {
            prefix: opt_view(self.prefix),
            suffix: opt_view(self.suffix),
            msg_prefix: opt_view(self.msg_prefix),
            msg_suffix: opt_view(self.msg_suffix),
            delimiter: opt_view(self.delimiter),
            source_prefix: opt_view(self.source_prefix),
            include_variant: self.include_variant,
            alias: opt_view(self.alias),
            buf_size: self.buf_size,
        }
    }
}

/// The settings with nothing written: every option left out.
pub open spec fn no_args() -> ResExtArgsView {
    ResExtArgsView {
        prefix: None,
        suffix: None,
        msg_prefix: None,
        msg_suffix: None,
        delimiter: None,
        source_prefix: None,
        include_variant: false,
        alias: None,
        buf_size: None,
    }
}

/// `given` if present, else `fallback`.
pub open spec fn or_text(given: Option<Seq<char>>, fallback: Seq<char>) -> Seq<char> {
    match given {
        Some(s) => s,
        None => fallback,
    }
}

/// The format that the written settings stand for: each string as written,
/// or its default where left out.
pub open spec fn format_of(args: ResExtArgsView) -> FormatView {
    FormatView {
        prefix: or_text(args.prefix, default_format().prefix),
        suffix: or_text(args.suffix, default_format().suffix),
        msg_prefix: or_text(args.msg_prefix, default_format().msg_prefix),
        msg_suffix: or_text(args.msg_suffix, default_format().msg_suffix),
        delimiter: or_text(args.delimiter, default_format().delimiter),
        source_prefix: or_text(args.source_prefix, default_format().source_prefix),
    }
}

/// The string in `given`, or a copy of `fallback`.
pub fn text_or(given: &Option<String>, fallback: &str) -> (r: String)
    ensures
        r@ == or_text(opt_view(*given), fallback@),
{
    match given {
        Some(s) => s.clone(),
        None => String::from_str(fallback),
    }
}

impl ResExtArgs {
    /// Settings with every option left out.
    pub fn new() -> (r: Self)
        ensures
            r@ == no_args(),
    {
        ResExtArgs {
            prefix: None,
            suffix: None,
            msg_prefix: None,
            msg_suffix: None,
            delimiter: None,
            source_prefix: None,
            include_variant: false,
            alias: None,
            buf_size: None,
        }
    }

    /// The format these settings stand for.
    pub fn format(&self) -> (r: Format)
        ensures
            r@ == format_of(self@),
    {
        proof {
            reveal_strlit("");
            assert(""@ =~= Seq::<char>::empty());
        }
        Format {
            prefix: text_or(&self.prefix, ""),
            suffix: text_or(&self.suffix, ""),
            msg_prefix: text_or(&self.msg_prefix, ""),
            msg_suffix: text_or(&self.msg_suffix, ""),
            delimiter: text_or(&self.delimiter, " - "),
            source_prefix: text_or(&self.source_prefix, "Error: "),
        }
    }
}

} // verus!
