//! The grammar of the written settings: `name = value` pairs, each optionally
//! followed by a comma.

use vstd::prelude::*;
use vstd::string::*;
use crate::options::{no_args, ResExtArgs, ResExtArgsView};
use crate::text::{decimal_usize, parse_decimal, str_eq, views};

verus! {

/// One token of the written settings.
pub enum ArgToken {
    /// An identifier that is not a keyword.
    Ident(String),
    /// The sign `=`.
    Eq,
    /// The sign `,`.
    Comma,
    /// A string literal, by the text it denotes.
    Str(String),
    /// `true` or `false`.
    Bool(bool),
    /// An integer literal, by its digits in base ten, after a `-` if it is
    /// negative.
    Int(String),
    /// Any other token.
    Other,
}

/// Mathematical value of an [`ArgToken`].
pub ghost enum ArgTokenView {
    Ident(Seq<char>),
    Eq,
    Comma,
    Str(Seq<char>),
    Bool(bool),
    Int(Seq<char>),
    Other,
}

impl View for ArgToken {
    type V = ArgTokenView;

    open spec fn view(&self) -> ArgTokenView {
        match self {
            ArgToken::Ident(s) => ArgTokenView::Ident(s@),
            ArgToken::Eq => ArgTokenView::Eq,
            ArgToken::Comma => ArgTokenView::Comma,
            ArgToken::Str(s) => ArgTokenView::Str(s@),
            ArgToken::Bool(b) => ArgTokenView::Bool(*b),
            ArgToken::Int(s) => ArgTokenView::Int(s@),
            ArgToken::Other => ArgTokenView::Other,
        }
    }
}

/// What is wrong with the written settings.
#[derive(Clone, Copy, Debug, PartialEq, Eq, Structural)]
pub enum ArgErrorKind {
    /// A setting's name, or the alias, must be an identifier.
    ExpectedIdent,
    /// A setting's name must be followed by `=`.
    ExpectedEq,
    /// The setting takes a string literal.
    ExpectedStr,
    /// The setting takes `true` or `false`.
    ExpectedBool,
    /// The setting takes an integer literal.
    ExpectedInt,
    /// The integer is negative or too large.
    InvalidInt,
    /// No setting has this name.
    UnknownArgument,
}

/// An error in the written settings, with the position of the token at
/// fault; the position is the number of tokens when the input ended early.
#[derive(Clone, Copy, Debug, PartialEq, Eq, Structural)]
pub struct ArgError {
    pub kind: ArgErrorKind,
    pub at: usize,
}

/// What is said of a setting's name that no setting has.
pub fn unknown_argument_message(name: &str) -> (r: String)
    ensures
        r@ == "unknown argument passed to proc-macro attribute `#[resext]`: "@ + name@,
{
    let mut out = String::from_str("unknown argument passed to proc-macro attribute `#[resext]`: ");
    out.append(name);
    out
}

/// The settings that can be written.
#[derive(Clone, Copy, Debug, PartialEq, Eq, Structural)]
pub enum Setting {
    Prefix,
    Suffix,
    MsgPrefix,
    MsgSuffix,
    Delimiter,
    SourcePrefix,
    IncludeVariant,
    Alias,
    BufSize,
}

/// The setting called `name`, if there is one.
pub open spec fn setting_named(name: Seq<char>) -> Option<Setting> {
    if name == "prefix"@ {
        Some(Setting::Prefix)
    } else if name == "suffix"@ {
        Some(Setting::Suffix)
    } else if name == "msg_prefix"@ {
        Some(Setting::MsgPrefix)
    } else if name == "msg_suffix"@ {
        Some(Setting::MsgSuffix)
    } else if name == "delimiter"@ {
        Some(Setting::Delimiter)
    } else if name == "source_prefix"@ {
        Some(Setting::SourcePrefix)
    } else if name == "include_variant"@ {
        Some(Setting::IncludeVariant)
    } else if name == "alias"@ {
        Some(Setting::Alias)
    } else if name == "buf_size"@ {
        Some(Setting::BufSize)
    } else {
        None
    }
}

/// `args` after `setting` is given the value `value`: a string literal for
/// the six strings, a boolean for `include_variant`, an identifier for
/// `alias`, an integer that is a `usize` for `buf_size`. Any other token is
/// an error, named after what was expected.
pub open spec fn assigned(args: ResExtArgsView, setting: Setting, value: ArgTokenView) -> Result<
    ResExtArgsView,
    ArgErrorKind,
> {
    match setting {
        Setting::Prefix => match value {
            ArgTokenView::Str(s) => Ok(ResExtArgsView { prefix: Some(s), ..args }),
            _ => Err(ArgErrorKind::ExpectedStr),
        },
        Setting::Suffix => match value {
            ArgTokenView::Str(s) => Ok(ResExtArgsView { suffix: Some(s), ..args }),
            _ => Err(ArgErrorKind::ExpectedStr),
        },
        Setting::MsgPrefix => match value {
            ArgTokenView::Str(s) => Ok(ResExtArgsView { msg_prefix: Some(s), ..args }),
            _ => Err(ArgErrorKind::ExpectedStr),
        },
        Setting::MsgSuffix => match value {
            ArgTokenView::Str(s) => Ok(ResExtArgsView { msg_suffix: Some(s), ..args }),
            _ => Err(ArgErrorKind::ExpectedStr),
        },
        Setting::Delimiter => match value {
            ArgTokenView::Str(s) => Ok(ResExtArgsView { delimiter: Some(s), ..args }),
            _ => Err(ArgErrorKind::ExpectedStr),
        },
        Setting::SourcePrefix => match value {
            ArgTokenView::Str(s) => Ok(ResExtArgsView { source_prefix: Some(s), ..args }),
            _ => Err(ArgErrorKind::ExpectedStr),
        },
        Setting::IncludeVariant => match value {
            ArgTokenView::Bool(b) => Ok(ResExtArgsView { include_variant: b, ..args }),
            _ => Err(ArgErrorKind::ExpectedBool),
        },
        Setting::Alias => match value {
            ArgTokenView::Ident(s) => Ok(ResExtArgsView { alias: Some(s), ..args }),
            _ => Err(ArgErrorKind::ExpectedIdent),
        },
        Setting::BufSize => match value {
            ArgTokenView::Int(digits) => match decimal_usize(vstd::utf8::encode_utf8(digits)) {
                Some(n) => Ok(ResExtArgsView { buf_size: Some(n), ..args }),
                None => Err(ArgErrorKind::InvalidInt),
            },
            _ => Err(ArgErrorKind::ExpectedInt),
        },
    }
}

/// The error for a value that is missing because the input ended.
pub open spec fn expected_value(setting: Setting) -> ArgErrorKind {
    match setting {
        Setting::IncludeVariant => ArgErrorKind::ExpectedBool,
        Setting::Alias => ArgErrorKind::ExpectedIdent,
        Setting::BufSize => ArgErrorKind::ExpectedInt,
        _ => ArgErrorKind::ExpectedStr,
    }
}

/// Where the next pair starts after the value at `value_at`: past one comma
/// if one follows.
pub open spec fn after_value(tokens: Seq<ArgTokenView>, value_at: int) -> int {
    if value_at + 1 < tokens.len() && tokens[value_at + 1] == ArgTokenView::Comma {
        value_at + 2
    } else {
        value_at + 1
    }
}

/// The settings that `tokens` write from position `pos` on, on top of
/// `args`: pairs `name = value` until the input ends, a later pair
/// overriding an earlier one for the same setting. The first error ends the
/// reading. A name is checked only once its `=` has been seen.
pub open spec fn parsed_from(tokens: Seq<ArgTokenView>, pos: int, args: ResExtArgsView) -> Result<
    ResExtArgsView,
    ArgError,
>
    decreases tokens.len() - pos,
{
    if pos < 0 || pos >= tokens.len() {
        Ok(args)
    } else {
        match tokens[pos] {
            ArgTokenView::Ident(name) => {
                if pos + 1 >= tokens.len() || tokens[pos + 1] != ArgTokenView::Eq {
                    Err(ArgError { kind: ArgErrorKind::ExpectedEq, at: (pos + 1) as usize })
                } else {
                    match setting_named(name) {
                        None => Err(
                            ArgError { kind: ArgErrorKind::UnknownArgument, at: pos as usize },
                        ),
                        Some(setting) => {
                            if pos + 2 >= tokens.len() {
                                Err(
                                    ArgError {
                                        kind: expected_value(setting),
                                        at: (pos + 2) as usize,
                                    },
                                )
                            } else {
                                match assigned(args, setting, tokens[pos + 2]) {
                                    Err(kind) => Err(ArgError { kind, at: (pos + 2) as usize }),
                                    Ok(next) => parsed_from(
                                        tokens,
                                        after_value(tokens, pos + 2),
                                        next,
                                    ),
                                }
                            }
                        },
                    }
                }
            },
            _ => Err(ArgError { kind: ArgErrorKind::ExpectedIdent, at: pos as usize }),
        }
    }
}

/// The settings that `tokens` write.
pub open spec fn parsed(tokens: Seq<ArgTokenView>) -> Result<ResExtArgsView, ArgError> {
    parsed_from(tokens, 0, no_args())
}

/// Value of a parsing result.
pub open spec fn parse_view(r: Result<ResExtArgs, ArgError>) -> Result<ResExtArgsView, ArgError> {
    match r {
        Ok(args) => Ok(args@),
        Err(e) => Err(e),
    }
}

/// Value of the result of one assignment.
pub open spec fn assign_view(r: Result<ResExtArgs, ArgErrorKind>) -> Result<
    ResExtArgsView,
    ArgErrorKind,
> {
    match r {
        Ok(args) => Ok(args@),
        Err(e) => Err(e),
    }
}

impl Setting {
    /// Looks a setting up by its name.
    pub fn named(name: &str) -> (r: Option<Setting>)
        ensures
            r == setting_named(name@),
    {
        if str_eq(name, "prefix") {
            Some(Setting::Prefix)
        } else if str_eq(name, "suffix") {
            Some(Setting::Suffix)
        } else if str_eq(name, "msg_prefix") {
            Some(Setting::MsgPrefix)
        } else if str_eq(name, "msg_suffix") {
            Some(Setting::MsgSuffix)
        } else if str_eq(name, "delimiter") {
            Some(Setting::Delimiter)
        } else if str_eq(name, "source_prefix") {
            Some(Setting::SourcePrefix)
        } else if str_eq(name, "include_variant") {
            Some(Setting::IncludeVariant)
        } else if str_eq(name, "alias") {
            Some(Setting::Alias)
        } else if str_eq(name, "buf_size") {
            Some(Setting::BufSize)
        } else {
            None
        }
    }

    /// The error to report when this setting's value is missing.
    pub fn expected(self) -> (r: ArgErrorKind)
        ensures
            r == expected_value(self),
    {
        match self {
            Setting::IncludeVariant => ArgErrorKind::ExpectedBool,
            Setting::Alias => ArgErrorKind::ExpectedIdent,
            Setting::BufSize => ArgErrorKind::ExpectedInt,
            _ => ArgErrorKind::ExpectedStr,
        }
    }
}

impl ResExtArgs {
    /// Gives `setting` the value that the token `value` denotes.
    pub fn assign(self, setting: Setting, value: &ArgToken) -> (r: Result<ResExtArgs, ArgErrorKind>)
        ensures
            assign_view(r) == assigned(self@, setting, value@),
    {
        let mut args = self;
        match setting {
            Setting::Prefix => match value {
                ArgToken::Str(s) => {
                    args.prefix = Some(s.clone());
                    Ok(args)
                },
                _ => Err(ArgErrorKind::ExpectedStr),
            },
            Setting::Suffix => match value {
                ArgToken::Str(s) => {
                    args.suffix = Some(s.clone());
                    Ok(args)
                },
                _ => Err(ArgErrorKind::ExpectedStr),
            },
            Setting::MsgPrefix => match value {
                ArgToken::Str(s) => {
                    args.msg_prefix = Some(s.clone());
                    Ok(args)
                },
                _ => Err(ArgErrorKind::ExpectedStr),
            },
            Setting::MsgSuffix => match value {
                ArgToken::Str(s) => {
                    args.msg_suffix = Some(s.clone());
                    Ok(args)
                },
                _ => Err(ArgErrorKind::ExpectedStr),
            },
            Setting::Delimiter => match value {
                ArgToken::Str(s) => {
                    args.delimiter = Some(s.clone());
                    Ok(args)
                },
                _ => Err(ArgErrorKind::ExpectedStr),
            },
            Setting::SourcePrefix => match value {
                ArgToken::Str(s) => {
                    args.source_prefix = Some(s.clone());
                    Ok(args)
                },
                _ => Err(ArgErrorKind::ExpectedStr),
            },
            Setting::IncludeVariant => match value {
                ArgToken::Bool(b) => {
                    args.include_variant = *b;
                    Ok(args)
                },
                _ => Err(ArgErrorKind::ExpectedBool),
            },
            Setting::Alias => match value {
                ArgToken::Ident(s) => {
                    args.alias = Some(s.clone());
                    Ok(args)
                },
                _ => Err(ArgErrorKind::ExpectedIdent),
            },
            Setting::BufSize => match value {
                ArgToken::Int(digits) => match parse_decimal(digits.as_str()) {
                    Some(n) => {
                        args.buf_size = Some(n);
                        Ok(args)
                    },
                    None => Err(ArgErrorKind::InvalidInt),
                },
                _ => Err(ArgErrorKind::ExpectedInt),
            },
        }
    }

    /// Reads the written settings from their tokens.
    pub fn parse(tokens: &Vec<ArgToken>) -> (r: Result<ResExtArgs, ArgError>)
        ensures
            parse_view(r) == parsed(views(tokens@)),
    {
        let ghost ts = views(tokens@);
        let mut args = ResExtArgs::new();
        let mut pos: usize = 0;
        while pos < tokens.len()
            invariant
                pos <= tokens@.len(),
                ts == views(tokens@),
                parsed(ts) == parsed_from(ts, pos as int, args@),
            decreases tokens@.len() - pos,
        {
            let name = match &tokens[pos] {
                ArgToken::Ident(name) => name,
                _ => {
                    return Err(ArgError { kind: ArgErrorKind::ExpectedIdent, at: pos });
                },
            };
            if tokens.len() - pos < 2 {
                return Err(ArgError { kind: ArgErrorKind::ExpectedEq, at: pos + 1 });
            }
            match &tokens[pos + 1] {
                ArgToken::Eq => {},
                _ => {
                    return Err(ArgError { kind: ArgErrorKind::ExpectedEq, at: pos + 1 });
                },
            }
            let setting = match Setting::named(name.as_str()) {
                Some(setting) => setting,
                None => {
                    return Err(ArgError { kind: ArgErrorKind::UnknownArgument, at: pos });
                },
            };
            if tokens.len() - pos < 3 {
                return Err(ArgError { kind: setting.expected(), at: pos + 2 });
            }
            args = match args.assign(setting, &tokens[pos + 2]) {
                Ok(next) => next,
                Err(kind) => {
                    return Err(ArgError { kind, at: pos + 2 });
                },
            };
            let mut next: usize = pos + 3;
            if next < tokens.len() {
                match &tokens[next] {
                    ArgToken::Comma => {
                        next = next + 1;
                    },
                    _ => {},
                }
            }
            pos = next;
        }
        Ok(args)
    }
}

} // verus!
