//! The mathematical model of the stream parser: its state space and its
//! transition function.
//!
//! [`spec_feed`] is the single source of truth for what feeding one scalar
//! does; the executable parser is proved to implement it exactly.

use vstd::prelude::*;

use crate::chars::{
    escape_of, hex_value, is_binary, is_control, is_digit, is_hex, is_identifier_next,
    is_identifier_start, is_next_line, is_number_separator, is_octal, is_whitespace,
};
use crate::errors::ErrorKind;
use crate::options::ParserOption;
use crate::token::{chars_of, Location, Token, TokenInfo};

verus! {

/// Progress through the integer part of a decimal number.
#[derive(Clone, Copy, Debug, PartialEq, Eq, Structural)]
pub enum NumState {
    /// only a sign seen so far
    Sign,
    /// a leading zero seen
    Zero,
    /// a nonzero leading digit seen
    Digit,
}

/// Progress through the exponent part of a number.
#[derive(Clone, Copy, Debug, PartialEq, Eq, Structural)]
pub enum ExpState {
    /// the exponent marker seen, sign or digit wanted
    Desire,
    /// an exponent sign seen, digit wanted
    Sign,
    /// at least one exponent digit seen
    Digit,
}

/// The lexical atom the parser is currently inside, if any. Boolean
/// parameters on string states record whether the string is single-quoted;
/// numeric parameters record progress through a multi-character unit.
#[derive(Clone, Copy, Debug, PartialEq, Eq, Structural)]
pub enum ValState {
    /// between atoms
    Empty,
    /// inside `null`; the index of the next expected character
    Null(u8),
    /// inside `true`
    True(u8),
    /// inside `false`
    False(u8),
    /// inside a string
    Str(bool),
    /// after a backslash inside a string
    StrEscape(bool),
    /// inside a `\uXXXX` escape: digits consumed and their value
    StrUnicode(bool, u8, u16),
    /// after a raw or escaped carriage return inside a multi-line string
    StrCr(bool),
    /// inside a `\xNN` escape: digits consumed and their value
    StrEscapeHex(bool, u8, u8),
    /// inside the integer part of a decimal number
    Num(NumState),
    /// inside a fraction: a digit seen yet, and the integer part was empty
    NumFraction(bool, bool),
    /// inside an exponent
    NumExponent(ExpState),
    /// inside `NaN`
    NumNan(u8),
    /// inside `Infinity`
    NumInfinity(u8),
    /// inside a hexadecimal integer; whether a digit was seen
    NumHex(bool),
    /// inside an octal integer
    NumOct(bool),
    /// inside a binary integer
    NumBin(bool),
    /// after a `/` that may open a comment
    CommentMay,
    /// inside a single-line comment
    CommentLine,
    /// inside a multi-line comment
    CommentBlock,
    /// after a `*` inside a multi-line comment
    CommentBlockMayEnd,
    /// inside an identifier key
    Ident,
    /// inside a `\uXXXX` identifier key escape: `u` seen, digits, value
    IdentEscape(bool, u8, u16),
}

/// The syntactic slot the parser currently stands in.
#[derive(Clone, Copy, Debug, PartialEq, Eq, Structural)]
pub enum LocState {
    /// before the outermost value
    RootStart,
    /// before the first key of an object
    KeyFirstStart,
    /// before a later key of an object
    KeyStart,
    /// before an object member's value
    ValueStart,
    /// before the first element of an array
    ElementFirstStart,
    /// before a later element of an array
    ElementStart,
    /// after the outermost value
    RootEnd,
    /// after a key, colon wanted
    KeyEnd,
    /// after a member's value
    ValueEnd,
    /// after an array element
    ElementEnd,
    /// after the end-of-input marker was accepted
    Eof,
}

/// What one step does to the stack of enclosing locations.
#[derive(Clone, Copy, Debug, PartialEq, Eq, Structural)]
pub enum StackOp {
    Keep,
    Push(LocState),
    Pop,
}

/// Everything one accepted character produces: the token classification
/// and the parser's next grammar state.
#[derive(Clone, Copy, Debug, PartialEq, Eq, Structural)]
pub struct StepOut {
    /// the token's fine classification
    pub info: TokenInfo,
    /// the token's syntactic slot
    pub location: Location,
    /// the next location state
    pub loc: LocState,
    /// the next lexical state
    pub val: ValState,
    /// the effect on the location stack
    pub stack: StackOp,
    /// the pending high surrogate half, or zero
    pub pending: u16,
}

/// The abstract state of a stream parser.
#[verifier::ext_equal]
pub struct ParserModel {
    /// count of accepted scalars
    pub position: nat,
    /// 0-based line of the next scalar
    pub line: nat,
    /// 0-based column of the next scalar
    pub column: nat,
    /// a carriage return was the last accepted scalar
    pub meet_cr: bool,
    /// the current syntactic slot
    pub loc: LocState,
    /// the current lexical state
    pub val: ValState,
    /// the enclosing locations, outermost first
    pub stack: Seq<LocState>,
    /// a pending high surrogate half from a string escape, or zero
    pub pending: u16,
    /// the feature toggles
    pub option: ParserOption,
}

/// Whether a location expects a value next.
pub open spec fn expects_value(l: LocState) -> bool {
    l == LocState::RootStart || l == LocState::ValueStart || l == LocState::ElementFirstStart
        || l == LocState::ElementStart
}

/// The slot that follows a completed atom.
pub open spec fn next_location(l: LocState) -> LocState {
    match l {
        LocState::RootStart => LocState::RootEnd,
        LocState::KeyFirstStart => LocState::KeyEnd,
        LocState::KeyStart => LocState::KeyEnd,
        LocState::ValueStart => LocState::ValueEnd,
        LocState::ElementFirstStart => LocState::ElementEnd,
        LocState::ElementStart => LocState::ElementEnd,
        _ => LocState::RootEnd,
    }
}

/// The public location of a slot.
pub open spec fn transform_location(l: LocState) -> Location {
    match l {
        LocState::RootStart => Location::Root,
        LocState::RootEnd => Location::Root,
        LocState::Eof => Location::Root,
        LocState::KeyFirstStart => Location::Key,
        LocState::KeyStart => Location::Key,
        LocState::KeyEnd => Location::Key,
        LocState::ValueStart => Location::Value,
        LocState::ValueEnd => Location::Value,
        LocState::ElementFirstStart => Location::Element,
        LocState::ElementStart => Location::Element,
        LocState::ElementEnd => Location::Element,
    }
}

/// The top of the location stack.
pub open spec fn stack_top(s: Seq<LocState>) -> Option<LocState> {
    if s.len() > 0 {
        Some(s.last())
    } else {
        None
    }
}

/// The stack after a step.
pub open spec fn apply_stack(s: Seq<LocState>, op: StackOp) -> Seq<LocState> {
    match op {
        StackOp::Keep => s,
        StackOp::Push(l) => s.push(l),
        StackOp::Pop => s.drop_last(),
    }
}

/// A step that accepts the character without changing the grammar state.
pub open spec fn out_stay(info: TokenInfo, loc: LocState, val: ValState, pending: u16) -> StepOut {
    StepOut {
        info,
        location: transform_location(loc),
        loc,
        val,
        stack: StackOp::Keep,
        pending,
    }
}

/// The end-of-input marker, arriving while the slot is `loc`. The token
/// reports the slot `tokloc` of the atom the marker closed.
pub open spec fn spec_handle_eof(loc: LocState, tokloc: Location, opt: ParserOption) -> Result<
    StepOut,
    ErrorKind,
> {
    match loc {
        LocState::RootStart => if opt.allow_empty_value {
            Ok(
                StepOut {
                    info: TokenInfo::Eof,
                    location: tokloc,
                    loc: LocState::Eof,
                    val: ValState::Empty,
                    stack: StackOp::Keep,
                    pending: 0,
                },
            )
        } else {
            Err(ErrorKind::Eof)
        },
        LocState::RootEnd => Ok(
            StepOut {
                info: TokenInfo::Eof,
                location: tokloc,
                loc: LocState::Eof,
                val: ValState::Empty,
                stack: StackOp::Keep,
                pending: 0,
            },
        ),
        LocState::Eof => Err(ErrorKind::ContentAfterEof),
        _ => Err(ErrorKind::Eof),
    }
}

/// A `/` that may open a comment.
pub open spec fn spec_handle_slash(loc: LocState, opt: ParserOption) -> Result<
    StepOut,
    ErrorKind,
> {
    if opt.single_line_comment || opt.multi_line_comment {
        Ok(out_stay(TokenInfo::CommentMayStart, loc, ValState::CommentMay, 0))
    } else {
        Err(ErrorKind::CommentForbidden)
    }
}

/// Closing an enclosing container: pop the stack and stand in the slot
/// that follows the parent's.
pub open spec fn spec_pop(info: TokenInfo, top: Option<LocState>) -> Result<StepOut, ErrorKind> {
    match top {
        Some(parent) => {
            let nl = next_location(parent);
            Ok(
                StepOut {
                    info,
                    location: transform_location(nl),
                    loc: nl,
                    val: ValState::Empty,
                    stack: StackOp::Pop,
                    pending: 0,
                },
            )
        },
        None => Err(ErrorKind::WrongBracket),
    }
}

/// A `]`, with the parser standing in slot `loc`.
pub open spec fn spec_close_array(loc: LocState, top: Option<LocState>, opt: ParserOption) -> Result<
    StepOut,
    ErrorKind,
> {
    match loc {
        LocState::ElementFirstStart => spec_pop(TokenInfo::ArrayEnd, top),
        LocState::ElementEnd => spec_pop(TokenInfo::ArrayEnd, top),
        LocState::ElementStart => if opt.trailing_comma_in_array {
            spec_pop(TokenInfo::ArrayEnd, top)
        } else {
            Err(ErrorKind::TrailingCommaForbidden)
        },
        _ => Err(ErrorKind::WrongBracket),
    }
}

/// A `}`, with the parser standing in slot `loc`.
pub open spec fn spec_close_object(
    loc: LocState,
    top: Option<LocState>,
    opt: ParserOption,
) -> Result<StepOut, ErrorKind> {
    match loc {
        LocState::KeyFirstStart => spec_pop(TokenInfo::ObjectEnd, top),
        LocState::ValueEnd => spec_pop(TokenInfo::ObjectEnd, top),
        LocState::KeyStart => if opt.trailing_comma_in_object {
            spec_pop(TokenInfo::ObjectEnd, top)
        } else {
            Err(ErrorKind::TrailingCommaForbidden)
        },
        _ => Err(ErrorKind::WrongBracket),
    }
}

/// A `,` with the parser standing after a member value or an element.
pub open spec fn spec_handle_comma(loc: LocState) -> Result<StepOut, ErrorKind> {
    match loc {
        LocState::ValueEnd => Ok(
            StepOut {
                info: TokenInfo::ObjectNext,
                location: Location::Object,
                loc: LocState::KeyStart,
                val: ValState::Empty,
                stack: StackOp::Keep,
                pending: 0,
            },
        ),
        LocState::ElementEnd => Ok(
            StepOut {
                info: TokenInfo::ArrayNext,
                location: Location::Array,
                loc: LocState::ElementStart,
                val: ValState::Empty,
                stack: StackOp::Keep,
                pending: 0,
            },
        ),
        LocState::RootEnd => Err(ErrorKind::NonwhitespaceAfterEnd),
        _ => Err(ErrorKind::Unexpected),
    }
}

/// A separator character ending a number: the number's slot advances, and
/// the separator is then read in the advanced slot.
pub open spec fn spec_number_separator(
    loc: LocState,
    top: Option<LocState>,
    c: char,
    opt: ParserOption,
) -> Result<StepOut, ErrorKind> {
    let nl = next_location(loc);
    if c == '\0' {
        spec_handle_eof(nl, transform_location(loc), opt)
    } else if c == '}' {
        spec_close_object(nl, top, opt)
    } else if c == ']' {
        spec_close_array(nl, top, opt)
    } else if c == ',' {
        spec_handle_comma(nl)
    } else if c == '/' {
        spec_handle_slash(nl, opt)
    } else {
        Ok(out_stay(TokenInfo::Whitespace, nl, ValState::Empty, 0))
    }
}

/// A character read between atoms.
pub open spec fn spec_step_empty(
    loc: LocState,
    top: Option<LocState>,
    c: char,
    opt: ParserOption,
) -> Result<StepOut, ErrorKind> {
    if is_whitespace(c, opt.json5_whitespace) {
        Ok(out_stay(TokenInfo::Whitespace, loc, ValState::Empty, 0))
    } else if c == '\0' {
        spec_handle_eof(loc, transform_location(loc), opt)
    } else if c == '/' {
        spec_handle_slash(loc, opt)
    } else {
        match loc {
            LocState::RootEnd => Err(ErrorKind::NonwhitespaceAfterEnd),
            LocState::Eof => Err(ErrorKind::ContentAfterEof),
            LocState::KeyFirstStart | LocState::KeyStart => if c == '"' {
                Ok(out_stay(TokenInfo::StringStart, loc, ValState::Str(false), 0))
            } else if c == '\'' {
                if opt.single_quote {
                    Ok(out_stay(TokenInfo::StringStart, loc, ValState::Str(true), 0))
                } else {
                    Err(ErrorKind::SingleQuoteForbidden)
                }
            } else if c == '}' {
                spec_close_object(loc, top, opt)
            } else if c == ',' {
                Err(ErrorKind::CommaInEmptyObject)
            } else if c == ':' {
                Err(ErrorKind::WrongColon)
            } else if opt.identifier_key && is_identifier_start(c) {
                Ok(
                    StepOut {
                        info: TokenInfo::IdentifierNormal,
                        location: Location::Key,
                        loc,
                        val: ValState::Ident,
                        stack: StackOp::Keep,
                        pending: 0,
                    },
                )
            } else if opt.identifier_key && c == '\\' {
                Ok(
                    StepOut {
                        info: TokenInfo::IdentifierEscapeStart(0, false),
                        location: Location::Key,
                        loc,
                        val: ValState::IdentEscape(false, 0, 0),
                        stack: StackOp::Keep,
                        pending: 0,
                    },
                )
            } else {
                Err(ErrorKind::BadPropertyNameInObject)
            },
            LocState::KeyEnd => if c == ':' {
                Ok(
                    StepOut {
                        info: TokenInfo::ObjectValueStart,
                        location: Location::Object,
                        loc: LocState::ValueStart,
                        val: ValState::Empty,
                        stack: StackOp::Keep,
                        pending: 0,
                    },
                )
            } else {
                Err(ErrorKind::ExpectedColon)
            },
            LocState::ValueEnd | LocState::ElementEnd => if c == ',' {
                spec_handle_comma(loc)
            } else if c == ']' {
                spec_close_array(loc, top, opt)
            } else if c == '}' {
                spec_close_object(loc, top, opt)
            } else if c == ':' {
                Err(ErrorKind::WrongColon)
            } else {
                Err(ErrorKind::Unexpected)
            },
            // a slot expecting a value
            _ => if c == '"' {
                Ok(out_stay(TokenInfo::StringStart, loc, ValState::Str(false), 0))
            } else if c == '\'' {
                if opt.single_quote {
                    Ok(out_stay(TokenInfo::StringStart, loc, ValState::Str(true), 0))
                } else {
                    Err(ErrorKind::SingleQuoteForbidden)
                }
            } else if c == '[' {
                Ok(
                    StepOut {
                        info: TokenInfo::ArrayStart,
                        location: transform_location(loc),
                        loc: LocState::ElementFirstStart,
                        val: ValState::Empty,
                        stack: StackOp::Push(loc),
                        pending: 0,
                    },
                )
            } else if c == '{' {
                Ok(
                    StepOut {
                        info: TokenInfo::ObjectStart,
                        location: transform_location(loc),
                        loc: LocState::KeyFirstStart,
                        val: ValState::Empty,
                        stack: StackOp::Push(loc),
                        pending: 0,
                    },
                )
            } else if c == ']' {
                if loc == LocState::ElementFirstStart || loc == LocState::ElementStart {
                    spec_close_array(loc, top, opt)
                } else {
                    Err(ErrorKind::WrongBracket)
                }
            } else if c == '}' {
                Err(ErrorKind::WrongBracket)
            } else if c == ',' {
                if loc == LocState::ElementFirstStart {
                    Err(ErrorKind::CommaInEmptyArray)
                } else if loc == LocState::ValueStart {
                    Err(ErrorKind::EmptyValueInObject)
                } else {
                    Err(ErrorKind::EmptyValue)
                }
            } else if c == ':' {
                if loc == LocState::ValueStart {
                    Err(ErrorKind::RepeatedColon)
                } else {
                    Err(ErrorKind::WrongColon)
                }
            } else if c == '+' || c == '-' {
                if c == '+' && !opt.positive_sign {
                    Err(ErrorKind::PositiveSignForbidden)
                } else {
                    Ok(out_stay(TokenInfo::NumberIntegerSign, loc, ValState::Num(NumState::Sign), 0))
                }
            } else if c == '0' {
                Ok(out_stay(TokenInfo::NumberIntegerDigit, loc, ValState::Num(NumState::Zero), 0))
            } else if is_digit(c) {
                Ok(out_stay(TokenInfo::NumberIntegerDigit, loc, ValState::Num(NumState::Digit), 0))
            } else if c == '.' {
                if opt.empty_integer {
                    Ok(
                        out_stay(
                            TokenInfo::NumberFractionStart,
                            loc,
                            ValState::NumFraction(false, true),
                            0,
                        ),
                    )
                } else {
                    Err(ErrorKind::EmptyIntegerPart)
                }
            } else if c == 'N' {
                if opt.nan {
                    Ok(out_stay(TokenInfo::NumberNan(0, false), loc, ValState::NumNan(1), 0))
                } else {
                    Err(ErrorKind::Unexpected)
                }
            } else if c == 'I' {
                if opt.infinity {
                    Ok(
                        out_stay(
                            TokenInfo::NumberInfinity(0, false),
                            loc,
                            ValState::NumInfinity(1),
                            0,
                        ),
                    )
                } else {
                    Err(ErrorKind::Unexpected)
                }
            } else if c == 'n' {
                Ok(out_stay(TokenInfo::Null(0, false), loc, ValState::Null(1), 0))
            } else if c == 't' {
                Ok(out_stay(TokenInfo::True(0, false), loc, ValState::True(1), 0))
            } else if c == 'f' {
                Ok(out_stay(TokenInfo::False(0, false), loc, ValState::False(1), 0))
            } else {
                Err(ErrorKind::Unexpected)
            },
        }
    }
}

/// A character read inside a string.
pub open spec fn spec_step_string(
    loc: LocState,
    q: bool,
    c: char,
    opt: ParserOption,
) -> Result<StepOut, ErrorKind> {
    if (q && c == '\'') || (!q && c == '"') {
        let nl = next_location(loc);
        Ok(
            StepOut {
                info: TokenInfo::StringEnd,
                location: transform_location(nl),
                loc: nl,
                val: ValState::Empty,
                stack: StackOp::Keep,
                pending: 0,
            },
        )
    } else if c == '\\' {
        Ok(out_stay(TokenInfo::StringEscapeStart, loc, ValState::StrEscape(q), 0))
    } else if c == '\0' {
        Err(ErrorKind::Eof)
    } else if is_control(c) {
        if opt.multiline_string && (c == '\n' || c == '\r') {
            Ok(
                out_stay(
                    TokenInfo::StringNextLine,
                    loc,
                    if c == '\r' {
                        ValState::StrCr(q)
                    } else {
                        ValState::Str(q)
                    },
                    0,
                ),
            )
        } else {
            Err(ErrorKind::ControlCharacterForbiddenInString)
        }
    } else {
        Ok(out_stay(TokenInfo::StringNormal, loc, ValState::Str(q), 0))
    }
}

/// The fourth hex digit of a `\uXXXX` escape completed with value
/// `value`; combine it with a pending high surrogate half if one fits.
pub open spec fn spec_unicode_complete(q: bool, pending: u16, value: u16) -> (Option<char>, u16) {
    if pending != 0 && 0xDC00 <= value && value < 0xE000 {
        let combined = (0x10000 + (pending - 0xD800) * 0x400 + (value - 0xDC00)) as u32;
        (Some(combined as char), 0)
    } else if 0xD800 <= value && value < 0xDC00 {
        (None, value)
    } else if 0xDC00 <= value && value < 0xE000 {
        (None, 0)
    } else {
        (Some((value as u32) as char), 0)
    }
}

/// One step of the grammar machine: the slot, the lexical state, the
/// pending surrogate half, the top of the location stack and the feature
/// toggles decide what the scalar `c` produces.
///
/// The definition is opaque: proofs that need it say so.
#[verifier::opaque]
pub open spec fn spec_step(
    loc: LocState,
    val: ValState,
    pending: u16,
    top: Option<LocState>,
    c: char,
    opt: ParserOption,
) -> Result<StepOut, ErrorKind> {
    match val {
        ValState::Empty => spec_step_empty(loc, top, c, opt),
        ValState::Null(idx) => {
            let expect = if idx == 1 {
                'u'
            } else {
                'l'
            };
            if c == expect {
                if idx == 3 {
                    let nl = next_location(loc);
                    Ok(
                        StepOut {
                            info: TokenInfo::Null(3, true),
                            location: transform_location(loc),
                            loc: nl,
                            val: ValState::Empty,
                            stack: StackOp::Keep,
                            pending: 0,
                        },
                    )
                } else {
                    Ok(
                        out_stay(
                            TokenInfo::Null(idx, false),
                            loc,
                            ValState::Null((idx + 1) as u8),
                            0,
                        ),
                    )
                }
            } else {
                Err(ErrorKind::Unexpected)
            }
        },
        ValState::True(idx) => {
            let expect = if idx == 1 {
                'r'
            } else if idx == 2 {
                'u'
            } else {
                'e'
            };
            if c == expect {
                if idx == 3 {
                    let nl = next_location(loc);
                    Ok(
                        StepOut {
                            info: TokenInfo::True(3, true),
                            location: transform_location(loc),
                            loc: nl,
                            val: ValState::Empty,
                            stack: StackOp::Keep,
                            pending: 0,
                        },
                    )
                } else {
                    Ok(
                        out_stay(
                            TokenInfo::True(idx, false),
                            loc,
                            ValState::True((idx + 1) as u8),
                            0,
                        ),
                    )
                }
            } else {
                Err(ErrorKind::Unexpected)
            }
        },
        ValState::False(idx) => {
            let expect = if idx == 1 {
                'a'
            } else if idx == 2 {
                'l'
            } else if idx == 3 {
                's'
            } else {
                'e'
            };
            if c == expect {
                if idx == 4 {
                    let nl = next_location(loc);
                    Ok(
                        StepOut {
                            info: TokenInfo::False(4, true),
                            location: transform_location(loc),
                            loc: nl,
                            val: ValState::Empty,
                            stack: StackOp::Keep,
                            pending: 0,
                        },
                    )
                } else {
                    Ok(
                        out_stay(
                            TokenInfo::False(idx, false),
                            loc,
                            ValState::False((idx + 1) as u8),
                            0,
                        ),
                    )
                }
            } else {
                Err(ErrorKind::Unexpected)
            }
        },
        ValState::NumNan(idx) => {
            let expect = if idx == 1 {
                'a'
            } else {
                'N'
            };
            if c == expect {
                if idx == 2 {
                    let nl = next_location(loc);
                    Ok(
                        StepOut {
                            info: TokenInfo::NumberNan(2, true),
                            location: transform_location(loc),
                            loc: nl,
                            val: ValState::Empty,
                            stack: StackOp::Keep,
                            pending: 0,
                        },
                    )
                } else {
                    Ok(
                        out_stay(
                            TokenInfo::NumberNan(idx, false),
                            loc,
                            ValState::NumNan((idx + 1) as u8),
                            0,
                        ),
                    )
                }
            } else {
                Err(ErrorKind::UnexpectedInNumber)
            }
        },
        ValState::NumInfinity(idx) => {
            let expect = if idx == 1 {
                'n'
            } else if idx == 2 {
                'f'
            } else if idx == 3 {
                'i'
            } else if idx == 4 {
                'n'
            } else if idx == 5 {
                'i'
            } else if idx == 6 {
                't'
            } else {
                'y'
            };
            if c == expect {
                if idx == 7 {
                    let nl = next_location(loc);
                    Ok(
                        StepOut {
                            info: TokenInfo::NumberInfinity(7, true),
                            location: transform_location(loc),
                            loc: nl,
                            val: ValState::Empty,
                            stack: StackOp::Keep,
                            pending: 0,
                        },
                    )
                } else {
                    Ok(
                        out_stay(
                            TokenInfo::NumberInfinity(idx, false),
                            loc,
                            ValState::NumInfinity((idx + 1) as u8),
                            0,
                        ),
                    )
                }
            } else {
                Err(ErrorKind::UnexpectedInNumber)
            }
        },
        ValState::StrCr(q) => if c == '\n' {
            Ok(out_stay(TokenInfo::StringNextLine, loc, ValState::Str(q), 0))
        } else {
            spec_step_string(loc, q, c, opt)
        },
        ValState::Str(q) => if pending != 0 && c == '\\' {
            Ok(out_stay(TokenInfo::StringEscapeStart, loc, ValState::StrEscape(q), pending))
        } else {
            spec_step_string(loc, q, c, opt)
        },
        ValState::StrEscape(q) => if c == 'u' {
            Ok(out_stay(TokenInfo::StringEscapeUnicodeStart, loc, ValState::StrUnicode(q, 0, 0), pending))
        } else {
            match escape_of(c, opt.json5_string_escape) {
                Some(e) => Ok(out_stay(TokenInfo::StringEscape(e), loc, ValState::Str(q), 0)),
                None => if opt.multiline_string && is_next_line(c) {
                    Ok(
                        out_stay(
                            TokenInfo::StringNextLine,
                            loc,
                            if c == '\r' {
                                ValState::StrCr(q)
                            } else {
                                ValState::Str(q)
                            },
                            0,
                        ),
                    )
                } else if opt.json5_string_escape && c == 'x' {
                    Ok(out_stay(TokenInfo::StringEscapeHexStart, loc, ValState::StrEscapeHex(q, 0, 0), 0))
                } else {
                    Err(ErrorKind::BadEscapeInString)
                },
            }
        },
        ValState::StrUnicode(q, idx, acc) => if is_hex(c) {
            let acc2 = (acc * 16 + hex_value(c)) as u16;
            if idx == 3 {
                let pc = spec_unicode_complete(q, pending, acc2);
                Ok(
                    out_stay(
                        TokenInfo::StringEscapeUnicode(3, pc.0),
                        loc,
                        ValState::Str(q),
                        pc.1,
                    ),
                )
            } else {
                Ok(
                    out_stay(
                        TokenInfo::StringEscapeUnicode(idx, None),
                        loc,
                        ValState::StrUnicode(q, (idx + 1) as u8, acc2),
                        pending,
                    ),
                )
            }
        } else {
            Err(ErrorKind::BadUnicodeEscapeInString)
        },
        ValState::StrEscapeHex(q, idx, acc) => if is_hex(c) {
            if idx == 1 {
                let value = (acc * 16 + hex_value(c)) as u8;
                Ok(
                    out_stay(
                        TokenInfo::StringEscapeHex(1, Some((value as u32) as char)),
                        loc,
                        ValState::Str(q),
                        0,
                    ),
                )
            } else {
                Ok(
                    out_stay(
                        TokenInfo::StringEscapeHex(0, None),
                        loc,
                        ValState::StrEscapeHex(q, 1, hex_value(c) as u8),
                        0,
                    ),
                )
            }
        } else {
            Err(ErrorKind::BadHexEscapeInString)
        },
        ValState::Num(st) => if c == '0' {
            match st {
                NumState::Zero => Err(ErrorKind::LeadingZeroForbidden),
                NumState::Sign => Ok(
                    out_stay(TokenInfo::NumberIntegerDigit, loc, ValState::Num(NumState::Zero), 0),
                ),
                NumState::Digit => Ok(
                    out_stay(TokenInfo::NumberIntegerDigit, loc, ValState::Num(NumState::Digit), 0),
                ),
            }
        } else if is_digit(c) {
            match st {
                NumState::Zero => Err(ErrorKind::LeadingZeroForbidden),
                _ => Ok(
                    out_stay(TokenInfo::NumberIntegerDigit, loc, ValState::Num(NumState::Digit), 0),
                ),
            }
        } else if c == '.' {
            if st == NumState::Sign && !opt.empty_integer {
                Err(ErrorKind::EmptyIntegerPart)
            } else {
                Ok(
                    out_stay(
                        TokenInfo::NumberFractionStart,
                        loc,
                        ValState::NumFraction(false, st == NumState::Sign),
                        0,
                    ),
                )
            }
        } else if st == NumState::Sign {
            if opt.infinity && c == 'I' {
                Ok(out_stay(TokenInfo::NumberInfinity(0, false), loc, ValState::NumInfinity(1), 0))
            } else if opt.nan && c == 'N' {
                Ok(out_stay(TokenInfo::NumberNan(0, false), loc, ValState::NumNan(1), 0))
            } else {
                Err(ErrorKind::EmptyIntegerPart)
            }
        } else if st == NumState::Zero && (c == 'x' || c == 'X') && opt.hexadecimal_integer {
            Ok(out_stay(TokenInfo::NumberHexStart, loc, ValState::NumHex(false), 0))
        } else if st == NumState::Zero && (c == 'o' || c == 'O') && opt.octal_integer {
            Ok(out_stay(TokenInfo::NumberOctStart, loc, ValState::NumOct(false), 0))
        } else if st == NumState::Zero && (c == 'b' || c == 'B') && opt.binary_integer {
            Ok(out_stay(TokenInfo::NumberBinStart, loc, ValState::NumBin(false), 0))
        } else if c == 'e' || c == 'E' {
            Ok(out_stay(TokenInfo::NumberExponentStart, loc, ValState::NumExponent(ExpState::Desire), 0))
        } else if is_number_separator(c, opt.json5_whitespace) {
            spec_number_separator(loc, top, c, opt)
        } else {
            Err(ErrorKind::UnexpectedInNumber)
        },
        ValState::NumFraction(seen, int_empty) => if is_digit(c) {
            Ok(
                out_stay(
                    TokenInfo::NumberFractionDigit,
                    loc,
                    ValState::NumFraction(true, int_empty),
                    0,
                ),
            )
        } else if !seen && int_empty {
            Err(ErrorKind::LoneDecimalPoint)
        } else if !seen && !opt.empty_fraction {
            Err(ErrorKind::EmptyFractionPart)
        } else if c == 'e' || c == 'E' {
            Ok(out_stay(TokenInfo::NumberExponentStart, loc, ValState::NumExponent(ExpState::Desire), 0))
        } else if is_number_separator(c, opt.json5_whitespace) {
            spec_number_separator(loc, top, c, opt)
        } else {
            Err(ErrorKind::UnexpectedInNumber)
        },
        ValState::NumExponent(st) => if c == '+' || c == '-' {
            if st == ExpState::Desire {
                Ok(out_stay(TokenInfo::NumberExponentSign, loc, ValState::NumExponent(ExpState::Sign), 0))
            } else {
                Err(ErrorKind::UnexpectedInNumber)
            }
        } else if is_digit(c) {
            Ok(out_stay(TokenInfo::NumberExponentDigit, loc, ValState::NumExponent(ExpState::Digit), 0))
        } else if st != ExpState::Digit {
            Err(ErrorKind::EmptyExponentPart)
        } else if is_number_separator(c, opt.json5_whitespace) {
            spec_number_separator(loc, top, c, opt)
        } else {
            Err(ErrorKind::UnexpectedInNumber)
        },
        ValState::NumHex(seen) => if is_hex(c) {
            Ok(out_stay(TokenInfo::NumberHex, loc, ValState::NumHex(true), 0))
        } else if c == '.' {
            Err(ErrorKind::FractionNotAllowed)
        } else if !seen {
            Err(ErrorKind::EmptyIntegerPart)
        } else if is_number_separator(c, opt.json5_whitespace) {
            spec_number_separator(loc, top, c, opt)
        } else {
            Err(ErrorKind::UnexpectedInNumber)
        },
        ValState::NumOct(seen) => if is_octal(c) {
            Ok(out_stay(TokenInfo::NumberOct, loc, ValState::NumOct(true), 0))
        } else if c == '.' {
            Err(ErrorKind::FractionNotAllowed)
        } else if c == 'e' || c == 'E' {
            Err(ErrorKind::ExponentNotAllowed)
        } else if !seen {
            Err(ErrorKind::EmptyIntegerPart)
        } else if is_number_separator(c, opt.json5_whitespace) {
            spec_number_separator(loc, top, c, opt)
        } else {
            Err(ErrorKind::UnexpectedInNumber)
        },
        ValState::NumBin(seen) => if is_binary(c) {
            Ok(out_stay(TokenInfo::NumberBin, loc, ValState::NumBin(true), 0))
        } else if c == '.' {
            Err(ErrorKind::FractionNotAllowed)
        } else if c == 'e' || c == 'E' {
            Err(ErrorKind::ExponentNotAllowed)
        } else if !seen {
            Err(ErrorKind::EmptyIntegerPart)
        } else if is_number_separator(c, opt.json5_whitespace) {
            spec_number_separator(loc, top, c, opt)
        } else {
            Err(ErrorKind::UnexpectedInNumber)
        },
        ValState::CommentMay => if opt.single_line_comment && c == '/' {
            Ok(out_stay(TokenInfo::CommentSingleLine, loc, ValState::CommentLine, 0))
        } else if opt.multi_line_comment && c == '*' {
            Ok(out_stay(TokenInfo::CommentMultiLine, loc, ValState::CommentBlock, 0))
        } else {
            Err(ErrorKind::CommentForbidden)
        },
        ValState::CommentLine => if c == '\0' {
            spec_handle_eof(loc, transform_location(loc), opt)
        } else if is_next_line(c) {
            Ok(out_stay(TokenInfo::CommentSingleLine, loc, ValState::Empty, 0))
        } else {
            Ok(out_stay(TokenInfo::CommentSingleLine, loc, ValState::CommentLine, 0))
        },
        ValState::CommentBlock => if c == '\0' {
            Err(ErrorKind::CommentNotClosed)
        } else if c == '*' {
            Ok(out_stay(TokenInfo::CommentMultiLine, loc, ValState::CommentBlockMayEnd, 0))
        } else {
            Ok(out_stay(TokenInfo::CommentMultiLine, loc, ValState::CommentBlock, 0))
        },
        ValState::CommentBlockMayEnd => if c == '/' {
            Ok(out_stay(TokenInfo::CommentMultiLineEnd, loc, ValState::Empty, 0))
        } else if c == '*' {
            Ok(out_stay(TokenInfo::CommentMultiLine, loc, ValState::CommentBlockMayEnd, 0))
        } else if c == '\0' {
            Err(ErrorKind::CommentNotClosed)
        } else {
            Ok(out_stay(TokenInfo::CommentMultiLine, loc, ValState::CommentBlock, 0))
        },
        ValState::Ident => if c == ':' {
            Ok(
                StepOut {
                    info: TokenInfo::ObjectValueStart,
                    location: Location::Object,
                    loc: LocState::ValueStart,
                    val: ValState::Empty,
                    stack: StackOp::Keep,
                    pending: 0,
                },
            )
        } else if is_whitespace(c, opt.json5_whitespace) {
            Ok(
                StepOut {
                    info: TokenInfo::Whitespace,
                    location: Location::Key,
                    loc: LocState::KeyEnd,
                    val: ValState::Empty,
                    stack: StackOp::Keep,
                    pending: 0,
                },
            )
        } else if is_identifier_next(c) {
            Ok(
                StepOut {
                    info: TokenInfo::IdentifierNormal,
                    location: Location::Key,
                    loc,
                    val: ValState::Ident,
                    stack: StackOp::Keep,
                    pending: 0,
                },
            )
        } else {
            Err(ErrorKind::InvalidIdentifier)
        },
        ValState::IdentEscape(prefix, idx, acc) => if !prefix {
            if c == 'u' {
                Ok(
                    StepOut {
                        info: TokenInfo::IdentifierEscapeStart(1, true),
                        location: Location::Key,
                        loc,
                        val: ValState::IdentEscape(true, 0, 0),
                        stack: StackOp::Keep,
                        pending: 0,
                    },
                )
            } else {
                Err(ErrorKind::BadIdentifierEscape)
            }
        } else if is_hex(c) {
            let acc2 = (acc * 16 + hex_value(c)) as u16;
            if idx == 3 {
                let produced = if 0xD800 <= acc2 && acc2 < 0xE000 {
                    None
                } else {
                    Some((acc2 as u32) as char)
                };
                Ok(
                    StepOut {
                        info: TokenInfo::IdentifierEscape(3, produced),
                        location: Location::Key,
                        loc: next_location(loc),
                        val: ValState::Empty,
                        stack: StackOp::Keep,
                        pending: 0,
                    },
                )
            } else {
                Ok(
                    StepOut {
                        info: TokenInfo::IdentifierEscape(idx, None),
                        location: Location::Key,
                        loc,
                        val: ValState::IdentEscape(true, (idx + 1) as u8, acc2),
                        stack: StackOp::Keep,
                        pending: 0,
                    },
                )
            }
        } else {
            Err(ErrorKind::InvalidIdentifierEscape)
        },
    }
}

/// The line and column the next scalar stands at, once a carriage return
/// seen earlier has been resolved against it.
pub open spec fn spec_adjust(line: nat, column: nat, meet_cr: bool, c: char) -> (nat, nat) {
    if meet_cr && c != '\n' {
        ((line + 1) as nat, 0 as nat)
    } else {
        (line, column)
    }
}

/// The line, column and carriage-return flag after accepting `c` at the
/// adjusted place `(line, column)`.
pub open spec fn spec_advance(line: nat, column: nat, c: char) -> (nat, nat, bool) {
    if c == '\r' {
        (line, (column + 1) as nat, true)
    } else if is_next_line(c) {
        ((line + 1) as nat, 0 as nat, false)
    } else if c == '\0' {
        (line, column, false)
    } else {
        (line, (column + 1) as nat, false)
    }
}

/// Feeding one scalar to a parser in model state `m`: either one token
/// and the next state, or the error kind that rejects the scalar. On
/// rejection the state is unchanged.
pub open spec fn spec_feed(m: ParserModel, c: char) -> Result<(Token, ParserModel), ErrorKind> {
    match spec_step(m.loc, m.val, m.pending, stack_top(m.stack), c, m.option) {
        Err(k) => Err(k),
        Ok(out) => {
            let adjusted = spec_adjust(m.line, m.column, m.meet_cr, c);
            let advanced = spec_advance(adjusted.0, adjusted.1, c);
            Ok(
                (
                    Token { c, info: out.info, location: out.location },
                    ParserModel {
                        position: m.position + 1,
                        line: advanced.0,
                        column: advanced.1,
                        meet_cr: advanced.2,
                        loc: out.loc,
                        val: out.val,
                        stack: apply_stack(m.stack, out.stack),
                        pending: out.pending,
                        option: m.option,
                    },
                ),
            )
        },
    }
}

/// Well-formedness of the lexical state against the slot it stands in:
/// an atom state stands in a slot it can complete from, and the counters
/// of multi-character units stay in range.
pub open spec fn val_wf(loc: LocState, val: ValState, pending: u16) -> bool {
    &&& (match val {
        ValState::Empty => true,
        ValState::Null(i) => expects_value(loc) && 1 <= i <= 3,
        ValState::True(i) => expects_value(loc) && 1 <= i <= 3,
        ValState::False(i) => expects_value(loc) && 1 <= i <= 4,
        ValState::NumNan(i) => expects_value(loc) && 1 <= i <= 2,
        ValState::NumInfinity(i) => expects_value(loc) && 1 <= i <= 7,
        ValState::Str(_) => atom_slot(loc),
        ValState::StrEscape(_) => atom_slot(loc),
        ValState::StrCr(_) => atom_slot(loc),
        ValState::StrUnicode(_, i, a) => atom_slot(loc) && i <= 3 && acc_bound(i, a as u32),
        ValState::StrEscapeHex(_, i, a) => atom_slot(loc) && i <= 1 && acc_bound(i, a as u32),
        ValState::Num(_) => expects_value(loc),
        ValState::NumFraction(_, _) => expects_value(loc),
        ValState::NumExponent(_) => expects_value(loc),
        ValState::NumHex(_) => expects_value(loc),
        ValState::NumOct(_) => expects_value(loc),
        ValState::NumBin(_) => expects_value(loc),
        ValState::CommentMay => true,
        ValState::CommentLine => true,
        ValState::CommentBlock => true,
        ValState::CommentBlockMayEnd => true,
        ValState::Ident => loc == LocState::KeyFirstStart || loc == LocState::KeyStart,
        ValState::IdentEscape(p, i, a) => (loc == LocState::KeyFirstStart || loc
            == LocState::KeyStart) && i <= 3 && acc_bound(i, a as u32) && (!p ==> i == 0 && a == 0),
    })
    &&& (pending == 0 || (0xD800 <= pending && pending < 0xDC00))
}

/// Well-formedness of the location stack against the current slot: every
/// stack entry expects a value, only the bottom entry is the root slot,
/// and the slot is inside a container exactly when the stack is nonempty.
pub open spec fn stack_wf(loc: LocState, stack: Seq<LocState>) -> bool {
    &&& (forall|i: int| 0 <= i < stack.len() ==> expects_value(#[trigger] stack[i]))
    &&& (forall|i: int| 0 < i < stack.len() ==> #[trigger] stack[i] != LocState::RootStart)
    &&& (stack.len() > 0 ==> stack[0] == LocState::RootStart)
    &&& (stack.len() == 0 <==> (loc == LocState::RootStart || loc == LocState::RootEnd || loc
        == LocState::Eof))
}

/// Well-formedness of a model state. The counters obey: a line is never
/// past the position (one is reserved while a carriage return waits for a
/// possible line feed), and a column is never past the position.
pub open spec fn model_wf(m: ParserModel) -> bool {
    &&& stack_wf(m.loc, m.stack)
    &&& val_wf(m.loc, m.val, m.pending)
    &&& m.line + (if m.meet_cr {
        1int
    } else {
        0int
    }) <= m.position
    &&& m.column <= m.position
}

/// Slots an atom can stand in: a value slot or a key slot.
pub open spec fn atom_slot(l: LocState) -> bool {
    expects_value(l) || l == LocState::KeyFirstStart || l == LocState::KeyStart
}

/// Escape accumulators hold fewer than `16^i` after `i` digits.
pub open spec fn acc_bound(i: u8, a: u32) -> bool {
    if i == 0 {
        a == 0
    } else if i == 1 {
        a < 16
    } else if i == 2 {
        a < 256
    } else {
        a < 4096
    }
}

/// Pushing the current slot while opening a container keeps the stack
/// well formed.
proof fn lemma_push_wf(loc: LocState, stack: Seq<LocState>, inner: LocState)
    requires
        stack_wf(loc, stack),
        expects_value(loc),
        inner == LocState::ElementFirstStart || inner == LocState::KeyFirstStart,
    ensures
        stack_wf(inner, stack.push(loc)),
{
    let s2 = stack.push(loc);
    assert forall|i: int| 0 <= i < s2.len() implies expects_value(#[trigger] s2[i]) by {
        if i < stack.len() {
            assert(s2[i] == stack[i]);
        }
    }
    assert forall|i: int| 0 < i < s2.len() implies #[trigger] s2[i] != LocState::RootStart by {
        if i < stack.len() {
            assert(s2[i] == stack[i]);
        } else {
            assert(s2[i] == loc);
            assert(stack.len() > 0);
        }
    }
}

/// Popping the enclosing slot while closing a container keeps the stack
/// well formed, and lands in the slot that follows it.
proof fn lemma_pop_wf(loc: LocState, stack: Seq<LocState>)
    requires
        stack_wf(loc, stack),
        stack.len() > 0,
    ensures
        stack_wf(next_location(stack.last()), stack.drop_last()),
{
    let s2 = stack.drop_last();
    assert forall|i: int| 0 <= i < s2.len() implies expects_value(#[trigger] s2[i]) by {
        assert(s2[i] == stack[i]);
    }
    assert forall|i: int| 0 < i < s2.len() implies #[trigger] s2[i] != LocState::RootStart by {
        assert(s2[i] == stack[i]);
    }
    if stack.len() == 1 {
        assert(stack.last() == stack[0]);
    } else {
        assert(stack.last() == stack[stack.len() - 1]);
        assert(stack.last() != LocState::RootStart);
        assert(s2[0] == stack[0]);
    }
}

/// A step that pops, pushes or keeps the stack leaves the stack and the
/// lexical state well formed. The step is fixed by `out`.
proof fn lemma_out_wf(
    loc: LocState,
    val: ValState,
    pending: u16,
    stack: Seq<LocState>,
    c: char,
    opt: ParserOption,
    out: StepOut,
)
    requires
        val_wf(loc, val, pending),
        stack_wf(loc, stack),
        spec_step(loc, val, pending, stack_top(stack), c, opt) == Ok::<StepOut, ErrorKind>(out),
    ensures
        val_wf(out.loc, out.val, out.pending),
        stack_wf(out.loc, apply_stack(stack, out.stack)),
        out.stack is Pop ==> stack.len() > 0,
{
    match val {
        ValState::Empty => lemma_out_wf_empty(loc, pending, stack, c, opt, out),
        ValState::Num(_)
        | ValState::NumFraction(_, _)
        | ValState::NumExponent(_)
        | ValState::NumHex(_)
        | ValState::NumOct(_)
        | ValState::NumBin(_) => lemma_out_wf_number(loc, val, pending, stack, c, opt, out),
        _ => lemma_out_wf_other(loc, val, pending, stack, c, opt, out),
    }
}

/// The case of [`lemma_out_wf`] for a step taken between atoms.
#[verifier::spinoff_prover]
proof fn lemma_out_wf_empty(
    loc: LocState,
    pending: u16,
    stack: Seq<LocState>,
    c: char,
    opt: ParserOption,
    out: StepOut,
)
    requires
        val_wf(loc, ValState::Empty, pending),
        stack_wf(loc, stack),
        spec_step(loc, ValState::Empty, pending, stack_top(stack), c, opt) == Ok::<
            StepOut,
            ErrorKind,
        >(out),
    ensures
        val_wf(out.loc, out.val, out.pending),
        stack_wf(out.loc, apply_stack(stack, out.stack)),
        out.stack is Pop ==> stack.len() > 0,
{
    reveal(spec_step);
    match out.stack {
        StackOp::Keep => {
            assert(apply_stack(stack, out.stack) == stack);
        },
        StackOp::Push(l) => {
            assert(l == loc);
            lemma_push_wf(loc, stack, out.loc);
        },
        StackOp::Pop => {
            assert(stack.len() > 0);
            lemma_pop_wf(loc, stack);
        },
    }
}

/// The case of [`lemma_out_wf`] for a step taken inside a number.
#[verifier::spinoff_prover]
proof fn lemma_out_wf_number(
    loc: LocState,
    val: ValState,
    pending: u16,
    stack: Seq<LocState>,
    c: char,
    opt: ParserOption,
    out: StepOut,
)
    requires
        val matches ValState::Num(_) || val matches ValState::NumFraction(_, _) || val
            matches ValState::NumExponent(_) || val matches ValState::NumHex(_) || val
            matches ValState::NumOct(_) || val matches ValState::NumBin(_),
        val_wf(loc, val, pending),
        stack_wf(loc, stack),
        spec_step(loc, val, pending, stack_top(stack), c, opt) == Ok::<StepOut, ErrorKind>(out),
    ensures
        val_wf(out.loc, out.val, out.pending),
        stack_wf(out.loc, apply_stack(stack, out.stack)),
        out.stack is Pop ==> stack.len() > 0,
{
    reveal(spec_step);
    match out.stack {
        StackOp::Keep => {
            assert(apply_stack(stack, out.stack) == stack);
        },
        StackOp::Push(_) => {
            assert(false);
        },
        StackOp::Pop => {
            assert(stack.len() > 0);
            lemma_pop_wf(loc, stack);
        },
    }
}

/// The case of [`lemma_out_wf`] for a step taken inside a keyword, a
/// string, a comment or an identifier: the stack is untouched.
#[verifier::spinoff_prover]
proof fn lemma_out_wf_other(
    loc: LocState,
    val: ValState,
    pending: u16,
    stack: Seq<LocState>,
    c: char,
    opt: ParserOption,
    out: StepOut,
)
    requires
        !(val matches ValState::Empty),
        !(val matches ValState::Num(_)),
        !(val matches ValState::NumFraction(_, _)),
        !(val matches ValState::NumExponent(_)),
        !(val matches ValState::NumHex(_)),
        !(val matches ValState::NumOct(_)),
        !(val matches ValState::NumBin(_)),
        val_wf(loc, val, pending),
        stack_wf(loc, stack),
        spec_step(loc, val, pending, stack_top(stack), c, opt) == Ok::<StepOut, ErrorKind>(out),
    ensures
        val_wf(out.loc, out.val, out.pending),
        stack_wf(out.loc, apply_stack(stack, out.stack)),
        out.stack is Pop ==> stack.len() > 0,
{
    reveal(spec_step);
    match val {
        ValState::Empty => {
            assert(false);
        },
        ValState::Null(_) | ValState::True(_) | ValState::False(_) => {
            assert(out.stack == StackOp::Keep);
            assert(apply_stack(stack, out.stack) == stack);
        },
        ValState::NumNan(_) | ValState::NumInfinity(_) => {
            assert(out.stack == StackOp::Keep);
            assert(apply_stack(stack, out.stack) == stack);
        },
        ValState::Str(_) | ValState::StrEscape(_) | ValState::StrCr(_) => {
            assert(out.stack == StackOp::Keep);
            assert(apply_stack(stack, out.stack) == stack);
        },
        ValState::StrUnicode(_, _, _) | ValState::StrEscapeHex(_, _, _) => {
            assert(out.stack == StackOp::Keep);
            assert(apply_stack(stack, out.stack) == stack);
        },
        ValState::CommentMay | ValState::CommentLine | ValState::CommentBlock
        | ValState::CommentBlockMayEnd => {
            assert(out.stack == StackOp::Keep);
            assert(apply_stack(stack, out.stack) == stack);
        },
        ValState::Ident | ValState::IdentEscape(_, _, _) => {
            assert(out.stack == StackOp::Keep);
            assert(apply_stack(stack, out.stack) == stack);
        },
        _ => {
            assert(false);
        },
    }
}

/// Composing one grammar step with the counter updates yields one feed.
pub proof fn lemma_feed_compose(m: ParserModel, c: char, out: StepOut, t: Token, m2: ParserModel)
    requires
        spec_step(m.loc, m.val, m.pending, stack_top(m.stack), c, m.option) == Ok::<
            StepOut,
            ErrorKind,
        >(out),
        t == (Token { c, info: out.info, location: out.location }),
        m2.position == m.position + 1,
        ({
            let adj = spec_adjust(m.line, m.column, m.meet_cr, c);
            let adv = spec_advance(adj.0, adj.1, c);
            m2.line == adv.0 && m2.column == adv.1 && m2.meet_cr == adv.2
        }),
        m2.loc == out.loc,
        m2.val == out.val,
        m2.pending == out.pending,
        m2.stack == apply_stack(m.stack, out.stack),
        m2.option == m.option,
    ensures
        spec_feed(m, c) == Ok::<(Token, ParserModel), ErrorKind>((t, m2)),
{
    reveal(spec_step);
    let adj = spec_adjust(m.line, m.column, m.meet_cr, c);
    let adv = spec_advance(adj.0, adj.1, c);
    let built = ParserModel {
        position: m.position + 1,
        line: adv.0,
        column: adv.1,
        meet_cr: adv.2,
        loc: out.loc,
        val: out.val,
        stack: apply_stack(m.stack, out.stack),
        pending: out.pending,
        option: m.option,
    };
    assert(m2 =~= built);
}

/// A step taken from a well-formed state leaves a well-formed state.
pub proof fn lemma_step_preserves_wf(
    loc: LocState,
    val: ValState,
    pending: u16,
    stack: Seq<LocState>,
    c: char,
    opt: ParserOption,
)
    requires
        val_wf(loc, val, pending),
        stack_wf(loc, stack),
        spec_step(loc, val, pending, stack_top(stack), c, opt) is Ok,
    ensures
        ({
            let out = spec_step(loc, val, pending, stack_top(stack), c, opt)->Ok_0;
            &&& val_wf(out.loc, out.val, out.pending)
            &&& stack_wf(out.loc, apply_stack(stack, out.stack))
            &&& (out.stack is Pop ==> stack.len() > 0)
        }),
{
    let out = spec_step(loc, val, pending, stack_top(stack), c, opt)->Ok_0;
    lemma_out_wf(loc, val, pending, stack, c, opt, out);
}

/// The outcome of feeding a whole character sequence: the tokens of the
/// accepted prefix, the state reached, and the kind rejecting the first
/// unaccepted character, if any.
#[verifier::ext_equal]
pub struct FeedAll {
    /// one token for each accepted character
    pub tokens: Seq<Token>,
    /// the state after the accepted prefix
    pub state: ParserModel,
    /// why the next character was rejected, if one was
    pub err: Option<ErrorKind>,
}

/// Feeding a sequence of scalars, stopping at the first rejection.
pub open spec fn spec_feed_all(m: ParserModel, cs: Seq<char>) -> FeedAll
    decreases cs.len(),
{
    if cs.len() == 0 {
        FeedAll { tokens: Seq::empty(), state: m, err: None }
    } else {
        match spec_feed(m, cs[0]) {
            Err(k) => FeedAll { tokens: Seq::empty(), state: m, err: Some(k) },
            Ok((t, m2)) => {
                let rest = spec_feed_all(m2, cs.drop_first());
                FeedAll { tokens: seq![t] + rest.tokens, state: rest.state, err: rest.err }
            },
        }
    }
}

/// Splitting the input splits the run: the second half starts where the
/// first half stopped.
pub proof fn lemma_feed_all_concat(m: ParserModel, a: Seq<char>, b: Seq<char>)
    ensures
        ({
            let fa = spec_feed_all(m, a);
            spec_feed_all(m, a + b) == if fa.err is Some {
                fa
            } else {
                let fb = spec_feed_all(fa.state, b);
                FeedAll { tokens: fa.tokens + fb.tokens, state: fb.state, err: fb.err }
            }
        }),
    decreases a.len(),
{
    let fa = spec_feed_all(m, a);
    if a.len() == 0 {
        assert(a + b =~= b);
        assert(fa.tokens + spec_feed_all(m, b).tokens =~= spec_feed_all(m, b).tokens);
        assert(spec_feed_all(m, a + b) =~= if fa.err is Some {
            fa
        } else {
            let fb = spec_feed_all(fa.state, b);
            FeedAll { tokens: fa.tokens + fb.tokens, state: fb.state, err: fb.err }
        });
    } else {
        let ab = a + b;
        assert(ab[0] == a[0]);
        match spec_feed(m, a[0]) {
            Err(k) => {
                assert(spec_feed_all(m, ab) =~= fa);
            },
            Ok((t, m2)) => {
                lemma_feed_all_concat(m2, a.drop_first(), b);
                assert(ab.drop_first() =~= a.drop_first() + b);
                let fr = spec_feed_all(m2, a.drop_first());
                if fr.err is Some {
                    assert(spec_feed_all(m, ab) =~= fa);
                } else {
                    let fb = spec_feed_all(fa.state, b);
                    assert(seq![t] + (fr.tokens + fb.tokens) =~= (seq![t] + fr.tokens)
                        + fb.tokens);
                    assert(spec_feed_all(m, ab) =~= FeedAll {
                        tokens: fa.tokens + fb.tokens,
                        state: fb.state,
                        err: fb.err,
                    });
                }
            },
        }
    }
}

/// A run emits one token per accepted scalar, carrying that scalar: the
/// characters of the tokens are the accepted prefix of the input.
pub proof fn lemma_feed_all_chars(m: ParserModel, cs: Seq<char>)
    ensures
        ({
            let fa = spec_feed_all(m, cs);
            &&& fa.tokens.len() <= cs.len()
            &&& chars_of(fa.tokens) == cs.take(fa.tokens.len() as int)
        }),
    decreases cs.len(),
{
    let fa = spec_feed_all(m, cs);
    if cs.len() == 0 {
        assert(chars_of(fa.tokens) =~= cs.take(0));
    } else {
        match spec_feed(m, cs[0]) {
            Err(_) => {
                assert(chars_of(fa.tokens) =~= cs.take(0));
            },
            Ok((t, m2)) => {
                lemma_feed_all_chars(m2, cs.drop_first());
                let rest = spec_feed_all(m2, cs.drop_first());
                assert(fa.tokens == seq![t] + rest.tokens);
                assert(fa.tokens[0] == t);
                assert(fa.tokens.drop_first() =~= rest.tokens);
                assert(chars_of(fa.tokens) == seq![t.c] + chars_of(rest.tokens));
                assert(t.c == cs[0]);
                assert(cs.drop_first().take(rest.tokens.len() as int) =~= cs.take(
                    fa.tokens.len() as int,
                ).drop_first());
                assert(chars_of(fa.tokens) =~= cs.take(fa.tokens.len() as int));
            },
        }
    }
}

/// A feed accepted from a well-formed state leaves a well-formed state.
pub proof fn lemma_feed_preserves_wf(m: ParserModel, c: char)
    requires
        model_wf(m),
        spec_feed(m, c) is Ok,
    ensures
        model_wf(spec_feed(m, c)->Ok_0.1),
{
    lemma_step_preserves_wf(m.loc, m.val, m.pending, m.stack, c, m.option);
}

/// The model state a fresh parser starts in.
pub open spec fn init_model(opt: ParserOption) -> ParserModel {
    ParserModel {
        position: 0,
        line: 0,
        column: 0,
        meet_cr: false,
        loc: LocState::RootStart,
        val: ValState::Empty,
        stack: Seq::empty(),
        pending: 0,
        option: opt,
    }
}

} // verus!
