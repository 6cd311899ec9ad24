//! The stream parser: feed one Unicode scalar, receive one classified
//! token or an error.

use vstd::prelude::*;

use crate::chars::{
    char_from_u32, check_binary, check_control, check_digit, check_hex, check_identifier_next,
    check_identifier_start, check_next_line, check_number_separator, check_octal, check_whitespace,
    simple_escape, to_hexdigit,
};
use crate::errors::{ErrorKind, Stage, StreamError};
use crate::machine::{
    apply_stack, init_model, lemma_feed_all_concat, model_wf, next_location, spec_adjust,
    spec_advance, spec_close_array, spec_close_object, spec_feed, spec_feed_all, spec_handle_comma,
    spec_handle_eof, spec_handle_slash, spec_pop, spec_step, spec_step_empty, spec_step_string,
    spec_unicode_complete, stack_top, transform_location, val_wf, ExpState, FeedAll,
    LocState, NumState, ParserModel, StackOp, StepOut, ValState,
};
use crate::options::ParserOption;
use crate::token::{Location, Token, TokenInfo};

verus! {

fn next_location_exec(l: LocState) -> (r: LocState)
    ensures
        r == next_location(l),
{
    match l {
        LocState::RootStart => LocState::RootEnd,
        LocState::KeyFirstStart => LocState::KeyEnd,
        LocState::KeyStart => LocState::KeyEnd,
        LocState::ValueStart => LocState::ValueEnd,
        LocState::ElementFirstStart => LocState::ElementEnd,
        LocState::ElementStart => LocState::ElementEnd,
        _ => LocState::RootEnd,
    }
}

fn transform_location_exec(l: LocState) -> (r: Location)
    ensures
        r == transform_location(l),
{
    match l {
        LocState::RootStart => Location::Root,
        LocState::RootEnd => Location::Root,
        LocState::Eof => Location::Root,
        LocState::KeyFirstStart => Location::Key,
        LocState::KeyStart => Location::Key,
        LocState::KeyEnd => Location::Key,
        LocState::ValueStart => Location::Value,
        LocState::ValueEnd => Location::Value,
        LocState::ElementFirstStart => Location::Element,
        LocState::ElementStart => Location::Element,
        LocState::ElementEnd => Location::Element,
    }
}

fn out_stay_exec(info: TokenInfo, loc: LocState, val: ValState, pending: u16) -> (r: StepOut)
    ensures
        r == crate::machine::out_stay(info, loc, val, pending),
{
    StepOut {
        info,
        location: transform_location_exec(loc),
        loc,
        val,
        stack: StackOp::Keep,
        pending,
    }
}

fn handle_eof(loc: LocState, tokloc: Location, opt: &ParserOption) -> (r: Result<
    StepOut,
    ErrorKind,
>)
    ensures
        r == spec_handle_eof(loc, tokloc, *opt),
{
    match loc {
        LocState::RootStart => if opt.allow_empty_value {
            Ok(
                StepOut {
                    info: TokenInfo::Eof,
                    location: tokloc,
                    loc: LocState::Eof,
                    val: ValState::Empty,
                    stack: StackOp::Keep,
                    pending: 0,
                },
            )
        } else {
            Err(ErrorKind::Eof)
        },
        LocState::RootEnd => Ok(
            StepOut {
                info: TokenInfo::Eof,
                location: tokloc,
                loc: LocState::Eof,
                val: ValState::Empty,
                stack: StackOp::Keep,
                pending: 0,
            },
        ),
        LocState::Eof => Err(ErrorKind::ContentAfterEof),
        _ => Err(ErrorKind::Eof),
    }
}

fn handle_slash(loc: LocState, opt: &ParserOption) -> (r: Result<StepOut, ErrorKind>)
    ensures
        r == spec_handle_slash(loc, *opt),
{
    if opt.single_line_comment || opt.multi_line_comment {
        Ok(out_stay_exec(TokenInfo::CommentMayStart, loc, ValState::CommentMay, 0))
    } else {
        Err(ErrorKind::CommentForbidden)
    }
}

fn pop_container(info: TokenInfo, top: Option<LocState>) -> (r: Result<StepOut, ErrorKind>)
    ensures
        r == spec_pop(info, top),
{
    match top {
        Some(parent) => {
            let nl = next_location_exec(parent);
            Ok(
                StepOut {
                    info,
                    location: transform_location_exec(nl),
                    loc: nl,
                    val: ValState::Empty,
                    stack: StackOp::Pop,
                    pending: 0,
                },
            )
        },
        None => Err(ErrorKind::WrongBracket),
    }
}

fn close_array(loc: LocState, top: Option<LocState>, opt: &ParserOption) -> (r: Result<
    StepOut,
    ErrorKind,
>)
    ensures
        r == spec_close_array(loc, top, *opt),
{
    match loc {
        LocState::ElementFirstStart => pop_container(TokenInfo::ArrayEnd, top),
        LocState::ElementEnd => pop_container(TokenInfo::ArrayEnd, top),
        LocState::ElementStart => if opt.trailing_comma_in_array {
            pop_container(TokenInfo::ArrayEnd, top)
        } else {
            Err(ErrorKind::TrailingCommaForbidden)
        },
        _ => Err(ErrorKind::WrongBracket),
    }
}

fn close_object(loc: LocState, top: Option<LocState>, opt: &ParserOption) -> (r: Result<
    StepOut,
    ErrorKind,
>)
    ensures
        r == spec_close_object(loc, top, *opt),
{
    match loc {
        LocState::KeyFirstStart => pop_container(TokenInfo::ObjectEnd, top),
        LocState::ValueEnd => pop_container(TokenInfo::ObjectEnd, top),
        LocState::KeyStart => if opt.trailing_comma_in_object {
            pop_container(TokenInfo::ObjectEnd, top)
        } else {
            Err(ErrorKind::TrailingCommaForbidden)
        },
        _ => Err(ErrorKind::WrongBracket),
    }
}

fn handle_comma(loc: LocState) -> (r: Result<StepOut, ErrorKind>)
    ensures
        r == spec_handle_comma(loc),
{
    match loc {
        LocState::ValueEnd => Ok(
            StepOut {
                info: TokenInfo::ObjectNext,
                location: Location::Object,
                loc: LocState::KeyStart,
                val: ValState::Empty,
                stack: StackOp::Keep,
                pending: 0,
            },
        ),
        LocState::ElementEnd => Ok(
            StepOut {
                info: TokenInfo::ArrayNext,
                location: Location::Array,
                loc: LocState::ElementStart,
                val: ValState::Empty,
                stack: StackOp::Keep,
                pending: 0,
            },
        ),
        LocState::RootEnd => Err(ErrorKind::NonwhitespaceAfterEnd),
        _ => Err(ErrorKind::Unexpected),
    }
}

fn number_separator(loc: LocState, top: Option<LocState>, c: char, opt: &ParserOption) -> (r:
    Result<StepOut, ErrorKind>)
    ensures
        r == crate::machine::spec_number_separator(loc, top, c, *opt),
{
    let nl = next_location_exec(loc);
    if c == '\0' {
        handle_eof(nl, transform_location_exec(loc), opt)
    } else if c == '}' {
        close_object(nl, top, opt)
    } else if c == ']' {
        close_array(nl, top, opt)
    } else if c == ',' {
        handle_comma(nl)
    } else if c == '/' {
        handle_slash(nl, opt)
    } else {
        Ok(out_stay_exec(TokenInfo::Whitespace, nl, ValState::Empty, 0))
    }
}

fn step_empty(loc: LocState, top: Option<LocState>, c: char, opt: &ParserOption) -> (r: Result<
    StepOut,
    ErrorKind,
>)
    ensures
        r == spec_step_empty(loc, top, c, *opt),
{
    if check_whitespace(c, opt.json5_whitespace) {
        Ok(out_stay_exec(TokenInfo::Whitespace, loc, ValState::Empty, 0))
    } else if c == '\0' {
        let tokloc = transform_location_exec(loc);
        handle_eof(loc, tokloc, opt)
    } else if c == '/' {
        handle_slash(loc, opt)
    } else {
        match loc {
            LocState::RootEnd => Err(ErrorKind::NonwhitespaceAfterEnd),
            LocState::Eof => Err(ErrorKind::ContentAfterEof),
            LocState::KeyFirstStart | LocState::KeyStart => if c == '"' {
                Ok(out_stay_exec(TokenInfo::StringStart, loc, ValState::Str(false), 0))
            } else if c == '\'' {
                if opt.single_quote {
                    Ok(out_stay_exec(TokenInfo::StringStart, loc, ValState::Str(true), 0))
                } else {
                    Err(ErrorKind::SingleQuoteForbidden)
                }
            } else if c == '}' {
                close_object(loc, top, opt)
            } else if c == ',' {
                Err(ErrorKind::CommaInEmptyObject)
            } else if c == ':' {
                Err(ErrorKind::WrongColon)
            } else if opt.identifier_key && check_identifier_start(c) {
                Ok(
                    StepOut {
                        info: TokenInfo::IdentifierNormal,
                        location: Location::Key,
                        loc,
                        val: ValState::Ident,
                        stack: StackOp::Keep,
                        pending: 0,
                    },
                )
            } else if opt.identifier_key && c == '\\' {
                Ok(
                    StepOut {
                        info: TokenInfo::IdentifierEscapeStart(0, false),
                        location: Location::Key,
                        loc,
                        val: ValState::IdentEscape(false, 0, 0),
                        stack: StackOp::Keep,
                        pending: 0,
                    },
                )
            } else {
                Err(ErrorKind::BadPropertyNameInObject)
            },
            LocState::KeyEnd => if c == ':' {
                Ok(
                    StepOut {
                        info: TokenInfo::ObjectValueStart,
                        location: Location::Object,
                        loc: LocState::ValueStart,
                        val: ValState::Empty,
                        stack: StackOp::Keep,
                        pending: 0,
                    },
                )
            } else {
                Err(ErrorKind::ExpectedColon)
            },
            LocState::ValueEnd | LocState::ElementEnd => if c == ',' {
                handle_comma(loc)
            } else if c == ']' {
                close_array(loc, top, opt)
            } else if c == '}' {
                close_object(loc, top, opt)
            } else if c == ':' {
                Err(ErrorKind::WrongColon)
            } else {
                Err(ErrorKind::Unexpected)
            },
            _ => if c == '"' {
                Ok(out_stay_exec(TokenInfo::StringStart, loc, ValState::Str(false), 0))
            } else if c == '\'' {
                if opt.single_quote {
                    Ok(out_stay_exec(TokenInfo::StringStart, loc, ValState::Str(true), 0))
                } else {
                    Err(ErrorKind::SingleQuoteForbidden)
                }
            } else if c == '[' {
                Ok(
                    StepOut {
                        info: TokenInfo::ArrayStart,
                        location: transform_location_exec(loc),
                        loc: LocState::ElementFirstStart,
                        val: ValState::Empty,
                        stack: StackOp::Push(loc),
                        pending: 0,
                    },
                )
            } else if c == '{' {
                Ok(
                    StepOut {
                        info: TokenInfo::ObjectStart,
                        location: transform_location_exec(loc),
                        loc: LocState::KeyFirstStart,
                        val: ValState::Empty,
                        stack: StackOp::Push(loc),
                        pending: 0,
                    },
                )
            } else if c == ']' {
                if loc == LocState::ElementFirstStart || loc == LocState::ElementStart {
                    close_array(loc, top, opt)
                } else {
                    Err(ErrorKind::WrongBracket)
                }
            } else if c == '}' {
                Err(ErrorKind::WrongBracket)
            } else if c == ',' {
                if loc == LocState::ElementFirstStart {
                    Err(ErrorKind::CommaInEmptyArray)
                } else if loc == LocState::ValueStart {
                    Err(ErrorKind::EmptyValueInObject)
                } else {
                    Err(ErrorKind::EmptyValue)
                }
            } else if c == ':' {
                if loc == LocState::ValueStart {
                    Err(ErrorKind::RepeatedColon)
                } else {
                    Err(ErrorKind::WrongColon)
                }
            } else if c == '+' || c == '-' {
                if c == '+' && !opt.positive_sign {
                    Err(ErrorKind::PositiveSignForbidden)
                } else {
                    Ok(
                        out_stay_exec(
                            TokenInfo::NumberIntegerSign,
                            loc,
                            ValState::Num(NumState::Sign),
                            0,
                        ),
                    )
                }
            } else if c == '0' {
                Ok(
                    out_stay_exec(
                        TokenInfo::NumberIntegerDigit,
                        loc,
                        ValState::Num(NumState::Zero),
                        0,
                    ),
                )
            } else if check_digit(c) {
                Ok(
                    out_stay_exec(
                        TokenInfo::NumberIntegerDigit,
                        loc,
                        ValState::Num(NumState::Digit),
                        0,
                    ),
                )
            } else if c == '.' {
                if opt.empty_integer {
                    Ok(
                        out_stay_exec(
                            TokenInfo::NumberFractionStart,
                            loc,
                            ValState::NumFraction(false, true),
                            0,
                        ),
                    )
                } else {
                    Err(ErrorKind::EmptyIntegerPart)
                }
            } else if c == 'N' {
                if opt.nan {
                    Ok(out_stay_exec(TokenInfo::NumberNan(0, false), loc, ValState::NumNan(1), 0))
                } else {
                    Err(ErrorKind::Unexpected)
                }
            } else if c == 'I' {
                if opt.infinity {
                    Ok(
                        out_stay_exec(
                            TokenInfo::NumberInfinity(0, false),
                            loc,
                            ValState::NumInfinity(1),
                            0,
                        ),
                    )
                } else {
                    Err(ErrorKind::Unexpected)
                }
            } else if c == 'n' {
                Ok(out_stay_exec(TokenInfo::Null(0, false), loc, ValState::Null(1), 0))
            } else if c == 't' {
                Ok(out_stay_exec(TokenInfo::True(0, false), loc, ValState::True(1), 0))
            } else if c == 'f' {
                Ok(out_stay_exec(TokenInfo::False(0, false), loc, ValState::False(1), 0))
            } else {
                Err(ErrorKind::Unexpected)
            },
        }
    }
}

fn step_string(loc: LocState, q: bool, c: char, opt: &ParserOption) -> (r: Result<
    StepOut,
    ErrorKind,
>)
    ensures
        r == spec_step_string(loc, q, c, *opt),
{
    if (q && c == '\'') || (!q && c == '"') {
        let nl = next_location_exec(loc);
        Ok(
            StepOut {
                info: TokenInfo::StringEnd,
                location: transform_location_exec(nl),
                loc: nl,
                val: ValState::Empty,
                stack: StackOp::Keep,
                pending: 0,
            },
        )
    } else if c == '\\' {
        Ok(out_stay_exec(TokenInfo::StringEscapeStart, loc, ValState::StrEscape(q), 0))
    } else if c == '\0' {
        Err(ErrorKind::Eof)
    } else if check_control(c) {
        if opt.multiline_string && (c == '\n' || c == '\r') {
            Ok(
                out_stay_exec(
                    TokenInfo::StringNextLine,
                    loc,
                    if c == '\r' {
                        ValState::StrCr(q)
                    } else {
                        ValState::Str(q)
                    },
                    0,
                ),
            )
        } else {
            Err(ErrorKind::ControlCharacterForbiddenInString)
        }
    } else {
        Ok(out_stay_exec(TokenInfo::StringNormal, loc, ValState::Str(q), 0))
    }
}

fn step_null(loc: LocState, idx: u8, pending: u16, top: Option<LocState>, c: char, opt:
    &ParserOption) -> (r: Result<StepOut, ErrorKind>)
    requires
        1 <= idx <= 3,
    ensures
        r == spec_step(loc, ValState::Null(idx), pending, top, c, *opt),
{
    proof {
        reveal(crate::machine::spec_step);
    }
    let expect = if idx == 1 {
        'u'
    } else {
        'l'
    };
    if c == expect {
        if idx == 3 {
            let nl = next_location_exec(loc);
            Ok(
                StepOut {
                    info: TokenInfo::Null(3, true),
                    location: transform_location_exec(loc),
                    loc: nl,
                    val: ValState::Empty,
                    stack: StackOp::Keep,
                    pending: 0,
                },
            )
        } else {
            Ok(out_stay_exec(TokenInfo::Null(idx, false), loc, ValState::Null(idx + 1), 0))
        }
    } else {
        Err(ErrorKind::Unexpected)
    }
}

fn step_true(loc: LocState, idx: u8, pending: u16, top: Option<LocState>, c: char, opt:
    &ParserOption) -> (r: Result<StepOut, ErrorKind>)
    requires
        1 <= idx <= 3,
    ensures
        r == spec_step(loc, ValState::True(idx), pending, top, c, *opt),
{
    proof {
        reveal(crate::machine::spec_step);
    }
    let expect = if idx == 1 {
        'r'
    } else if idx == 2 {
        'u'
    } else {
        'e'
    };
    if c == expect {
        if idx == 3 {
            let nl = next_location_exec(loc);
            Ok(
                StepOut {
                    info: TokenInfo::True(3, true),
                    location: transform_location_exec(loc),
                    loc: nl,
                    val: ValState::Empty,
                    stack: StackOp::Keep,
                    pending: 0,
                },
            )
        } else {
            Ok(out_stay_exec(TokenInfo::True(idx, false), loc, ValState::True(idx + 1), 0))
        }
    } else {
        Err(ErrorKind::Unexpected)
    }
}

fn step_false(loc: LocState, idx: u8, pending: u16, top: Option<LocState>, c: char, opt:
    &ParserOption) -> (r: Result<StepOut, ErrorKind>)
    requires
        1 <= idx <= 4,
    ensures
        r == spec_step(loc, ValState::False(idx), pending, top, c, *opt),
{
    proof {
        reveal(crate::machine::spec_step);
    }
    let expect = if idx == 1 {
        'a'
    } else if idx == 2 {
        'l'
    } else if idx == 3 {
        's'
    } else {
        'e'
    };
    if c == expect {
        if idx == 4 {
            let nl = next_location_exec(loc);
            Ok(
                StepOut {
                    info: TokenInfo::False(4, true),
                    location: transform_location_exec(loc),
                    loc: nl,
                    val: ValState::Empty,
                    stack: StackOp::Keep,
                    pending: 0,
                },
            )
        } else {
            Ok(out_stay_exec(TokenInfo::False(idx, false), loc, ValState::False(idx + 1), 0))
        }
    } else {
        Err(ErrorKind::Unexpected)
    }
}

fn step_nan(loc: LocState, idx: u8, pending: u16, top: Option<LocState>, c: char, opt:
    &ParserOption) -> (r: Result<StepOut, ErrorKind>)
    requires
        1 <= idx <= 2,
    ensures
        r == spec_step(loc, ValState::NumNan(idx), pending, top, c, *opt),
{
    proof {
        reveal(crate::machine::spec_step);
    }
    let expect = if idx == 1 {
        'a'
    } else {
        'N'
    };
    if c == expect {
        if idx == 2 {
            let nl = next_location_exec(loc);
            Ok(
                StepOut {
                    info: TokenInfo::NumberNan(2, true),
                    location: transform_location_exec(loc),
                    loc: nl,
                    val: ValState::Empty,
                    stack: StackOp::Keep,
                    pending: 0,
                },
            )
        } else {
            Ok(out_stay_exec(TokenInfo::NumberNan(idx, false), loc, ValState::NumNan(idx + 1), 0))
        }
    } else {
        Err(ErrorKind::UnexpectedInNumber)
    }
}

fn step_infinity(loc: LocState, idx: u8, pending: u16, top: Option<LocState>, c: char, opt:
    &ParserOption) -> (r: Result<StepOut, ErrorKind>)
    requires
        1 <= idx <= 7,
    ensures
        r == spec_step(loc, ValState::NumInfinity(idx), pending, top, c, *opt),
{
    proof {
        reveal(crate::machine::spec_step);
    }
    let expect = if idx == 1 {
        'n'
    } else if idx == 2 {
        'f'
    } else if idx == 3 {
        'i'
    } else if idx == 4 {
        'n'
    } else if idx == 5 {
        'i'
    } else if idx == 6 {
        't'
    } else {
        'y'
    };
    if c == expect {
        if idx == 7 {
            let nl = next_location_exec(loc);
            Ok(
                StepOut {
                    info: TokenInfo::NumberInfinity(7, true),
                    location: transform_location_exec(loc),
                    loc: nl,
                    val: ValState::Empty,
                    stack: StackOp::Keep,
                    pending: 0,
                },
            )
        } else {
            Ok(
                out_stay_exec(
                    TokenInfo::NumberInfinity(idx, false),
                    loc,
                    ValState::NumInfinity(idx + 1),
                    0,
                ),
            )
        }
    } else {
        Err(ErrorKind::UnexpectedInNumber)
    }
}

fn step_str_escape(loc: LocState, q: bool, pending: u16, c: char, opt: &ParserOption) -> (r: Result<
    StepOut,
    ErrorKind,
>)
    ensures
        r == spec_step(loc, ValState::StrEscape(q), pending, None, c, *opt),
{
    proof {
        reveal(crate::machine::spec_step);
    }
    if c == 'u' {
        Ok(
            out_stay_exec(
                TokenInfo::StringEscapeUnicodeStart,
                loc,
                ValState::StrUnicode(q, 0, 0),
                pending,
            ),
        )
    } else {
        match simple_escape(c, opt.json5_string_escape) {
            Some(e) => Ok(out_stay_exec(TokenInfo::StringEscape(e), loc, ValState::Str(q), 0)),
            None => if opt.multiline_string && check_next_line(c) {
                Ok(
                    out_stay_exec(
                        TokenInfo::StringNextLine,
                        loc,
                        if c == '\r' {
                            ValState::StrCr(q)
                        } else {
                            ValState::Str(q)
                        },
                        0,
                    ),
                )
            } else if opt.json5_string_escape && c == 'x' {
                Ok(
                    out_stay_exec(
                        TokenInfo::StringEscapeHexStart,
                        loc,
                        ValState::StrEscapeHex(q, 0, 0),
                        0,
                    ),
                )
            } else {
                Err(ErrorKind::BadEscapeInString)
            },
        }
    }
}

fn step_str_unicode(loc: LocState, q: bool, idx: u8, acc: u16, pending: u16, c: char, opt:
    &ParserOption) -> (r: Result<StepOut, ErrorKind>)
    requires
        idx <= 3,
        crate::machine::acc_bound(idx, acc as u32),
        pending == 0 || (0xD800 <= pending && pending < 0xDC00),
    ensures
        r == spec_step(loc, ValState::StrUnicode(q, idx, acc), pending, None, c, *opt),
{
    proof {
        reveal(crate::machine::spec_step);
    }
    if check_hex(c) {
        let acc2: u16 = acc * 16 + (to_hexdigit(c) as u16);
        if idx == 3 {
            let produced: Option<char>;
            let npending: u16;
            if pending != 0 && 0xDC00 <= acc2 && acc2 < 0xE000 {
                let combined: u32 = 0x10000 + ((pending as u32) - 0xD800) * 0x400 + ((acc2 as u32)
                    - 0xDC00);
                produced = char_from_u32(combined);
                npending = 0;
            } else if 0xD800 <= acc2 && acc2 < 0xDC00 {
                produced = None;
                npending = acc2;
            } else if 0xDC00 <= acc2 && acc2 < 0xE000 {
                produced = None;
                npending = 0;
            } else {
                produced = char_from_u32(acc2 as u32);
                npending = 0;
            }
            proof {
                assert((produced, npending) == spec_unicode_complete(q, pending, acc2));
            }
            Ok(
                out_stay_exec(
                    TokenInfo::StringEscapeUnicode(3, produced),
                    loc,
                    ValState::Str(q),
                    npending,
                ),
            )
        } else {
            Ok(
                out_stay_exec(
                    TokenInfo::StringEscapeUnicode(idx, None),
                    loc,
                    ValState::StrUnicode(q, idx + 1, acc2),
                    pending,
                ),
            )
        }
    } else {
        Err(ErrorKind::BadUnicodeEscapeInString)
    }
}

fn step_str_hex(loc: LocState, q: bool, idx: u8, acc: u8, c: char, opt: &ParserOption) -> (r:
    Result<StepOut, ErrorKind>)
    requires
        idx <= 1,
        crate::machine::acc_bound(idx, acc as u32),
    ensures
        r == spec_step(loc, ValState::StrEscapeHex(q, idx, acc), 0, None, c, *opt),
{
    proof {
        reveal(crate::machine::spec_step);
    }
    if check_hex(c) {
        if idx == 1 {
            let value: u8 = acc * 16 + (to_hexdigit(c) as u8);
            let produced = char_from_u32(value as u32);
            Ok(out_stay_exec(TokenInfo::StringEscapeHex(1, produced), loc, ValState::Str(q), 0))
        } else {
            Ok(
                out_stay_exec(
                    TokenInfo::StringEscapeHex(0, None),
                    loc,
                    ValState::StrEscapeHex(q, 1, to_hexdigit(c) as u8),
                    0,
                ),
            )
        }
    } else {
        Err(ErrorKind::BadHexEscapeInString)
    }
}

fn step_num(loc: LocState, st: NumState, top: Option<LocState>, c: char, opt: &ParserOption) -> (r:
    Result<StepOut, ErrorKind>)
    ensures
        r == spec_step(loc, ValState::Num(st), 0, top, c, *opt),
{
    proof {
        reveal(crate::machine::spec_step);
    }
    if c == '0' {
        match st {
            NumState::Zero => Err(ErrorKind::LeadingZeroForbidden),
            NumState::Sign => Ok(
                out_stay_exec(TokenInfo::NumberIntegerDigit, loc, ValState::Num(NumState::Zero), 0),
            ),
            NumState::Digit => Ok(
                out_stay_exec(
                    TokenInfo::NumberIntegerDigit,
                    loc,
                    ValState::Num(NumState::Digit),
                    0,
                ),
            ),
        }
    } else if check_digit(c) {
        match st {
            NumState::Zero => Err(ErrorKind::LeadingZeroForbidden),
            _ => Ok(
                out_stay_exec(
                    TokenInfo::NumberIntegerDigit,
                    loc,
                    ValState::Num(NumState::Digit),
                    0,
                ),
            ),
        }
    } else if c == '.' {
        if st == NumState::Sign && !opt.empty_integer {
            Err(ErrorKind::EmptyIntegerPart)
        } else {
            Ok(
                out_stay_exec(
                    TokenInfo::NumberFractionStart,
                    loc,
                    ValState::NumFraction(false, st == NumState::Sign),
                    0,
                ),
            )
        }
    } else if st == NumState::Sign {
        if opt.infinity && c == 'I' {
            Ok(out_stay_exec(TokenInfo::NumberInfinity(0, false), loc, ValState::NumInfinity(1), 0))
        } else if opt.nan && c == 'N' {
            Ok(out_stay_exec(TokenInfo::NumberNan(0, false), loc, ValState::NumNan(1), 0))
        } else {
            Err(ErrorKind::EmptyIntegerPart)
        }
    } else if st == NumState::Zero && (c == 'x' || c == 'X') && opt.hexadecimal_integer {
        Ok(out_stay_exec(TokenInfo::NumberHexStart, loc, ValState::NumHex(false), 0))
    } else if st == NumState::Zero && (c == 'o' || c == 'O') && opt.octal_integer {
        Ok(out_stay_exec(TokenInfo::NumberOctStart, loc, ValState::NumOct(false), 0))
    } else if st == NumState::Zero && (c == 'b' || c == 'B') && opt.binary_integer {
        Ok(out_stay_exec(TokenInfo::NumberBinStart, loc, ValState::NumBin(false), 0))
    } else if c == 'e' || c == 'E' {
        Ok(
            out_stay_exec(
                TokenInfo::NumberExponentStart,
                loc,
                ValState::NumExponent(ExpState::Desire),
                0,
            ),
        )
    } else if check_number_separator(c, opt.json5_whitespace) {
        number_separator(loc, top, c, opt)
    } else {
        Err(ErrorKind::UnexpectedInNumber)
    }
}

fn step_fraction(loc: LocState, seen: bool, int_empty: bool, top: Option<LocState>, c: char, opt:
    &ParserOption) -> (r: Result<StepOut, ErrorKind>)
    ensures
        r == spec_step(loc, ValState::NumFraction(seen, int_empty), 0, top, c, *opt),
{
    proof {
        reveal(crate::machine::spec_step);
    }
    if check_digit(c) {
        Ok(
            out_stay_exec(
                TokenInfo::NumberFractionDigit,
                loc,
                ValState::NumFraction(true, int_empty),
                0,
            ),
        )
    } else if !seen && int_empty {
        Err(ErrorKind::LoneDecimalPoint)
    } else if !seen && !opt.empty_fraction {
        Err(ErrorKind::EmptyFractionPart)
    } else if c == 'e' || c == 'E' {
        Ok(
            out_stay_exec(
                TokenInfo::NumberExponentStart,
                loc,
                ValState::NumExponent(ExpState::Desire),
                0,
            ),
        )
    } else if check_number_separator(c, opt.json5_whitespace) {
        number_separator(loc, top, c, opt)
    } else {
        Err(ErrorKind::UnexpectedInNumber)
    }
}

fn step_exponent(loc: LocState, st: ExpState, top: Option<LocState>, c: char, opt: &ParserOption)
    -> (r: Result<StepOut, ErrorKind>)
    ensures
        r == spec_step(loc, ValState::NumExponent(st), 0, top, c, *opt),
{
    proof {
        reveal(crate::machine::spec_step);
    }
    if c == '+' || c == '-' {
        if st == ExpState::Desire {
            Ok(
                out_stay_exec(
                    TokenInfo::NumberExponentSign,
                    loc,
                    ValState::NumExponent(ExpState::Sign),
                    0,
                ),
            )
        } else {
            Err(ErrorKind::UnexpectedInNumber)
        }
    } else if check_digit(c) {
        Ok(
            out_stay_exec(
                TokenInfo::NumberExponentDigit,
                loc,
                ValState::NumExponent(ExpState::Digit),
                0,
            ),
        )
    } else if st != ExpState::Digit {
        Err(ErrorKind::EmptyExponentPart)
    } else if check_number_separator(c, opt.json5_whitespace) {
        number_separator(loc, top, c, opt)
    } else {
        Err(ErrorKind::UnexpectedInNumber)
    }
}

fn step_num_hex(loc: LocState, seen: bool, top: Option<LocState>, c: char, opt: &ParserOption) -> (
    r: Result<StepOut, ErrorKind>)
    ensures
        r == spec_step(loc, ValState::NumHex(seen), 0, top, c, *opt),
{
    proof {
        reveal(crate::machine::spec_step);
    }
    if check_hex(c) {
        Ok(out_stay_exec(TokenInfo::NumberHex, loc, ValState::NumHex(true), 0))
    } else if c == '.' {
        Err(ErrorKind::FractionNotAllowed)
    } else if !seen {
        Err(ErrorKind::EmptyIntegerPart)
    } else if check_number_separator(c, opt.json5_whitespace) {
        number_separator(loc, top, c, opt)
    } else {
        Err(ErrorKind::UnexpectedInNumber)
    }
}

fn step_num_oct(loc: LocState, seen: bool, top: Option<LocState>, c: char, opt: &ParserOption) -> (
    r: Result<StepOut, ErrorKind>)
    ensures
        r == spec_step(loc, ValState::NumOct(seen), 0, top, c, *opt),
{
    proof {
        reveal(crate::machine::spec_step);
    }
    if check_octal(c) {
        Ok(out_stay_exec(TokenInfo::NumberOct, loc, ValState::NumOct(true), 0))
    } else if c == '.' {
        Err(ErrorKind::FractionNotAllowed)
    } else if c == 'e' || c == 'E' {
        Err(ErrorKind::ExponentNotAllowed)
    } else if !seen {
        Err(ErrorKind::EmptyIntegerPart)
    } else if check_number_separator(c, opt.json5_whitespace) {
        number_separator(loc, top, c, opt)
    } else {
        Err(ErrorKind::UnexpectedInNumber)
    }
}

fn step_num_bin(loc: LocState, seen: bool, top: Option<LocState>, c: char, opt: &ParserOption) -> (
    r: Result<StepOut, ErrorKind>)
    ensures
        r == spec_step(loc, ValState::NumBin(seen), 0, top, c, *opt),
{
    proof {
        reveal(crate::machine::spec_step);
    }
    if check_binary(c) {
        Ok(out_stay_exec(TokenInfo::NumberBin, loc, ValState::NumBin(true), 0))
    } else if c == '.' {
        Err(ErrorKind::FractionNotAllowed)
    } else if c == 'e' || c == 'E' {
        Err(ErrorKind::ExponentNotAllowed)
    } else if !seen {
        Err(ErrorKind::EmptyIntegerPart)
    } else if check_number_separator(c, opt.json5_whitespace) {
        number_separator(loc, top, c, opt)
    } else {
        Err(ErrorKind::UnexpectedInNumber)
    }
}

fn step_ident(loc: LocState, c: char, opt: &ParserOption) -> (r: Result<StepOut, ErrorKind>)
    ensures
        r == spec_step(loc, ValState::Ident, 0, None, c, *opt),
{
    proof {
        reveal(crate::machine::spec_step);
    }
    if c == ':' {
        Ok(
            StepOut {
                info: TokenInfo::ObjectValueStart,
                location: Location::Object,
                loc: LocState::ValueStart,
                val: ValState::Empty,
                stack: StackOp::Keep,
                pending: 0,
            },
        )
    } else if check_whitespace(c, opt.json5_whitespace) {
        Ok(
            StepOut {
                info: TokenInfo::Whitespace,
                location: Location::Key,
                loc: LocState::KeyEnd,
                val: ValState::Empty,
                stack: StackOp::Keep,
                pending: 0,
            },
        )
    } else if check_identifier_next(c) {
        Ok(
            StepOut {
                info: TokenInfo::IdentifierNormal,
                location: Location::Key,
                loc,
                val: ValState::Ident,
                stack: StackOp::Keep,
                pending: 0,
            },
        )
    } else {
        Err(ErrorKind::InvalidIdentifier)
    }
}

fn step_ident_escape(loc: LocState, prefix: bool, idx: u8, acc: u16, c: char, opt: &ParserOption)
    -> (r: Result<StepOut, ErrorKind>)
    requires
        idx <= 3,
        crate::machine::acc_bound(idx, acc as u32),
    ensures
        r == spec_step(loc, ValState::IdentEscape(prefix, idx, acc), 0, None, c, *opt),
{
    proof {
        reveal(crate::machine::spec_step);
    }
    if !prefix {
        if c == 'u' {
            Ok(
                StepOut {
                    info: TokenInfo::IdentifierEscapeStart(1, true),
                    location: Location::Key,
                    loc,
                    val: ValState::IdentEscape(true, 0, 0),
                    stack: StackOp::Keep,
                    pending: 0,
                },
            )
        } else {
            Err(ErrorKind::BadIdentifierEscape)
        }
    } else if check_hex(c) {
        let acc2: u16 = acc * 16 + (to_hexdigit(c) as u16);
        if idx == 3 {
            let produced: Option<char> = if 0xD800 <= acc2 && acc2 < 0xE000 {
                None
            } else {
                char_from_u32(acc2 as u32)
            };
            Ok(
                StepOut {
                    info: TokenInfo::IdentifierEscape(3, produced),
                    location: Location::Key,
                    loc: next_location_exec(loc),
                    val: ValState::Empty,
                    stack: StackOp::Keep,
                    pending: 0,
                },
            )
        } else {
            Ok(
                StepOut {
                    info: TokenInfo::IdentifierEscape(idx, None),
                    location: Location::Key,
                    loc,
                    val: ValState::IdentEscape(true, idx + 1, acc2),
                    stack: StackOp::Keep,
                    pending: 0,
                },
            )
        }
    } else {
        Err(ErrorKind::InvalidIdentifierEscape)
    }
}

fn step_comment(loc: LocState, val: ValState, c: char, opt: &ParserOption) -> (r: Result<
    StepOut,
    ErrorKind,
>)
    requires
        val == ValState::CommentMay || val == ValState::CommentLine || val
            == ValState::CommentBlock || val == ValState::CommentBlockMayEnd,
    ensures
        r == spec_step(loc, val, 0, None, c, *opt),
{
    proof {
        reveal(crate::machine::spec_step);
    }
    match val {
        ValState::CommentMay => if opt.single_line_comment && c == '/' {
            Ok(out_stay_exec(TokenInfo::CommentSingleLine, loc, ValState::CommentLine, 0))
        } else if opt.multi_line_comment && c == '*' {
            Ok(out_stay_exec(TokenInfo::CommentMultiLine, loc, ValState::CommentBlock, 0))
        } else {
            Err(ErrorKind::CommentForbidden)
        },
        ValState::CommentLine => if c == '\0' {
            let tokloc = transform_location_exec(loc);
            handle_eof(loc, tokloc, opt)
        } else if check_next_line(c) {
            Ok(out_stay_exec(TokenInfo::CommentSingleLine, loc, ValState::Empty, 0))
        } else {
            Ok(out_stay_exec(TokenInfo::CommentSingleLine, loc, ValState::CommentLine, 0))
        },
        ValState::CommentBlock => if c == '\0' {
            Err(ErrorKind::CommentNotClosed)
        } else if c == '*' {
            Ok(out_stay_exec(TokenInfo::CommentMultiLine, loc, ValState::CommentBlockMayEnd, 0))
        } else {
            Ok(out_stay_exec(TokenInfo::CommentMultiLine, loc, ValState::CommentBlock, 0))
        },
        _ => if c == '/' {
            Ok(out_stay_exec(TokenInfo::CommentMultiLineEnd, loc, ValState::Empty, 0))
        } else if c == '*' {
            Ok(out_stay_exec(TokenInfo::CommentMultiLine, loc, ValState::CommentBlockMayEnd, 0))
        } else if c == '\0' {
            Err(ErrorKind::CommentNotClosed)
        } else {
            Ok(out_stay_exec(TokenInfo::CommentMultiLine, loc, ValState::CommentBlock, 0))
        },
    }
}

/// One step of the grammar machine.
fn step(loc: LocState, val: ValState, pending: u16, top: Option<LocState>, c: char, opt:
    &ParserOption) -> (r: Result<StepOut, ErrorKind>)
    requires
        val_wf(loc, val, pending),
    ensures
        r == spec_step(loc, val, pending, top, c, *opt),
{
    proof {
        reveal(crate::machine::spec_step);
    }
    match val {
        ValState::Empty => step_empty(loc, top, c, opt),
        ValState::Null(idx) => step_null(loc, idx, pending, top, c, opt),
        ValState::True(idx) => step_true(loc, idx, pending, top, c, opt),
        ValState::False(idx) => step_false(loc, idx, pending, top, c, opt),
        ValState::NumNan(idx) => step_nan(loc, idx, pending, top, c, opt),
        ValState::NumInfinity(idx) => step_infinity(loc, idx, pending, top, c, opt),
        ValState::StrCr(q) => if c == '\n' {
            Ok(out_stay_exec(TokenInfo::StringNextLine, loc, ValState::Str(q), 0))
        } else {
            step_string(loc, q, c, opt)
        },
        ValState::Str(q) => if pending != 0 && c == '\\' {
            Ok(out_stay_exec(TokenInfo::StringEscapeStart, loc, ValState::StrEscape(q), pending))
        } else {
            step_string(loc, q, c, opt)
        },
        ValState::StrEscape(q) => step_str_escape(loc, q, pending, c, opt),
        ValState::StrUnicode(q, idx, acc) => step_str_unicode(loc, q, idx, acc, pending, c, opt),
        ValState::StrEscapeHex(q, idx, acc) => step_str_hex(loc, q, idx, acc, c, opt),
        ValState::Num(st) => step_num(loc, st, top, c, opt),
        ValState::NumFraction(seen, int_empty) => step_fraction(loc, seen, int_empty, top, c, opt),
        ValState::NumExponent(st) => step_exponent(loc, st, top, c, opt),
        ValState::NumHex(seen) => step_num_hex(loc, seen, top, c, opt),
        ValState::NumOct(seen) => step_num_oct(loc, seen, top, c, opt),
        ValState::NumBin(seen) => step_num_bin(loc, seen, top, c, opt),
        ValState::CommentMay => step_comment(loc, val, c, opt),
        ValState::CommentLine => step_comment(loc, val, c, opt),
        ValState::CommentBlock => step_comment(loc, val, c, opt),
        ValState::CommentBlockMayEnd => step_comment(loc, val, c, opt),
        ValState::Ident => step_ident(loc, c, opt),
        ValState::IdentEscape(prefix, idx, acc) => step_ident_escape(loc, prefix, idx, acc, c, opt),
    }
}

/// The line and column the next scalar stands at, resolving a pending
/// carriage return against it.
fn adjust_counters(line: usize, column: usize, meet_cr: bool, position: usize, c: char) -> (r: (
    usize,
    usize,
))
    requires
        line + (if meet_cr {
            1int
        } else {
            0int
        }) <= position,
        column <= position,
    ensures
        r.0 == spec_adjust(line as nat, column as nat, meet_cr, c).0,
        r.1 == spec_adjust(line as nat, column as nat, meet_cr, c).1,
        r.0 <= position,
        r.1 <= position,
{
    if meet_cr && c != '\n' {
        (line + 1, 0)
    } else {
        (line, column)
    }
}

/// The line, column and carriage-return flag after accepting `c` at the
/// adjusted place.
fn advance_counters(eline: usize, ecolumn: usize, position: usize, c: char) -> (r: (
    usize,
    usize,
    bool,
))
    requires
        eline <= position,
        ecolumn <= position,
        position < usize::MAX,
    ensures
        r.0 == spec_advance(eline as nat, ecolumn as nat, c).0,
        r.1 == spec_advance(eline as nat, ecolumn as nat, c).1,
        r.2 == spec_advance(eline as nat, ecolumn as nat, c).2,
        r.0 + (if r.2 {
            1int
        } else {
            0int
        }) <= position + 1,
        r.1 <= position + 1,
{
    if c == '\r' {
        (eline, ecolumn + 1, true)
    } else if check_next_line(c) {
        (eline + 1, 0, false)
    } else if c == '\0' {
        (eline, ecolumn, false)
    } else {
        (eline, ecolumn + 1, false)
    }
}

/// A state machine that parses JSON data one scalar at a time, emitting
/// one classified token for each accepted scalar.
#[derive(Clone, Debug)]
pub struct StreamParser {
    position: usize,
    line: usize,
    column: usize,
    meet_cr: bool,
    location: LocState,
    state: ValState,
    stack: Vec<LocState>,
    pending: u16,
    option: ParserOption,
}

impl View for StreamParser {
    type V = ParserModel;

    closed spec fn view(&self) -> ParserModel {
        ParserModel {
            position: self.position as nat,
            line: self.line as nat,
            column: self.column as nat,
            meet_cr: self.meet_cr,
            loc: self.location,
            val: self.state,
            stack: self.stack@,
            pending: self.pending,
            option: self.option,
        }
    }
}

impl StreamParser {
    /// Whether the parser's state is well formed. Holds of a fresh parser
    /// and is preserved by every feed.
    pub open spec fn wf(&self) -> bool {
        model_wf(self@)
    }

    /// A fresh parser for the given option set.
    pub fn new(option: ParserOption) -> (r: StreamParser)
        ensures
            r@ == init_model(option),
            r.wf(),
    {
        let r = StreamParser {
            position: 0,
            line: 0,
            column: 0,
            meet_cr: false,
            location: LocState::RootStart,
            state: ValState::Empty,
            stack: Vec::new(),
            pending: 0,
            option,
        };
        proof {
            assert(r@.stack =~= init_model(option).stack);
        }
        r
    }

    /// Feed a single scalar and receive its token.
    ///
    /// The end of the input is signalled by feeding the NUL scalar. On an
    /// error the parser is unchanged: the offending scalar was not
    /// accepted, and the error reports its position, line and column. A
    /// grammar error carries the kind [`spec_feed`] assigns; a parser
    /// whose position counter cannot grow any further reports
    /// `PositionOverflow` instead.
    #[verifier::rlimit(100)]
    #[verifier::spinoff_prover]
    pub fn feed_one(&mut self, c: char) -> (r: Result<Token, StreamError>)
        requires
            old(self).wf(),
        ensures
            final(self).wf(),
            final(self)@.option == old(self)@.option,
            match r {
                Ok(t) => {
                    &&& old(self)@.position < usize::MAX
                    &&& spec_feed(old(self)@, c) == Ok::<(Token, ParserModel), ErrorKind>(
                        (t, final(self)@),
                    )
                },
                Err(e) => {
                    &&& *final(self) == *old(self)
                    &&& e.character == c
                    &&& e.position == old(self)@.position
                    &&& e.line == spec_adjust(
                        old(self)@.line,
                        old(self)@.column,
                        old(self)@.meet_cr,
                        c,
                    ).0
                    &&& e.column == spec_adjust(
                        old(self)@.line,
                        old(self)@.column,
                        old(self)@.meet_cr,
                        c,
                    ).1
                    &&& (spec_feed(old(self)@, c) == Err::<(Token, ParserModel), ErrorKind>(e.kind)
                        || (old(self)@.position == usize::MAX && e.kind
                        == ErrorKind::PositionOverflow && spec_feed(old(self)@, c) is Ok))
                },
            },
    {
        let ghost m = self@;
        let adjusted = adjust_counters(self.line, self.column, self.meet_cr, self.position, c);
        let top: Option<LocState> = if self.stack.len() > 0 {
            Some(self.stack[self.stack.len() - 1])
        } else {
            None
        };
        proof {
            assert(top == stack_top(m.stack));
        }
        match step(self.location, self.state, self.pending, top, c, &self.option) {
            Err(kind) => Err(
                StreamError {
                    position: self.position,
                    line: adjusted.0,
                    column: adjusted.1,
                    character: c,
                    kind,
                },
            ),
            Ok(out) => {
                if self.position == usize::MAX {
                    return Err(
                        StreamError {
                            position: self.position,
                            line: adjusted.0,
                            column: adjusted.1,
                            character: c,
                            kind: ErrorKind::PositionOverflow,
                        },
                    );
                }
                Ok(self.commit(out, c, adjusted.0, adjusted.1))
            },
        }
    }

    /// Make an accepted step take effect.
    #[verifier::rlimit(100)]
    fn commit(&mut self, out: StepOut, c: char, eline: usize, ecolumn: usize) -> (t: Token)
        requires
            old(self).wf(),
            old(self)@.position < usize::MAX,
            spec_step(
                old(self)@.loc,
                old(self)@.val,
                old(self)@.pending,
                stack_top(old(self)@.stack),
                c,
                old(self)@.option,
            ) == Ok::<StepOut, ErrorKind>(out),
            eline == spec_adjust(old(self)@.line, old(self)@.column, old(self)@.meet_cr, c).0,
            ecolumn == spec_adjust(old(self)@.line, old(self)@.column, old(self)@.meet_cr, c).1,
            eline <= old(self)@.position,
            ecolumn <= old(self)@.position,
        ensures
            final(self).wf(),
            final(self)@.option == old(self)@.option,
            spec_feed(old(self)@, c) == Ok::<(Token, ParserModel), ErrorKind>((t, final(self)@)),
    {
        let ghost m = self@;
        let advanced = advance_counters(eline, ecolumn, self.position, c);
        proof {
            crate::machine::lemma_step_preserves_wf(m.loc, m.val, m.pending, m.stack, c, m.option);
        }
        self.location = out.loc;
        self.state = out.val;
        self.pending = out.pending;
        match out.stack {
            StackOp::Keep => {},
            StackOp::Push(l) => self.stack.push(l),
            StackOp::Pop => {
                let _ = self.stack.pop();
            },
        }
        proof {
            assert(self.stack@ =~= apply_stack(m.stack, out.stack));
        }
        self.position = self.position + 1;
        self.line = advanced.0;
        self.column = advanced.1;
        self.meet_cr = advanced.2;
        let token = Token { c, info: out.info, location: out.location };
        proof {
            crate::machine::lemma_feed_compose(m, c, out, token, self@);
        }
        token
    }

    /// How far the parse has progressed in model state `m`.
    pub open spec fn stage_of(m: ParserModel) -> Stage {
        match m.val {
            ValState::Empty => match m.loc {
                LocState::RootStart => Stage::NotStarted,
                LocState::RootEnd => Stage::Ended,
                LocState::Eof => Stage::Ended,
                _ => Stage::Parsing,
            },
            _ => Stage::Parsing,
        }
    }

    /// The count of accepted scalars.
    pub fn get_position(&self) -> (r: usize)
        ensures
            r == self@.position,
    {
        self.position
    }

    /// The 0-based line the next scalar stands on.
    pub fn get_line(&self) -> (r: usize)
        ensures
            r == self@.line,
    {
        self.line
    }

    /// The 0-based column the next scalar stands at.
    pub fn get_column(&self) -> (r: usize)
        ensures
            r == self@.column,
    {
        self.column
    }

    /// The syntactic slot the parser currently stands in.
    pub fn get_location(&self) -> (r: Location)
        ensures
            r == transform_location(self@.loc),
    {
        transform_location_exec(self.location)
    }

    /// How far the parse has progressed.
    pub fn get_stage(&self) -> (r: Stage)
        ensures
            r == StreamParser::stage_of(self@),
    {
        match self.state {
            ValState::Empty => match self.location {
                LocState::RootStart => Stage::NotStarted,
                LocState::RootEnd => Stage::Ended,
                LocState::Eof => Stage::Ended,
                _ => Stage::Parsing,
            },
            _ => Stage::Parsing,
        }
    }

    /// Feed every character of a string, collecting one token for each,
    /// and stop at the first rejected character.
    pub fn feed(&mut self, s: &str) -> (r: Result<Vec<Token>, StreamError>)
        requires
            old(self).wf(),
            old(self)@.position + s@.len() <= usize::MAX,
        ensures
            final(self).wf(),
            final(self)@.option == old(self)@.option,
            final(self)@.position == old(self)@.position + spec_feed_all(
                old(self)@,
                s@,
            ).tokens.len(),
            ({
                let fa = spec_feed_all(old(self)@, s@);
                match r {
                    Ok(tokens) => fa.err is None && tokens@ == fa.tokens && tokens@.len()
                        == s@.len() && final(self)@ == fa.state,
                    Err(e) => {
                        &&& fa.err == Some(e.kind)
                        &&& final(self)@ == fa.state
                        &&& fa.tokens.len() < s@.len()
                        &&& e.position == fa.state.position
                        &&& e.character == s@[fa.tokens.len() as int]
                        &&& e.line == spec_adjust(
                            fa.state.line,
                            fa.state.column,
                            fa.state.meet_cr,
                            e.character,
                        ).0
                        &&& e.column == spec_adjust(
                            fa.state.line,
                            fa.state.column,
                            fa.state.meet_cr,
                            e.character,
                        ).1
                    },
                }
            }),
    {
        let ghost m0 = self@;
        let cs = crate::chars::str_to_chars(s);
        let mut tokens: Vec<Token> = Vec::new();
        let mut i: usize = 0;
        while i < cs.len()
            invariant
                m0 == old(self)@,
                self.wf(),
                cs@ == s@,
                i <= cs@.len(),
                tokens@.len() == i,
                self@.option == m0.option,
                m0.position + s@.len() <= usize::MAX,
                self@.position == m0.position + i,
                spec_feed_all(m0, cs@.take(i as int)) == (FeedAll {
                    tokens: tokens@,
                    state: self@,
                    err: None::<ErrorKind>,
                }),
            decreases cs@.len() - i,
        {
            let ghost mi = self@;
            let c = cs[i];
            match self.feed_one(c) {
                Ok(t) => {
                    let ghost tks = tokens@;
                    tokens.push(t);
                    proof {
                        lemma_feed_all_concat(m0, cs@.take(i as int), seq![c]);
                        assert(cs@.take(i + 1 as int) =~= cs@.take(i as int) + seq![c]);
                        assert(seq![c].drop_first() =~= Seq::<char>::empty());
                        let m2 = spec_feed(mi, c)->Ok_0.1;
                        assert(spec_feed_all(m2, Seq::<char>::empty()) == (FeedAll {
                            tokens: Seq::<Token>::empty(),
                            state: m2,
                            err: None::<ErrorKind>,
                        }));
                        assert(seq![c][0] == c);
                        let ft = spec_feed_all(mi, seq![c]);
                        assert(ft.tokens =~= seq![t]);
                        assert(tokens@ =~= tks + seq![t]);
                        assert(spec_feed_all(m0, cs@.take(i + 1 as int)) == (FeedAll {
                            tokens: tokens@,
                            state: self@,
                            err: None::<ErrorKind>,
                        }));
                    }
                    i = i + 1;
                },
                Err(e) => {
                    proof {
                        lemma_feed_all_concat(m0, cs@.take(i as int), cs@.skip(i as int));
                        assert(cs@.take(i as int) + cs@.skip(i as int) =~= cs@);
                        assert(cs@.skip(i as int)[0] == cs@[i as int]);
                        let fa = spec_feed_all(m0, cs@);
                        assert(fa.err == Some(e.kind));
                        assert(fa.tokens =~= tokens@);
                    }
                    return Err(e);
                },
            }
        }
        proof {
            assert(cs@.take(cs@.len() as int) =~= cs@);
        }
        Ok(tokens)
    }

    /// Close the input: feed the end-of-input marker.
    pub fn end(&mut self) -> (r: Result<Token, StreamError>)
        requires
            old(self).wf(),
        ensures
            final(self).wf(),
            final(self)@.option == old(self)@.option,
            match r {
                Ok(t) => old(self)@.position < usize::MAX && spec_feed(old(self)@, '\0') == Ok::<
                    (Token, ParserModel),
                    ErrorKind,
                >((t, final(self)@)),
                Err(e) => {
                    &&& *final(self) == *old(self)
                    &&& e.character == '\0'
                    &&& e.position == old(self)@.position
                    &&& e.line == spec_adjust(
                        old(self)@.line,
                        old(self)@.column,
                        old(self)@.meet_cr,
                        '\0',
                    ).0
                    &&& e.column == spec_adjust(
                        old(self)@.line,
                        old(self)@.column,
                        old(self)@.meet_cr,
                        '\0',
                    ).1
                    &&& (spec_feed(old(self)@, '\0') == Err::<(Token, ParserModel), ErrorKind>(
                        e.kind,
                    ) || (old(self)@.position == usize::MAX && e.kind
                        == ErrorKind::PositionOverflow && spec_feed(old(self)@, '\0') is Ok))
                },
            },
    {
        self.feed_one('\0')
    }

    /// Parse a whole document: feed every character of the string and then
    /// the end-of-input marker, collecting one token for each.
    pub fn parse(option: ParserOption, s: &str) -> (r: Result<Vec<Token>, StreamError>)
        requires
            s@.len() < usize::MAX,
        ensures
            ({
                let fa = spec_feed_all(init_model(option), s@.push('\0'));
                match r {
                    Ok(tokens) => fa.err is None && tokens@ == fa.tokens,
                    Err(e) => {
                        &&& fa.err == Some(e.kind)
                        &&& e.position == fa.state.position
                        &&& e.character == s@.push('\0')[fa.tokens.len() as int]
                        &&& e.line == spec_adjust(
                            fa.state.line,
                            fa.state.column,
                            fa.state.meet_cr,
                            e.character,
                        ).0
                        &&& e.column == spec_adjust(
                            fa.state.line,
                            fa.state.column,
                            fa.state.meet_cr,
                            e.character,
                        ).1
                    },
                }
            }),
    {
        let mut parser = StreamParser::new(option);
        proof {
            lemma_feed_all_concat(init_model(option), s@, seq!['\0']);
            assert(s@ + seq!['\0'] =~= s@.push('\0'));
        }
        let mut tokens = match parser.feed(s) {
            Ok(tokens) => tokens,
            Err(e) => {
                return Err(e);
            },
        };
        match parser.end() {
            Ok(t) => {
                proof {
                    let fs = spec_feed_all(init_model(option), s@);
                    assert(seq!['\0'].drop_first() =~= Seq::<char>::empty());
                    assert(seq!['\0'][0] == '\0');
                    let m2 = spec_feed(fs.state, '\0')->Ok_0.1;
                    assert(spec_feed_all(m2, Seq::<char>::empty()) == (FeedAll {
                        tokens: Seq::<Token>::empty(),
                        state: m2,
                        err: None::<ErrorKind>,
                    }));
                    let ft = spec_feed_all(fs.state, seq!['\0']);
                    assert(ft.tokens =~= seq![t]);
                    assert(tokens@.push(t) =~= tokens@ + seq![t]);
                }
                tokens.push(t);
                Ok(tokens)
            },
            Err(e) => {
                proof {
                    let fs = spec_feed_all(init_model(option), s@);
                    assert(seq!['\0'][0] == '\0');
                }
                Err(e)
            },
        }
    }
}

} // verus!
