//! Errors reported by the stream parser.

use vstd::prelude::*;

verus! {

/// The closed enumeration of parse error codes. Codes below `0x80` report
/// infrastructure conditions; the rest report grammar violations.
#[derive(Clone, Copy, Debug, PartialEq, Eq, Structural)]
pub enum ErrorKind {
    AllocFailed,
    TooManyRecursions,
    PositionOverflow,
    InvalidInputUtf,
    InvalidEscapedUtf,
    IncompleteSurrogatePair,
    Eof,
    NonwhitespaceAfterEnd,
    ContentAfterEof,
    TrailingCommaForbidden,
    Unexpected,
    WrongBracket,
    WrongColon,
    EmptyValue,
    CommaInEmptyArray,
    BadIdentifierEscape,
    BadPropertyNameInObject,
    CommaInEmptyObject,
    EmptyValueInObject,
    ExpectedColon,
    InvalidIdentifier,
    InvalidIdentifierEscape,
    RepeatedColon,
    BadEscapeInString,
    BadHexEscapeInString,
    BadUnicodeEscapeInString,
    ControlCharacterForbiddenInString,
    SingleQuoteForbidden,
    EmptyExponentPart,
    EmptyFractionPart,
    EmptyIntegerPart,
    ExponentNotAllowed,
    FractionNotAllowed,
    LeadingZeroForbidden,
    PositiveSignForbidden,
    UnexpectedInNumber,
    LoneDecimalPoint,
    CommentForbidden,
    CommentNotClosed,
}

impl ErrorKind {
    /// The stable integer value of this code. Infrastructure codes count
    /// up from 1; grammar codes count up from 0x80.
    pub fn code(self) -> (r: u8)
        ensures
            r == self.code_spec(),
    {
        match self {
            ErrorKind::AllocFailed => 0x01,
            ErrorKind::TooManyRecursions => 0x02,
            ErrorKind::PositionOverflow => 0x03,
            ErrorKind::InvalidInputUtf => 0x04,
            ErrorKind::InvalidEscapedUtf => 0x05,
            ErrorKind::IncompleteSurrogatePair => 0x06,
            ErrorKind::Eof => 0x80,
            ErrorKind::NonwhitespaceAfterEnd => 0x81,
            ErrorKind::ContentAfterEof => 0x82,
            ErrorKind::TrailingCommaForbidden => 0x83,
            ErrorKind::Unexpected => 0x84,
            ErrorKind::WrongBracket => 0x85,
            ErrorKind::WrongColon => 0x86,
            ErrorKind::EmptyValue => 0x87,
            ErrorKind::CommaInEmptyArray => 0x88,
            ErrorKind::BadIdentifierEscape => 0x89,
            ErrorKind::BadPropertyNameInObject => 0x8A,
            ErrorKind::CommaInEmptyObject => 0x8B,
            ErrorKind::EmptyValueInObject => 0x8C,
            ErrorKind::ExpectedColon => 0x8D,
            ErrorKind::InvalidIdentifier => 0x8E,
            ErrorKind::InvalidIdentifierEscape => 0x8F,
            ErrorKind::RepeatedColon => 0x90,
            ErrorKind::BadEscapeInString => 0x91,
            ErrorKind::BadHexEscapeInString => 0x92,
            ErrorKind::BadUnicodeEscapeInString => 0x93,
            ErrorKind::ControlCharacterForbiddenInString => 0x94,
            ErrorKind::SingleQuoteForbidden => 0x95,
            ErrorKind::EmptyExponentPart => 0x96,
            ErrorKind::EmptyFractionPart => 0x97,
            ErrorKind::EmptyIntegerPart => 0x98,
            ErrorKind::ExponentNotAllowed => 0x99,
            ErrorKind::FractionNotAllowed => 0x9A,
            ErrorKind::LeadingZeroForbidden => 0x9B,
            ErrorKind::PositiveSignForbidden => 0x9C,
            ErrorKind::UnexpectedInNumber => 0x9D,
            ErrorKind::LoneDecimalPoint => 0x9E,
            ErrorKind::CommentForbidden => 0x9F,
            ErrorKind::CommentNotClosed => 0xA0,
        }
    }

    /// The stable integer value, as a specification value.
    pub open spec fn code_spec(self) -> u8 {
        match self {
            ErrorKind::AllocFailed => 0x01,
            ErrorKind::TooManyRecursions => 0x02,
            ErrorKind::PositionOverflow => 0x03,
            ErrorKind::InvalidInputUtf => 0x04,
            ErrorKind::InvalidEscapedUtf => 0x05,
            ErrorKind::IncompleteSurrogatePair => 0x06,
            ErrorKind::Eof => 0x80,
            ErrorKind::NonwhitespaceAfterEnd => 0x81,
            ErrorKind::ContentAfterEof => 0x82,
            ErrorKind::TrailingCommaForbidden => 0x83,
            ErrorKind::Unexpected => 0x84,
            ErrorKind::WrongBracket => 0x85,
            ErrorKind::WrongColon => 0x86,
            ErrorKind::EmptyValue => 0x87,
            ErrorKind::CommaInEmptyArray => 0x88,
            ErrorKind::BadIdentifierEscape => 0x89,
            ErrorKind::BadPropertyNameInObject => 0x8A,
            ErrorKind::CommaInEmptyObject => 0x8B,
            ErrorKind::EmptyValueInObject => 0x8C,
            ErrorKind::ExpectedColon => 0x8D,
            ErrorKind::InvalidIdentifier => 0x8E,
            ErrorKind::InvalidIdentifierEscape => 0x8F,
            ErrorKind::RepeatedColon => 0x90,
            ErrorKind::BadEscapeInString => 0x91,
            ErrorKind::BadHexEscapeInString => 0x92,
            ErrorKind::BadUnicodeEscapeInString => 0x93,
            ErrorKind::ControlCharacterForbiddenInString => 0x94,
            ErrorKind::SingleQuoteForbidden => 0x95,
            ErrorKind::EmptyExponentPart => 0x96,
            ErrorKind::EmptyFractionPart => 0x97,
            ErrorKind::EmptyIntegerPart => 0x98,
            ErrorKind::ExponentNotAllowed => 0x99,
            ErrorKind::FractionNotAllowed => 0x9A,
            ErrorKind::LeadingZeroForbidden => 0x9B,
            ErrorKind::PositiveSignForbidden => 0x9C,
            ErrorKind::UnexpectedInNumber => 0x9D,
            ErrorKind::LoneDecimalPoint => 0x9E,
            ErrorKind::CommentForbidden => 0x9F,
            ErrorKind::CommentNotClosed => 0xA0,
        }
    }

    /// The human-readable description, as a specification value.
    pub open spec fn reason_spec(self) -> Seq<char> {
        match self {
            ErrorKind::AllocFailed => "memory allocation failed"@,
            ErrorKind::TooManyRecursions => "too many nested containers"@,
            ErrorKind::PositionOverflow => "input position overflowed"@,
            ErrorKind::InvalidInputUtf => "invalid Unicode scalar in input"@,
            ErrorKind::InvalidEscapedUtf => "escape sequence yields an invalid Unicode scalar"@,
            ErrorKind::IncompleteSurrogatePair => "incomplete surrogate pair in string escape"@,
            ErrorKind::Eof => "structure broken because of EOF"@,
            ErrorKind::NonwhitespaceAfterEnd => "unexpected non-whitespace character after end of JSON"@,
            ErrorKind::ContentAfterEof => "unexpected content after the end of input"@,
            ErrorKind::TrailingCommaForbidden => "trailing comma not allowed"@,
            ErrorKind::Unexpected => "unexpected character"@,
            ErrorKind::WrongBracket => "wrong bracket"@,
            ErrorKind::WrongColon => "colon only allowed between property name and value"@,
            ErrorKind::EmptyValue => "unexpected empty value"@,
            ErrorKind::CommaInEmptyArray => "empty array with trailing comma not allowed"@,
            ErrorKind::BadIdentifierEscape => "the escape sequence for an identifier must start with \"\\u\""@,
            ErrorKind::BadPropertyNameInObject => "property name must be a string"@,
            ErrorKind::CommaInEmptyObject => "empty object with trailing comma not allowed"@,
            ErrorKind::EmptyValueInObject => "unexpected empty value in object"@,
            ErrorKind::ExpectedColon => "colon expected between property name and value"@,
            ErrorKind::InvalidIdentifier => "invalid identifier in JSON string"@,
            ErrorKind::InvalidIdentifierEscape => "invalid identifier escape sequence in JSON5 identifier"@,
            ErrorKind::RepeatedColon => "repeated colon not allowed"@,
            ErrorKind::BadEscapeInString => "bad escape sequence in JSON string"@,
            ErrorKind::BadHexEscapeInString => "bad hex escape sequence in JSON string"@,
            ErrorKind::BadUnicodeEscapeInString => "bad Unicode escape sequence in JSON string"@,
            ErrorKind::ControlCharacterForbiddenInString => "control character not allowed in JSON string"@,
            ErrorKind::SingleQuoteForbidden => "single quote not allowed"@,
            ErrorKind::EmptyExponentPart => "the exponent part of a number cannot be empty"@,
            ErrorKind::EmptyFractionPart => "the fraction part of a number cannot be empty"@,
            ErrorKind::EmptyIntegerPart => "the integer part of a number cannot be empty"@,
            ErrorKind::ExponentNotAllowed => "exponent part not allowed in non-decimal number"@,
            ErrorKind::FractionNotAllowed => "fraction part not allowed in non-decimal number"@,
            ErrorKind::LeadingZeroForbidden => "leading zero not allowed"@,
            ErrorKind::PositiveSignForbidden => "positive sign not allowed"@,
            ErrorKind::UnexpectedInNumber => "unexpected character in number"@,
            ErrorKind::LoneDecimalPoint => "a number cannot be a lone decimal point"@,
            ErrorKind::CommentForbidden => "comment not allowed"@,
            ErrorKind::CommentNotClosed => "multi-line comment not closed"@,
        }
    }

    /// A human-readable description of this code.
    pub fn get_reason(&self) -> (r: &'static str)
        ensures
            r@ == self.reason_spec(),
    {
        match self {
            ErrorKind::AllocFailed => "memory allocation failed",
            ErrorKind::TooManyRecursions => "too many nested containers",
            ErrorKind::PositionOverflow => "input position overflowed",
            ErrorKind::InvalidInputUtf => "invalid Unicode scalar in input",
            ErrorKind::InvalidEscapedUtf => "escape sequence yields an invalid Unicode scalar",
            ErrorKind::IncompleteSurrogatePair => "incomplete surrogate pair in string escape",
            ErrorKind::Eof => "structure broken because of EOF",
            ErrorKind::NonwhitespaceAfterEnd => "unexpected non-whitespace character after end of JSON",
            ErrorKind::ContentAfterEof => "unexpected content after the end of input",
            ErrorKind::TrailingCommaForbidden => "trailing comma not allowed",
            ErrorKind::Unexpected => "unexpected character",
            ErrorKind::WrongBracket => "wrong bracket",
            ErrorKind::WrongColon => "colon only allowed between property name and value",
            ErrorKind::EmptyValue => "unexpected empty value",
            ErrorKind::CommaInEmptyArray => "empty array with trailing comma not allowed",
            ErrorKind::BadIdentifierEscape => "the escape sequence for an identifier must start with \"\\u\"",
            ErrorKind::BadPropertyNameInObject => "property name must be a string",
            ErrorKind::CommaInEmptyObject => "empty object with trailing comma not allowed",
            ErrorKind::EmptyValueInObject => "unexpected empty value in object",
            ErrorKind::ExpectedColon => "colon expected between property name and value",
            ErrorKind::InvalidIdentifier => "invalid identifier in JSON string",
            ErrorKind::InvalidIdentifierEscape => "invalid identifier escape sequence in JSON5 identifier",
            ErrorKind::RepeatedColon => "repeated colon not allowed",
            ErrorKind::BadEscapeInString => "bad escape sequence in JSON string",
            ErrorKind::BadHexEscapeInString => "bad hex escape sequence in JSON string",
            ErrorKind::BadUnicodeEscapeInString => "bad Unicode escape sequence in JSON string",
            ErrorKind::ControlCharacterForbiddenInString => "control character not allowed in JSON string",
            ErrorKind::SingleQuoteForbidden => "single quote not allowed",
            ErrorKind::EmptyExponentPart => "the exponent part of a number cannot be empty",
            ErrorKind::EmptyFractionPart => "the fraction part of a number cannot be empty",
            ErrorKind::EmptyIntegerPart => "the integer part of a number cannot be empty",
            ErrorKind::ExponentNotAllowed => "exponent part not allowed in non-decimal number",
            ErrorKind::FractionNotAllowed => "fraction part not allowed in non-decimal number",
            ErrorKind::LeadingZeroForbidden => "leading zero not allowed",
            ErrorKind::PositiveSignForbidden => "positive sign not allowed",
            ErrorKind::UnexpectedInNumber => "unexpected character in number",
            ErrorKind::LoneDecimalPoint => "a number cannot be a lone decimal point",
            ErrorKind::CommentForbidden => "comment not allowed",
            ErrorKind::CommentNotClosed => "multi-line comment not closed",
        }
    }
}

/// A parse error: the offending scalar, where it stood, and why it was
/// rejected.
#[derive(Clone, Copy, Debug, PartialEq, Eq, Structural)]
pub struct StreamError {
    /// count of scalars accepted before the offending one
    pub position: usize,
    /// 0-based line of the offending scalar
    pub line: usize,
    /// 0-based column of the offending scalar
    pub column: usize,
    /// the offending scalar
    pub character: char,
    /// why it was rejected
    pub kind: ErrorKind,
}

impl StreamError {
    /// A human-readable description of the error code.
    pub fn get_reason(&self) -> (r: &'static str)
        ensures
            r@ == self.kind.reason_spec(),
    {
        self.kind.get_reason()
    }
}

/// How far a parse has progressed: not yet fed a significant character,
/// inside the document, or past the end of the outermost value.
#[derive(Clone, Copy, Debug, PartialEq, Eq, Structural)]
pub enum Stage {
    NotStarted,
    Parsing,
    Ended,
}

} // verus!
