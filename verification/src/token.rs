//! Tokens: the per-character output of the stream parser.

use vstd::prelude::*;

verus! {

/// The syntactic slot a character occupies in the document structure.
#[derive(Clone, Copy, Debug, PartialEq, Eq, Structural)]
pub enum Location {
    Root,
    Key,
    Value,
    Element,
    Array,
    Object,
}

/// The coarse classification of a token.
#[derive(Clone, Copy, Debug, PartialEq, Eq, Structural)]
pub enum Category {
    Whitespace,
    Eof,
    Null,
    Boolean,
    String,
    Number,
    Object,
    Array,
    Identifier,
    Comment,
}

/// The fine classification of a token. Multi-character atoms carry their
/// progress as `(index, done)`; escape sequences carry the character they
/// produce once it is known.
#[derive(Clone, Copy, Debug, PartialEq, Eq, Structural)]
pub enum TokenInfo {
    Whitespace,
    Eof,
    Null(u8, bool),
    False(u8, bool),
    True(u8, bool),
    StringStart,
    StringEnd,
    StringNormal,
    StringEscapeStart,
    StringEscape(char),
    StringEscapeUnicodeStart,
    StringEscapeUnicode(u8, Option<char>),
    StringNextLine,
    StringEscapeHexStart,
    StringEscapeHex(u8, Option<char>),
    NumberIntegerDigit,
    NumberFractionDigit,
    NumberExponentDigit,
    NumberIntegerSign,
    NumberExponentSign,
    NumberFractionStart,
    NumberExponentStart,
    NumberNan(u8, bool),
    NumberInfinity(u8, bool),
    NumberHexStart,
    NumberHex,
    NumberOctStart,
    NumberOct,
    NumberBinStart,
    NumberBin,
    ObjectStart,
    ObjectNext,
    ObjectValueStart,
    ObjectEnd,
    ArrayStart,
    ArrayNext,
    ArrayEnd,
    IdentifierNormal,
    IdentifierEscapeStart(u8, bool),
    IdentifierEscape(u8, Option<char>),
    CommentMayStart,
    CommentSingleLine,
    CommentMultiLine,
    CommentMultiLineEnd,
}

impl TokenInfo {
    /// The category a token info belongs to, as a specification value.
    pub open spec fn category_spec(self) -> Category {
        match self {
            TokenInfo::Whitespace => Category::Whitespace,
            TokenInfo::Eof => Category::Eof,
            TokenInfo::Null(_, _) => Category::Null,
            TokenInfo::False(_, _) => Category::Boolean,
            TokenInfo::True(_, _) => Category::Boolean,
            TokenInfo::StringStart => Category::String,
            TokenInfo::StringEnd => Category::String,
            TokenInfo::StringNormal => Category::String,
            TokenInfo::StringEscapeStart => Category::String,
            TokenInfo::StringEscape(_) => Category::String,
            TokenInfo::StringEscapeUnicodeStart => Category::String,
            TokenInfo::StringEscapeUnicode(_, _) => Category::String,
            TokenInfo::StringNextLine => Category::String,
            TokenInfo::StringEscapeHexStart => Category::String,
            TokenInfo::StringEscapeHex(_, _) => Category::String,
            TokenInfo::NumberIntegerDigit => Category::Number,
            TokenInfo::NumberFractionDigit => Category::Number,
            TokenInfo::NumberExponentDigit => Category::Number,
            TokenInfo::NumberIntegerSign => Category::Number,
            TokenInfo::NumberExponentSign => Category::Number,
            TokenInfo::NumberFractionStart => Category::Number,
            TokenInfo::NumberExponentStart => Category::Number,
            TokenInfo::NumberNan(_, _) => Category::Number,
            TokenInfo::NumberInfinity(_, _) => Category::Number,
            TokenInfo::NumberHexStart => Category::Number,
            TokenInfo::NumberHex => Category::Number,
            TokenInfo::NumberOctStart => Category::Number,
            TokenInfo::NumberOct => Category::Number,
            TokenInfo::NumberBinStart => Category::Number,
            TokenInfo::NumberBin => Category::Number,
            TokenInfo::ObjectStart => Category::Object,
            TokenInfo::ObjectNext => Category::Object,
            TokenInfo::ObjectValueStart => Category::Object,
            TokenInfo::ObjectEnd => Category::Object,
            TokenInfo::ArrayStart => Category::Array,
            TokenInfo::ArrayNext => Category::Array,
            TokenInfo::ArrayEnd => Category::Array,
            TokenInfo::IdentifierNormal => Category::Identifier,
            TokenInfo::IdentifierEscapeStart(_, _) => Category::Identifier,
            TokenInfo::IdentifierEscape(_, _) => Category::Identifier,
            TokenInfo::CommentMayStart => Category::Comment,
            TokenInfo::CommentSingleLine => Category::Comment,
            TokenInfo::CommentMultiLine => Category::Comment,
            TokenInfo::CommentMultiLineEnd => Category::Comment,
        }
    }

    /// The category a token info belongs to.
    pub fn get_category(&self) -> (r: Category)
        ensures
            r == self.category_spec(),
    {
        match self {
            TokenInfo::Whitespace => Category::Whitespace,
            TokenInfo::Eof => Category::Eof,
            TokenInfo::Null(_, _) => Category::Null,
            TokenInfo::False(_, _) | TokenInfo::True(_, _) => Category::Boolean,
            TokenInfo::StringStart
            | TokenInfo::StringEnd
            | TokenInfo::StringNormal
            | TokenInfo::StringEscapeStart
            | TokenInfo::StringEscape(_)
            | TokenInfo::StringEscapeUnicodeStart
            | TokenInfo::StringEscapeUnicode(_, _)
            | TokenInfo::StringNextLine
            | TokenInfo::StringEscapeHexStart
            | TokenInfo::StringEscapeHex(_, _) => Category::String,
            TokenInfo::NumberIntegerDigit
            | TokenInfo::NumberFractionDigit
            | TokenInfo::NumberExponentDigit
            | TokenInfo::NumberIntegerSign
            | TokenInfo::NumberExponentSign
            | TokenInfo::NumberFractionStart
            | TokenInfo::NumberExponentStart
            | TokenInfo::NumberNan(_, _)
            | TokenInfo::NumberInfinity(_, _)
            | TokenInfo::NumberHexStart
            | TokenInfo::NumberHex
            | TokenInfo::NumberOctStart
            | TokenInfo::NumberOct
            | TokenInfo::NumberBinStart
            | TokenInfo::NumberBin => Category::Number,
            TokenInfo::ObjectStart
            | TokenInfo::ObjectNext
            | TokenInfo::ObjectValueStart
            | TokenInfo::ObjectEnd => Category::Object,
            TokenInfo::ArrayStart | TokenInfo::ArrayNext | TokenInfo::ArrayEnd => Category::Array,
            TokenInfo::IdentifierNormal
            | TokenInfo::IdentifierEscapeStart(_, _)
            | TokenInfo::IdentifierEscape(_, _) => Category::Identifier,
            TokenInfo::CommentMayStart
            | TokenInfo::CommentSingleLine
            | TokenInfo::CommentMultiLine
            | TokenInfo::CommentMultiLineEnd => Category::Comment,
        }
    }
}

/// One classified input character.
#[derive(Clone, Copy, Debug, PartialEq, Eq, Structural)]
pub struct Token {
    /// the input scalar itself
    pub c: char,
    /// its fine classification
    pub info: TokenInfo,
    /// the syntactic slot it occupies
    pub location: Location,
}

/// Whether a token info is insignificant to a value: whitespace, any part
/// of a comment, or the end-of-input marker.
pub open spec fn is_space_info(info: TokenInfo) -> bool {
    match info {
        TokenInfo::Whitespace => true,
        TokenInfo::CommentMayStart => true,
        TokenInfo::CommentSingleLine => true,
        TokenInfo::CommentMultiLine => true,
        TokenInfo::CommentMultiLineEnd => true,
        TokenInfo::Eof => true,
        _ => false,
    }
}

impl Token {
    /// Whether this token is insignificant to a value.
    pub fn is_space(&self) -> (r: bool)
        ensures
            r == is_space_info(self.info),
    {
        match self.info {
            TokenInfo::Whitespace
            | TokenInfo::CommentMayStart
            | TokenInfo::CommentSingleLine
            | TokenInfo::CommentMultiLine
            | TokenInfo::CommentMultiLineEnd
            | TokenInfo::Eof => true,
            _ => false,
        }
    }
}

/// The characters the tokens of a sequence carry, in order.
pub open spec fn chars_of(ts: Seq<Token>) -> Seq<char>
    decreases ts.len(),
{
    if ts.len() == 0 {
        Seq::empty()
    } else {
        seq![ts[0].c] + chars_of(ts.drop_first())
    }
}

/// `chars_of` keeps the length and takes each token's character.
pub proof fn lemma_chars_of_index(ts: Seq<Token>)
    ensures
        chars_of(ts).len() == ts.len(),
        forall|i: int| 0 <= i < ts.len() ==> chars_of(ts)[i] == #[trigger] ts[i].c,
    decreases ts.len(),
{
    if ts.len() > 0 {
        lemma_chars_of_index(ts.drop_first());
        assert forall|i: int| 0 <= i < ts.len() implies chars_of(ts)[i] == #[trigger] ts[i].c by {
            if i > 0 {
                assert(ts.drop_first()[i - 1] == ts[i]);
                assert(chars_of(ts)[i] == chars_of(ts.drop_first())[i - 1]);
            }
        }
    }
}

} // verus!
