use efjson::errors::{ErrorKind, Stage};
use efjson::options::ParserOption;
use efjson::stream_parser::StreamParser;
use efjson::token::{Category, Location, Token, TokenInfo};

fn infos(tokens: &[Token]) -> Vec<TokenInfo> {
    tokens.iter().map(|t| t.info).collect()
}

#[test]
fn presets() {
    let strict = ParserOption::make_strict();
    assert!(!strict.single_line_comment);
    let jsonc = ParserOption::make_jsonc();
    assert!(jsonc.single_line_comment && jsonc.multi_line_comment);
    assert!(!jsonc.identifier_key);
    let json5 = ParserOption::make_json5();
    assert!(json5.identifier_key && json5.nan && json5.infinity);
    assert!(json5.allow_empty_value);
    assert!(!json5.octal_integer && !json5.binary_integer);
    assert_eq!(ParserOption::default(), strict);
}

#[test]
fn simple_document_tokens() {
    let tokens = StreamParser::parse(ParserOption::make_strict(), "{\"a\":1}").unwrap();
    let kinds = infos(&tokens);
    assert_eq!(
        kinds,
        vec![
            TokenInfo::ObjectStart,
            TokenInfo::StringStart,
            TokenInfo::StringNormal,
            TokenInfo::StringEnd,
            TokenInfo::ObjectValueStart,
            TokenInfo::NumberIntegerDigit,
            TokenInfo::ObjectEnd,
            TokenInfo::Eof,
        ]
    );
    assert_eq!(tokens[1].location, Location::Key);
    assert_eq!(tokens[5].c, '1');
}

#[test]
fn empty_input_is_eof_error_at_zero() {
    let err = StreamParser::parse(ParserOption::make_strict(), "").unwrap_err();
    assert_eq!(err.kind, ErrorKind::Eof);
    assert_eq!(err.position, 0);
}

#[test]
fn empty_input_accepted_with_option() {
    let mut option = ParserOption::make_strict();
    option.allow_empty_value = true;
    let tokens = StreamParser::parse(option, "").unwrap();
    assert_eq!(tokens.len(), 1);
    assert_eq!(tokens[0].info, TokenInfo::Eof);
}

#[test]
fn empty_input_accepted_by_json5_preset() {
    let tokens = StreamParser::parse(ParserOption::make_json5(), " ").unwrap();
    assert_eq!(tokens.len(), 2);
    assert_eq!(tokens[1].info, TokenInfo::Eof);
}

#[test]
fn number_terminated_by_eof() {
    let tokens = StreamParser::parse(ParserOption::make_strict(), "1").unwrap();
    assert_eq!(infos(&tokens), vec![TokenInfo::NumberIntegerDigit, TokenInfo::Eof]);
}

#[test]
fn leading_zero_forbidden_at_position_one() {
    let err = StreamParser::parse(ParserOption::make_strict(), "01").unwrap_err();
    assert_eq!(err.kind, ErrorKind::LeadingZeroForbidden);
    assert_eq!(err.position, 1);
}

#[test]
fn error_carries_line_and_column() {
    let err = StreamParser::parse(ParserOption::make_strict(), "[1,\n x]").unwrap_err();
    assert_eq!(err.kind, ErrorKind::Unexpected);
    assert_eq!(err.position, 5);
    assert_eq!(err.line, 1);
    assert_eq!(err.column, 1);
    assert_eq!(err.character, 'x');
}

#[test]
fn trailing_comma_strict_rejected() {
    let err = StreamParser::parse(ParserOption::make_strict(), "[1,]").unwrap_err();
    assert_eq!(err.kind, ErrorKind::TrailingCommaForbidden);
}

#[test]
fn trailing_comma_json5_accepted() {
    let tokens = StreamParser::parse(ParserOption::make_json5(), "[1,]").unwrap();
    assert_eq!(tokens[3].info, TokenInfo::ArrayEnd);
}

#[test]
fn comma_in_empty_array_always_rejected() {
    let err = StreamParser::parse(ParserOption::make_json5(), "[,]").unwrap_err();
    assert_eq!(err.kind, ErrorKind::CommaInEmptyArray);
}

#[test]
fn identifier_key_json5() {
    let tokens = StreamParser::parse(ParserOption::make_json5(), "{a:1,}").unwrap();
    assert_eq!(tokens[1].info, TokenInfo::IdentifierNormal);
    assert_eq!(tokens[1].location, Location::Key);
    assert_eq!(tokens[2].info, TokenInfo::ObjectValueStart);
}

#[test]
fn identifier_key_follows_unicode_letters() {
    // a non-ASCII letter opens a key; a punctuation scalar does not
    let tokens = StreamParser::parse(ParserOption::make_json5(), "{\u{00E9}:1}").unwrap();
    assert_eq!(tokens[1].info, TokenInfo::IdentifierNormal);
    let err = StreamParser::parse(ParserOption::make_json5(), "{\u{2022}:1}").unwrap_err();
    assert_eq!(err.kind, ErrorKind::BadPropertyNameInObject);
}

#[test]
fn identifier_key_strict_rejected() {
    let err = StreamParser::parse(ParserOption::make_strict(), "{a:1}").unwrap_err();
    assert_eq!(err.kind, ErrorKind::BadPropertyNameInObject);
}

#[test]
fn comments_jsonc() {
    let tokens = StreamParser::parse(ParserOption::make_jsonc(), "// x\n1").unwrap();
    assert_eq!(tokens[0].info, TokenInfo::CommentMayStart);
    assert_eq!(tokens[1].info, TokenInfo::CommentSingleLine);
    assert!(tokens.iter().any(|t| t.info == TokenInfo::NumberIntegerDigit));
    let err = StreamParser::parse(ParserOption::make_strict(), "// x\n1").unwrap_err();
    assert_eq!(err.kind, ErrorKind::CommentForbidden);
}

#[test]
fn multi_line_comment_not_closed() {
    let err = StreamParser::parse(ParserOption::make_jsonc(), "1 /* open").unwrap_err();
    assert_eq!(err.kind, ErrorKind::CommentNotClosed);
}

#[test]
fn crlf_counts_one_line() {
    let mut parser = StreamParser::new(ParserOption::make_strict());
    parser.feed("[1,\r\n2]").unwrap();
    assert_eq!(parser.get_line(), 1);
    assert_eq!(parser.get_column(), 2);
    let mut parser2 = StreamParser::new(ParserOption::make_strict());
    parser2.feed("[1,\r2]").unwrap();
    assert_eq!(parser2.get_line(), 1);
    let mut parser3 = StreamParser::new(ParserOption::make_strict());
    parser3.feed("[1,\n2]").unwrap();
    assert_eq!(parser3.get_line(), 1);
}

#[test]
fn position_counts_every_scalar() {
    let mut parser = StreamParser::new(ParserOption::make_strict());
    parser.feed("[1, 2]").unwrap();
    assert_eq!(parser.get_position(), 6);
    assert_eq!(parser.get_stage(), Stage::Ended);
}

#[test]
fn failure_leaves_state_unchanged() {
    let mut parser = StreamParser::new(ParserOption::make_strict());
    parser.feed("[1").unwrap();
    let before_position = parser.get_position();
    let err = parser.feed_one('x').unwrap_err();
    assert_eq!(err.kind, ErrorKind::UnexpectedInNumber);
    assert_eq!(parser.get_position(), before_position);
    // the parser goes on exactly as if the rejected scalar never arrived
    let tokens = parser.feed(",2]").unwrap();
    assert_eq!(tokens.len(), 3);
    assert_eq!(parser.end().unwrap().info, TokenInfo::Eof);
}

#[test]
fn option_monotone_same_tokens() {
    let strict = StreamParser::parse(ParserOption::make_strict(), "{\"a\":[1,true]}").unwrap();
    let json5 = StreamParser::parse(ParserOption::make_json5(), "{\"a\":[1,true]}").unwrap();
    assert_eq!(strict, json5);
}

#[test]
fn surrogate_pair_combines() {
    let tokens = StreamParser::parse(ParserOption::make_strict(), "\"a\\uD83D\\uDE00\"").unwrap();
    let produced: Vec<char> = tokens
        .iter()
        .filter_map(|t| match t.info {
            TokenInfo::StringNormal => Some(t.c),
            TokenInfo::StringEscapeUnicode(_, Some(c)) => Some(c),
            _ => None,
        })
        .collect();
    assert_eq!(produced, vec!['a', '\u{1F600}']);
}

#[test]
fn unpaired_high_surrogate_tolerated() {
    let tokens = StreamParser::parse(ParserOption::make_strict(), "\"\\uD800x\"").unwrap();
    assert!(tokens.iter().any(|t| t.info == TokenInfo::StringEscapeUnicode(3, None)));
    assert!(tokens.iter().any(|t| t.info == TokenInfo::StringNormal && t.c == 'x'));
}

#[test]
fn keyword_progress_tokens() {
    let tokens = StreamParser::parse(ParserOption::make_strict(), "null").unwrap();
    assert_eq!(
        infos(&tokens),
        vec![
            TokenInfo::Null(0, false),
            TokenInfo::Null(1, false),
            TokenInfo::Null(2, false),
            TokenInfo::Null(3, true),
            TokenInfo::Eof,
        ]
    );
    let err = StreamParser::parse(ParserOption::make_strict(), "nul").unwrap_err();
    assert_eq!(err.kind, ErrorKind::Unexpected);
}

#[test]
fn keyword_truncated_mid_atom() {
    let mut parser = StreamParser::new(ParserOption::make_strict());
    parser.feed("tr").unwrap();
    let err = parser.end().unwrap_err();
    assert_eq!(err.kind, ErrorKind::Unexpected);
}

#[test]
fn hex_oct_bin_need_their_options() {
    let mut all = ParserOption::make_json5();
    all.octal_integer = true;
    all.binary_integer = true;
    let tokens = StreamParser::parse(all, "[0x10,0o17,0b101]").unwrap();
    assert!(tokens.iter().any(|t| t.info == TokenInfo::NumberHexStart));
    assert!(tokens.iter().any(|t| t.info == TokenInfo::NumberOctStart));
    assert!(tokens.iter().any(|t| t.info == TokenInfo::NumberBinStart));
    let err = StreamParser::parse(ParserOption::make_strict(), "[0x10]").unwrap_err();
    assert_eq!(err.kind, ErrorKind::UnexpectedInNumber);
}

#[test]
fn lone_decimal_point_rejected() {
    let err = StreamParser::parse(ParserOption::make_json5(), "[.]").unwrap_err();
    assert_eq!(err.kind, ErrorKind::LoneDecimalPoint);
}

#[test]
fn empty_fraction_needs_option() {
    assert!(StreamParser::parse(ParserOption::make_json5(), "[1.,.5]").is_ok());
    let err = StreamParser::parse(ParserOption::make_strict(), "1.").unwrap_err();
    assert_eq!(err.kind, ErrorKind::EmptyFractionPart);
    let err2 = StreamParser::parse(ParserOption::make_strict(), ".5").unwrap_err();
    assert_eq!(err2.kind, ErrorKind::EmptyIntegerPart);
}

#[test]
fn positive_sign_needs_option() {
    assert!(StreamParser::parse(ParserOption::make_json5(), "+1").is_ok());
    let err = StreamParser::parse(ParserOption::make_strict(), "+1").unwrap_err();
    assert_eq!(err.kind, ErrorKind::PositiveSignForbidden);
}

#[test]
fn nonwhitespace_after_end() {
    let err = StreamParser::parse(ParserOption::make_strict(), "1 2").unwrap_err();
    assert_eq!(err.kind, ErrorKind::NonwhitespaceAfterEnd);
}

#[test]
fn deep_nesting() {
    let mut doc = String::new();
    for _ in 0..200 {
        doc.push('[');
    }
    for _ in 0..200 {
        doc.push(']');
    }
    let tokens = StreamParser::parse(ParserOption::make_strict(), &doc).unwrap();
    assert_eq!(tokens.len(), 401);
}

#[test]
fn error_reason_text() {
    let err = StreamParser::parse(ParserOption::make_strict(), "[1,]").unwrap_err();
    assert_eq!(err.get_reason(), "trailing comma not allowed");
    assert_eq!(err.kind.get_reason(), "trailing comma not allowed");
    assert_eq!(err.kind.code(), 0x83);
}

#[test]
fn category_classifies() {
    assert_eq!(TokenInfo::StringNormal.get_category(), Category::String);
    assert_eq!(TokenInfo::NumberHex.get_category(), Category::Number);
    assert_eq!(TokenInfo::ObjectNext.get_category(), Category::Object);
    assert_eq!(TokenInfo::Eof.get_category(), Category::Eof);
    let t = Token { c: ' ', info: TokenInfo::Whitespace, location: Location::Root };
    assert!(t.is_space());
}

#[test]
fn single_quote_strings() {
    assert!(StreamParser::parse(ParserOption::make_json5(), "'a'").is_ok());
    let err = StreamParser::parse(ParserOption::make_strict(), "'a'").unwrap_err();
    assert_eq!(err.kind, ErrorKind::SingleQuoteForbidden);
}

#[test]
fn multiline_string_continuation() {
    let tokens = StreamParser::parse(ParserOption::make_json5(), "\"a\\\r\nb\"").unwrap();
    let next_lines = tokens.iter().filter(|t| t.info == TokenInfo::StringNextLine).count();
    assert_eq!(next_lines, 2);
    let err = StreamParser::parse(ParserOption::make_strict(), "\"a\nb\"").unwrap_err();
    assert_eq!(err.kind, ErrorKind::ControlCharacterForbiddenInString);
}
