use efjson::deserialize::{
    create_default_deserializer, create_struct_helper_deserializer, deserialize,
    deserialize_tokens, feed_tokens_to, token_is_space, unwrap_deser_result, DeserError,
    DeserResult, Deserializer, FloatDeserializer, JsonRawString, JsonRawToken, RawFieldsReceiver,
};
use efjson::options::ParserOption;
use efjson::stream_parser::StreamParser;
use efjson::token::{Location, Token, TokenInfo};

fn tokens_of(option: ParserOption, s: &str) -> Vec<Token> {
    StreamParser::parse(option, s).unwrap()
}

#[test]
fn deserialize_bool() {
    assert_eq!(deserialize::<bool>(ParserOption::make_strict(), "true").unwrap(), true);
    assert_eq!(deserialize::<bool>(ParserOption::make_strict(), " false ").unwrap(), false);
    assert!(deserialize::<bool>(ParserOption::make_strict(), "1").is_err());
}

#[test]
fn deserialize_unit() {
    assert_eq!(deserialize::<()>(ParserOption::make_strict(), "null").unwrap(), ());
    assert!(matches!(
        deserialize::<()>(ParserOption::make_strict(), "true"),
        Err(DeserError::ExpectNull)
    ));
}

#[test]
fn deserialize_strings_with_escapes() {
    let v = deserialize::<String>(ParserOption::make_strict(), "\"a\\n\\u0041\"").unwrap();
    assert_eq!(v, "a\nA");
    let pair = deserialize::<String>(ParserOption::make_strict(), "\"a\\uD83D\\uDE00\"").unwrap();
    assert_eq!(pair, "a\u{1F600}");
}

#[test]
fn deserialize_integers() {
    assert_eq!(deserialize::<i64>(ParserOption::make_strict(), "42").unwrap(), 42);
    assert_eq!(deserialize::<i64>(ParserOption::make_strict(), "-7").unwrap(), -7);
    assert_eq!(deserialize::<i8>(ParserOption::make_strict(), "-128").unwrap(), -128);
    assert_eq!(deserialize::<i8>(ParserOption::make_strict(), "127").unwrap(), 127);
    assert!(matches!(
        deserialize::<i8>(ParserOption::make_strict(), "128"),
        Err(DeserError::IntegerOverflow)
    ));
    assert_eq!(deserialize::<u8>(ParserOption::make_strict(), "255").unwrap(), 255);
    assert!(matches!(
        deserialize::<u8>(ParserOption::make_strict(), "256"),
        Err(DeserError::IntegerOverflow)
    ));
    assert!(matches!(
        deserialize::<u32>(ParserOption::make_strict(), "-1"),
        Err(DeserError::NegativeUnsigned)
    ));
    // a negative zero is zero
    assert_eq!(deserialize::<i32>(ParserOption::make_strict(), "-0").unwrap(), 0);
    assert!(matches!(
        deserialize::<i32>(ParserOption::make_strict(), "1.5"),
        Err(DeserError::NotAnInteger)
    ));
    assert!(matches!(
        deserialize::<i32>(ParserOption::make_json5(), "NaN"),
        Err(DeserError::NotAnInteger)
    ));
}

#[test]
fn deserialize_integer_bases() {
    let mut all = ParserOption::make_json5();
    all.octal_integer = true;
    all.binary_integer = true;
    let v = deserialize::<Vec<i64>>(all, "[0x10,0o17,0b101]").unwrap();
    assert_eq!(v, vec![16, 15, 5]);
}

#[test]
fn deserialize_vectors() {
    let v = deserialize::<Vec<i64>>(ParserOption::make_strict(), "[1, 2, 3]").unwrap();
    assert_eq!(v, vec![1, 2, 3]);
    let nested = deserialize::<Vec<Vec<bool>>>(ParserOption::make_strict(), "[[true],[false]]")
        .unwrap();
    assert_eq!(nested, vec![vec![true], vec![false]]);
    let empty = deserialize::<Vec<i64>>(ParserOption::make_strict(), "[]").unwrap();
    assert_eq!(empty, Vec::<i64>::new());
}

#[test]
fn deserialize_options() {
    assert_eq!(deserialize::<Option<i64>>(ParserOption::make_strict(), "null").unwrap(), None);
    assert_eq!(deserialize::<Option<i64>>(ParserOption::make_strict(), "5").unwrap(), Some(5));
    let v = deserialize::<Vec<Option<bool>>>(ParserOption::make_strict(), "[true,null]").unwrap();
    assert_eq!(v, vec![Some(true), None]);
}

#[test]
fn deserialize_maps() {
    let v = deserialize::<std::collections::HashMap<String, i64>>(
        ParserOption::make_strict(),
        "{\"a\":1,\"b\":2}",
    )
    .unwrap();
    assert_eq!(v.len(), 2);
    assert_eq!(v["a"], 1);
    assert_eq!(v["b"], 2);
    let b = deserialize::<std::collections::BTreeMap<String, bool>>(
        ParserOption::make_strict(),
        "{\"x\":true}",
    )
    .unwrap();
    assert_eq!(b["x"], true);
    // duplicate keys overwrite: the last value wins
    let dup = deserialize::<std::collections::HashMap<String, i64>>(
        ParserOption::make_strict(),
        "{\"a\":1,\"a\":2}",
    )
    .unwrap();
    assert_eq!(dup["a"], 2);
    assert_eq!(dup.len(), 1);
}

#[test]
fn raw_string_keeps_value_verbatim() {
    let raw = deserialize::<JsonRawString>(
        ParserOption::make_strict(),
        "  {\"a\": [1, true], \"b\": \"x\"}  ",
    )
    .unwrap();
    // leading and trailing trivia are excluded; everything in between is kept
    assert_eq!(raw.json, "{\"a\": [1, true], \"b\": \"x\"}");
    let num = deserialize::<JsonRawString>(ParserOption::make_strict(), " 12.5e3 ").unwrap();
    assert_eq!(num.json, "12.5e3");
    let word = deserialize::<JsonRawString>(ParserOption::make_strict(), "true").unwrap();
    assert_eq!(word.json, "true");
}

#[test]
fn raw_tokens_keep_classification() {
    let raw = deserialize::<JsonRawToken>(ParserOption::make_strict(), "[1]").unwrap();
    assert_eq!(raw.tokens.len(), 3);
    assert_eq!(raw.tokens[0].info, TokenInfo::ArrayStart);
    assert_eq!(raw.tokens[1].info, TokenInfo::NumberIntegerDigit);
    assert_eq!(raw.tokens[2].info, TokenInfo::ArrayEnd);
}

#[test]
fn float_lexeme_collected() {
    let tokens = tokens_of(ParserOption::make_json5(), "[1,.1,1.,1.234e3]");
    let mut deser = FloatDeserializer::new();
    let mut lexemes: Vec<String> = Vec::new();
    for t in tokens {
        match deser.feed_token(t) {
            Ok(DeserResult::CompleteWithRollback(s)) => {
                lexemes.push(s);
                deser = FloatDeserializer::new();
            }
            Ok(_) => {}
            Err(_) => {}
        }
    }
    assert_eq!(lexemes, vec!["1", ".1", "1.", "1.234e3"]);
}

#[test]
fn float_lexeme_signed_specials() {
    let tokens = tokens_of(ParserOption::make_json5(), "[Infinity,-Infinity,NaN]");
    let mut deser = FloatDeserializer::new();
    let mut lexemes: Vec<String> = Vec::new();
    for t in tokens {
        match deser.feed_token(t) {
            Ok(DeserResult::CompleteWithRollback(s)) => {
                lexemes.push(s);
                deser = FloatDeserializer::new();
            }
            _ => {}
        }
    }
    assert_eq!(lexemes, vec!["Infinity", "-Infinity", "NaN"]);
}

#[test]
fn rollback_number_then_bracket() {
    // the integer completes only at the `]`, which rolls back to the array
    let v = deserialize::<Vec<i64>>(ParserOption::make_strict(), "[7]").unwrap();
    assert_eq!(v, vec![7]);
}

#[test]
fn rollback_equals_complete_then_replay() {
    // with "[7]" the element finishes by rolling the `]` back; with
    // "[7 ]" it finishes on the whitespace and the `]` arrives separately:
    // the array behaves the same either way
    let rolled = deserialize::<Vec<i64>>(ParserOption::make_strict(), "[7]").unwrap();
    let replayed = deserialize::<Vec<i64>>(ParserOption::make_strict(), "[7 ]").unwrap();
    assert_eq!(rolled, replayed);
    let rolled2 = deserialize::<Vec<i64>>(ParserOption::make_strict(), "[7,8]").unwrap();
    let replayed2 = deserialize::<Vec<i64>>(ParserOption::make_strict(), "[7 ,8 ]").unwrap();
    assert_eq!(rolled2, replayed2);
}

#[test]
fn struct_fields_complete() {
    let tokens = tokens_of(ParserOption::make_strict(), "{\"a\":1,\"b\":[true,null]}");
    let receiver = RawFieldsReceiver::new(vec!["a".to_string(), "b".to_string()]);
    let mut deser = create_struct_helper_deserializer(receiver);
    let r = feed_tokens_to(&mut deser, &tokens);
    let values = unwrap_deser_result(r).unwrap();
    assert_eq!(values, vec!["1".to_string(), "[true,null]".to_string()]);
}

#[test]
fn struct_repeated_key_rejected() {
    let tokens = tokens_of(ParserOption::make_strict(), "{\"a\":1,\"a\":2}");
    let receiver = RawFieldsReceiver::new(vec!["a".to_string()]);
    let mut deser = create_struct_helper_deserializer(receiver);
    let r = feed_tokens_to(&mut deser, &tokens);
    match r {
        Err(DeserError::RepeatedKey(k)) => assert_eq!(k, "a"),
        other => panic!("expected a repeated-key error, got {:?}", other.is_ok()),
    }
}

#[test]
fn struct_missing_field_named() {
    let tokens = tokens_of(ParserOption::make_strict(), "{\"a\":1}");
    let receiver = RawFieldsReceiver::new(vec!["a".to_string(), "b".to_string()]);
    let mut deser = create_struct_helper_deserializer(receiver);
    let r = feed_tokens_to(&mut deser, &tokens);
    match r {
        Err(DeserError::MissingFields(names)) => assert_eq!(names, vec!["b".to_string()]),
        other => panic!("expected a missing-field error, got {:?}", other.is_ok()),
    }
}

#[test]
fn struct_unknown_key_rejected() {
    let tokens = tokens_of(ParserOption::make_strict(), "{\"c\":1}");
    let receiver = RawFieldsReceiver::new(vec!["a".to_string()]);
    let mut deser = create_struct_helper_deserializer(receiver);
    let r = feed_tokens_to(&mut deser, &tokens);
    match r {
        Err(DeserError::UnknownKey(k)) => assert_eq!(k, "c"),
        other => panic!("expected an unknown-key error, got {:?}", other.is_ok()),
    }
}

#[test]
fn deserialize_tokens_entry() {
    let tokens = tokens_of(ParserOption::make_strict(), "[1,2]");
    let v: Vec<i64> = deserialize_tokens(&tokens).unwrap();
    assert_eq!(v, vec![1, 2]);
    let empty: Result<i64, DeserError> = deserialize_tokens(&Vec::new());
    assert!(matches!(empty, Err(DeserError::Incomplete)));
}

#[test]
fn map_keeps_signal() {
    let doubled = DeserResult::Complete(4i64).map(|v| v * 2);
    assert_eq!(doubled, DeserResult::Complete(8i64));
    let rolled = DeserResult::CompleteWithRollback(3i64).map(|v| v + 1);
    assert_eq!(rolled, DeserResult::CompleteWithRollback(4i64));
    let still: DeserResult<i64> = DeserResult::<i64>::Continue.map(|v| v);
    assert_eq!(still, DeserResult::Continue);
}

#[test]
fn space_tokens_are_space() {
    let t = Token { c: ' ', info: TokenInfo::Whitespace, location: Location::Root };
    assert!(token_is_space(&t));
    let t2 = Token { c: '1', info: TokenInfo::NumberIntegerDigit, location: Location::Root };
    assert!(!token_is_space(&t2));
}

#[test]
fn stream_error_wrapped() {
    let r = deserialize::<bool>(ParserOption::make_strict(), "tru!");
    match r {
        Err(DeserError::Stream(e)) => assert_eq!(e.position, 3),
        other => panic!("expected a stream error, got {:?}", other.is_ok()),
    }
}

#[test]
fn incomplete_document() {
    let mut deser = create_default_deserializer::<bool>();
    let tokens = tokens_of(ParserOption::make_strict(), "true");
    // feed only the first two scalars of the keyword
    let mut partial = Vec::new();
    partial.push(tokens[0]);
    partial.push(tokens[1]);
    let r = feed_tokens_to(&mut deser, &partial);
    assert!(matches!(r, Ok(DeserResult::Continue)));
    assert!(matches!(unwrap_deser_result(r), Err(DeserError::Incomplete)));
}

#[test]
fn deserialize_pointers() {
    let b = deserialize::<Box<i64>>(ParserOption::make_strict(), "9").unwrap();
    assert_eq!(*b, 9);
    let rc = deserialize::<std::rc::Rc<bool>>(ParserOption::make_strict(), "true").unwrap();
    assert_eq!(*rc, true);
    let arc = deserialize::<std::sync::Arc<String>>(ParserOption::make_strict(), "\"x\"")
        .unwrap();
    assert_eq!(arc.as_str(), "x");
}

#[test]
fn error_reasons() {
    assert_eq!(DeserError::ExpectBoolean.get_reason(), "expect boolean");
    assert_eq!(DeserError::Incomplete.get_reason(), "incomplete deserialization");
}
