//! Raw deserializers: they accumulate one JSON value verbatim, as the
//! characters or the tokens that formed it, without interpreting it.

use vstd::prelude::*;

use crate::deserialize::strings::push_char;
use crate::deserialize::{DefaultDeserializable, DeserError, DeserResult, Deserializer};
use crate::token::{chars_of, is_space_info, Category, Token, TokenInfo};

verus! {

/// What kind of value a raw deserializer is inside.
#[derive(Debug, Clone, Copy, PartialEq, Eq, Structural)]
pub enum RawStage {
    /// nothing significant seen yet
    NotStarted,
    /// inside a keyword atom
    Stateless,
    /// inside a number
    Number,
    /// inside a string
    Text,
    /// inside an array or object; the depth is tracked
    Structure,
}

/// One JSON value, verbatim, as the characters that formed it.
#[derive(Debug, Clone, PartialEq, Eq)]
pub struct JsonRawString {
    /// the value's characters, from its first significant one
    pub json: String,
}

/// A deserializer that accumulates one value's characters verbatim.
/// Leading whitespace and comments are excluded; everything from the
/// first significant character through the value's last character is
/// kept.
#[derive(Debug)]
pub struct JsonRawStringDeserializer {
    /// what kind of value it is inside
    pub stage: RawStage,
    /// the bracket depth inside an array or object
    pub depth: usize,
    /// the characters accumulated so far
    pub json: String,
}

/// The decision a raw deserializer takes on one token: what stage and
/// depth come next, whether the character is kept, and the outcome. The
/// accumulated text is handled by the caller; `done` means the value is
/// finished with this token kept, `rollback` that it finished without it.
pub open spec fn raw_route(
    stage: RawStage,
    depth: usize,
    token: Token,
) -> Result<(RawStage, usize, bool, bool, bool), DeserError> {
    match stage {
        RawStage::NotStarted => if is_space_info(token.info) {
            Ok((RawStage::NotStarted, depth, false, false, false))
        } else {
            match token.info.category_spec() {
                Category::String => Ok((RawStage::Text, depth, true, false, false)),
                Category::Array => Ok((RawStage::Structure, 1, true, false, false)),
                Category::Object => Ok((RawStage::Structure, 1, true, false, false)),
                Category::Null => Ok((RawStage::Stateless, depth, true, raw_keyword_done(token.info), false)),
                Category::Boolean => Ok((RawStage::Stateless, depth, true, raw_keyword_done(token.info), false)),
                Category::Number => Ok((RawStage::Number, depth, true, false, false)),
                _ => Err(DeserError::ExpectValue),
            }
        },
        RawStage::Stateless => match token.info {
            TokenInfo::Null(_, done) => Ok((stage, depth, true, done, false)),
            TokenInfo::True(_, done) => Ok((stage, depth, true, done, false)),
            TokenInfo::False(_, done) => Ok((stage, depth, true, done, false)),
            _ => Err(DeserError::ExpectValue),
        },
        RawStage::Number => if token.info.category_spec() == Category::Number {
            Ok((stage, depth, true, false, false))
        } else {
            Ok((stage, depth, false, false, true))
        },
        RawStage::Text => match token.info {
            TokenInfo::StringEnd => Ok((stage, depth, true, true, false)),
            _ => Ok((stage, depth, true, false, false)),
        },
        RawStage::Structure => match token.info {
            TokenInfo::ArrayStart | TokenInfo::ObjectStart => if depth == usize::MAX {
                Err(DeserError::TooDeep)
            } else {
                Ok((stage, (depth + 1) as usize, true, false, false))
            },
            TokenInfo::ArrayEnd | TokenInfo::ObjectEnd => if depth <= 1 {
                Ok((stage, 0, true, true, false))
            } else {
                Ok((stage, (depth - 1) as usize, true, false, false))
            },
            _ => Ok((stage, depth, true, false, false)),
        },
    }
}

/// Whether a keyword token closes its atom.
pub open spec fn raw_keyword_done(info: TokenInfo) -> bool {
    match info {
        TokenInfo::Null(_, done) => done,
        TokenInfo::True(_, done) => done,
        TokenInfo::False(_, done) => done,
        _ => false,
    }
}

impl Deserializer<JsonRawString> for JsonRawStringDeserializer {
    open spec fn inv(&self) -> bool {
        true
    }

    open spec fn feed_spec(
        &self,
        post: Self,
        token: Token,
        r: Result<DeserResult<JsonRawString>, DeserError>,
    ) -> bool {
        match raw_route(self.stage, self.depth, token) {
            Err(e) => post.stage == self.stage && post.depth == self.depth && post.json@
                == self.json@ && r == Err::<DeserResult<JsonRawString>, DeserError>(e),
            Ok((stage2, depth2, keep, done, rollback)) => {
                let text = if keep {
                    self.json@.push(token.c)
                } else {
                    self.json@
                };
                if done {
                    &&& post.stage == RawStage::NotStarted
                    &&& post.depth == 0
                    &&& post.json@ == Seq::<char>::empty()
                    &&& (r matches Ok(rr) && rr matches DeserResult::Complete(v) && v.json@
                        == text)
                } else if rollback {
                    &&& post.stage == RawStage::NotStarted
                    &&& post.depth == 0
                    &&& post.json@ == Seq::<char>::empty()
                    &&& (r matches Ok(rr) && rr matches DeserResult::CompleteWithRollback(v)
                        && v.json@ == text)
                } else {
                    &&& post.stage == stage2
                    &&& post.depth == depth2
                    &&& post.json@ == text
                    &&& r == Ok::<DeserResult<JsonRawString>, DeserError>(DeserResult::Continue)
                }
            },
        }
    }

    fn feed_token(&mut self, token: Token) -> (r: Result<DeserResult<JsonRawString>, DeserError>) {
        let route = raw_route_exec(self.stage, self.depth, token);
        match route {
            Err(e) => Err(e),
            Ok((stage2, depth2, keep, done, rollback)) => {
                if keep {
                    push_char(&mut self.json, token.c);
                }
                if done || rollback {
                    let out = self.json.clone();
                    self.json = String::new();
                    self.stage = RawStage::NotStarted;
                    self.depth = 0;
                    if done {
                        Ok(DeserResult::Complete(JsonRawString { json: out }))
                    } else {
                        Ok(DeserResult::CompleteWithRollback(JsonRawString { json: out }))
                    }
                } else {
                    self.stage = stage2;
                    self.depth = depth2;
                    Ok(DeserResult::Continue)
                }
            },
        }
    }
}

/// The routing decision, executably.
fn raw_route_exec(stage: RawStage, depth: usize, token: Token) -> (r: Result<
    (RawStage, usize, bool, bool, bool),
    DeserError,
>)
    ensures
        r == raw_route(stage, depth, token),
{
    match stage {
        RawStage::NotStarted => if token.is_space() {
            Ok((RawStage::NotStarted, depth, false, false, false))
        } else {
            match token.info.get_category() {
                Category::String => Ok((RawStage::Text, depth, true, false, false)),
                Category::Array => Ok((RawStage::Structure, 1, true, false, false)),
                Category::Object => Ok((RawStage::Structure, 1, true, false, false)),
                Category::Null | Category::Boolean => {
                    let done = match token.info {
                        TokenInfo::Null(_, d) => d,
                        TokenInfo::True(_, d) => d,
                        TokenInfo::False(_, d) => d,
                        _ => false,
                    };
                    Ok((RawStage::Stateless, depth, true, done, false))
                },
                Category::Number => Ok((RawStage::Number, depth, true, false, false)),
                _ => Err(DeserError::ExpectValue),
            }
        },
        RawStage::Stateless => match token.info {
            TokenInfo::Null(_, done) | TokenInfo::True(_, done) | TokenInfo::False(_, done) => Ok(
                (stage, depth, true, done, false),
            ),
            _ => Err(DeserError::ExpectValue),
        },
        RawStage::Number => if token.info.get_category() == Category::Number {
            Ok((stage, depth, true, false, false))
        } else {
            Ok((stage, depth, false, false, true))
        },
        RawStage::Text => match token.info {
            TokenInfo::StringEnd => Ok((stage, depth, true, true, false)),
            _ => Ok((stage, depth, true, false, false)),
        },
        RawStage::Structure => match token.info {
            TokenInfo::ArrayStart | TokenInfo::ObjectStart => if depth == usize::MAX {
                Err(DeserError::TooDeep)
            } else {
                Ok((stage, depth + 1, true, false, false))
            },
            TokenInfo::ArrayEnd | TokenInfo::ObjectEnd => if depth <= 1 {
                Ok((stage, 0, true, true, false))
            } else {
                Ok((stage, depth - 1, true, false, false))
            },
            _ => Ok((stage, depth, true, false, false)),
        },
    }
}

impl DefaultDeserializable<JsonRawString> for JsonRawString {
    type DefaultDeserializer = JsonRawStringDeserializer;

    open spec fn is_default(d: &JsonRawStringDeserializer) -> bool {
        d.stage == RawStage::NotStarted && d.json@ == Seq::<char>::empty()
    }

    fn default_deserializer() -> (r: JsonRawStringDeserializer) {
        JsonRawStringDeserializer { stage: RawStage::NotStarted, depth: 0, json: String::new() }
    }
}

/// One JSON value, verbatim, as the classified tokens that formed it.
#[derive(Debug, Clone, PartialEq, Eq)]
pub struct JsonRawToken {
    /// the value's tokens, from its first significant one
    pub tokens: Vec<Token>,
}

/// A deserializer that accumulates one value's tokens verbatim.
#[derive(Debug)]
pub struct JsonRawTokenDeserializer {
    /// what kind of value it is inside
    pub stage: RawStage,
    /// the bracket depth inside an array or object
    pub depth: usize,
    /// the tokens accumulated so far
    pub tokens: Vec<Token>,
}

impl Deserializer<JsonRawToken> for JsonRawTokenDeserializer {
    open spec fn inv(&self) -> bool {
        true
    }

    open spec fn feed_spec(
        &self,
        post: Self,
        token: Token,
        r: Result<DeserResult<JsonRawToken>, DeserError>,
    ) -> bool {
        match raw_route(self.stage, self.depth, token) {
            Err(e) => post.stage == self.stage && post.depth == self.depth && post.tokens@
                == self.tokens@ && r == Err::<DeserResult<JsonRawToken>, DeserError>(e),
            Ok((stage2, depth2, keep, done, rollback)) => {
                let text = if keep {
                    self.tokens@.push(token)
                } else {
                    self.tokens@
                };
                if done {
                    &&& post.stage == RawStage::NotStarted
                    &&& post.depth == 0
                    &&& post.tokens@ == Seq::<Token>::empty()
                    &&& (r matches Ok(rr) && rr matches DeserResult::Complete(v) && v.tokens@
                        == text)
                } else if rollback {
                    &&& post.stage == RawStage::NotStarted
                    &&& post.depth == 0
                    &&& post.tokens@ == Seq::<Token>::empty()
                    &&& (r matches Ok(rr) && rr matches DeserResult::CompleteWithRollback(v)
                        && v.tokens@ == text)
                } else {
                    &&& post.stage == stage2
                    &&& post.depth == depth2
                    &&& post.tokens@ == text
                    &&& r == Ok::<DeserResult<JsonRawToken>, DeserError>(DeserResult::Continue)
                }
            },
        }
    }

    fn feed_token(&mut self, token: Token) -> (r: Result<DeserResult<JsonRawToken>, DeserError>) {
        let route = raw_route_exec(self.stage, self.depth, token);
        match route {
            Err(e) => Err(e),
            Ok((stage2, depth2, keep, done, rollback)) => {
                if keep {
                    self.tokens.push(token);
                }
                if done || rollback {
                    let mut out: Vec<Token> = Vec::new();
                    core::mem::swap(&mut out, &mut self.tokens);
                    self.stage = RawStage::NotStarted;
                    self.depth = 0;
                    if done {
                        Ok(DeserResult::Complete(JsonRawToken { tokens: out }))
                    } else {
                        Ok(DeserResult::CompleteWithRollback(JsonRawToken { tokens: out }))
                    }
                } else {
                    self.stage = stage2;
                    self.depth = depth2;
                    Ok(DeserResult::Continue)
                }
            },
        }
    }
}

impl DefaultDeserializable<JsonRawToken> for JsonRawToken {
    type DefaultDeserializer = JsonRawTokenDeserializer;

    open spec fn is_default(d: &JsonRawTokenDeserializer) -> bool {
        d.stage == RawStage::NotStarted && d.tokens@ == Seq::<Token>::empty()
    }

    fn default_deserializer() -> (r: JsonRawTokenDeserializer) {
        JsonRawTokenDeserializer { stage: RawStage::NotStarted, depth: 0, tokens: Vec::new() }
    }
}


/// Round-trip of the raw-string deserializer, from a state already inside
/// a value: a run that finishes yields exactly what was accumulated plus
/// the characters of the tokens it consumed; a token rolled back at the
/// end contributes nothing.
pub proof fn lemma_raw_round_trip(
    d: JsonRawStringDeserializer,
    ts: Seq<Token>,
    d2: JsonRawStringDeserializer,
    v: JsonRawString,
    rollback: bool,
)
    requires
        d.stage != RawStage::NotStarted,
        if rollback {
            crate::deserialize::run_spec(
                d,
                ts,
                d2,
                Ok(DeserResult::CompleteWithRollback(v)),
            )
        } else {
            crate::deserialize::run_spec(d, ts, d2, Ok(DeserResult::Complete(v)))
        },
    ensures
        exists|n: int|
            0 <= n <= ts.len() && v.json@ == d.json@ + chars_of(#[trigger] ts.take(n)),
    decreases ts.len(),
{
    let goal: Result<DeserResult<JsonRawString>, DeserError> = if rollback {
        Ok(DeserResult::CompleteWithRollback(v))
    } else {
        Ok(DeserResult::Complete(v))
    };
    let cont: Result<DeserResult<JsonRawString>, DeserError> = Ok(DeserResult::Continue);
    let (mid, rm): (JsonRawStringDeserializer, Result<DeserResult<JsonRawString>, DeserError>) =
        choose|mid: JsonRawStringDeserializer, rm: Result<DeserResult<JsonRawString>, DeserError>|
        #[trigger] d.feed_spec(mid, ts[0], rm) && if rm == cont {
            crate::deserialize::run_spec(mid, ts.drop_first(), d2, goal)
        } else {
            d2 == mid && goal == rm
        };
    if rm == cont {
        assert(mid.stage != RawStage::NotStarted && mid.json@ == d.json@.push(ts[0].c));
        lemma_raw_round_trip(mid, ts.drop_first(), d2, v, rollback);
        let n2: int = choose|n2: int|
            0 <= n2 <= ts.drop_first().len() && v.json@ == mid.json@ + chars_of(
                #[trigger] ts.drop_first().take(n2),
            );
        assert(ts.take(n2 + 1).drop_first() =~= ts.drop_first().take(n2));
        assert(chars_of(ts.take(n2 + 1)) == seq![ts[0].c] + chars_of(ts.drop_first().take(n2)));
        assert(v.json@ == d.json@ + chars_of(ts.take(n2 + 1))) by {
            assert(d.json@.push(ts[0].c) + chars_of(ts.drop_first().take(n2)) =~= d.json@ + (seq![
                ts[0].c,
            ] + chars_of(ts.drop_first().take(n2))));
        }
    } else {
        if rollback {
            assert(v.json@ == d.json@);
            assert(chars_of(ts.take(0)) =~= Seq::<char>::empty());
            assert(v.json@ =~= d.json@ + chars_of(ts.take(0)));
        } else {
            assert(v.json@ == d.json@.push(ts[0].c));
            assert(ts.take(1).drop_first() =~= Seq::<Token>::empty());
            assert(chars_of(ts.take(1)) == seq![ts[0].c] + chars_of(ts.take(1).drop_first()));
            assert(v.json@ =~= d.json@ + chars_of(ts.take(1)));
        }
    }
}


/// Round-trip of the raw-string deserializer from a fresh state: the
/// leading insignificant tokens contribute nothing, and the finished
/// value reads back exactly the characters of the significant tokens it
/// consumed (a token rolled back at the end contributes nothing).
pub proof fn lemma_raw_round_trip_fresh(
    d: JsonRawStringDeserializer,
    ts: Seq<Token>,
    d2: JsonRawStringDeserializer,
    v: JsonRawString,
    rollback: bool,
)
    requires
        d.stage == RawStage::NotStarted,
        d.json@ == Seq::<char>::empty(),
        if rollback {
            crate::deserialize::run_spec(d, ts, d2, Ok(DeserResult::CompleteWithRollback(v)))
        } else {
            crate::deserialize::run_spec(d, ts, d2, Ok(DeserResult::Complete(v)))
        },
    ensures
        exists|k: int, n: int|
            {
                &&& 0 <= k <= n <= ts.len()
                &&& (forall|i: int| 0 <= i < k ==> is_space_info(#[trigger] ts[i].info))
                &&& v.json@ == chars_of(#[trigger] ts.subrange(k, n))
            },
    decreases ts.len(),
{
    let goal: Result<DeserResult<JsonRawString>, DeserError> = if rollback {
        Ok(DeserResult::CompleteWithRollback(v))
    } else {
        Ok(DeserResult::Complete(v))
    };
    let cont: Result<DeserResult<JsonRawString>, DeserError> = Ok(DeserResult::Continue);
    let (mid, rm): (JsonRawStringDeserializer, Result<DeserResult<JsonRawString>, DeserError>) =
        choose|mid: JsonRawStringDeserializer, rm: Result<DeserResult<JsonRawString>, DeserError>|
        #[trigger] d.feed_spec(mid, ts[0], rm) && if rm == cont {
            crate::deserialize::run_spec(mid, ts.drop_first(), d2, goal)
        } else {
            d2 == mid && goal == rm
        };
    if rm == cont {
        if is_space_info(ts[0].info) {
            // a leading insignificant token: the state stays fresh
            lemma_raw_round_trip_fresh(mid, ts.drop_first(), d2, v, rollback);
            let (k2, n2): (int, int) = choose|k2: int, n2: int|
                {
                    &&& 0 <= k2 <= n2 <= ts.drop_first().len()
                    &&& (forall|i: int|
                        0 <= i < k2 ==> is_space_info(#[trigger] ts.drop_first()[i].info))
                    &&& v.json@ == chars_of(#[trigger] ts.drop_first().subrange(k2, n2))
                };
            assert(ts.subrange(k2 + 1, n2 + 1) =~= ts.drop_first().subrange(k2, n2));
            assert forall|i: int| 0 <= i < k2 + 1 implies is_space_info(
                #[trigger] ts[i].info,
            ) by {
                if i >= 1 {
                    assert(ts.drop_first()[i - 1] == ts[i]);
                    assert(is_space_info(ts.drop_first()[i - 1].info));
                }
            }
            assert(v.json@ == chars_of(ts.subrange(k2 + 1, n2 + 1)));
        } else {
            // the first significant token starts the value
            assert(mid.stage != RawStage::NotStarted && mid.json@ == seq![ts[0].c]) by {
                assert(Seq::<char>::empty().push(ts[0].c) =~= seq![ts[0].c]);
            }
            lemma_raw_round_trip(mid, ts.drop_first(), d2, v, rollback);
            let n2: int = choose|n2: int|
                0 <= n2 <= ts.drop_first().len() && v.json@ == mid.json@ + chars_of(
                    #[trigger] ts.drop_first().take(n2),
                );
            assert(ts.subrange(0, n2 + 1).drop_first() =~= ts.drop_first().take(n2));
            assert(chars_of(ts.subrange(0, n2 + 1)) == seq![ts[0].c] + chars_of(
                ts.drop_first().take(n2),
            ));
            assert(v.json@ =~= chars_of(ts.subrange(0, n2 + 1)));
        }
    } else {
        // the value finished on its very first significant token
        assert(v.json@ == Seq::<char>::empty().push(ts[0].c));
        assert(ts.subrange(0, 1).drop_first() =~= Seq::<Token>::empty());
        assert(chars_of(ts.subrange(0, 1)) == seq![ts[0].c] + chars_of(
            ts.subrange(0, 1).drop_first(),
        ));
        assert(v.json@ =~= chars_of(ts.subrange(0, 1)));
    }
}

/// Round-trip of a document: drive the characters of a document through
/// the stream parser and a fresh raw-string deserializer over the tokens;
/// if the deserializer finishes, its output is a contiguous span of the
/// document itself, preceded only by insignificant tokens.
pub proof fn lemma_raw_document_round_trip(
    m: crate::machine::ParserModel,
    cs: Seq<char>,
    d: JsonRawStringDeserializer,
    d2: JsonRawStringDeserializer,
    v: JsonRawString,
    rollback: bool,
)
    requires
        d.stage == RawStage::NotStarted,
        d.json@ == Seq::<char>::empty(),
        ({
            let ts = crate::machine::spec_feed_all(m, cs).tokens;
            if rollback {
                crate::deserialize::run_spec(d, ts, d2, Ok(DeserResult::CompleteWithRollback(v)))
            } else {
                crate::deserialize::run_spec(d, ts, d2, Ok(DeserResult::Complete(v)))
            }
        }),
    ensures
        exists|k: int, n: int|
            {
                let ts = crate::machine::spec_feed_all(m, cs).tokens;
                &&& 0 <= k <= n <= ts.len() <= cs.len()
                &&& (forall|i: int| 0 <= i < k ==> is_space_info(#[trigger] ts[i].info))
                &&& v.json@ == #[trigger] cs.subrange(k, n)
            },
{
    let ts = crate::machine::spec_feed_all(m, cs).tokens;
    crate::machine::lemma_feed_all_chars(m, cs);
    crate::token::lemma_chars_of_index(ts);
    lemma_raw_round_trip_fresh(d, ts, d2, v, rollback);
    let (k, n): (int, int) = choose|k: int, n: int|
        {
            &&& 0 <= k <= n <= ts.len()
            &&& (forall|i: int| 0 <= i < k ==> is_space_info(#[trigger] ts[i].info))
            &&& v.json@ == chars_of(#[trigger] ts.subrange(k, n))
        };
    crate::token::lemma_chars_of_index(ts.subrange(k, n));
    assert(chars_of(ts.subrange(k, n)) =~= cs.subrange(k, n)) by {
        assert forall|i: int| 0 <= i < n - k implies chars_of(ts.subrange(k, n))[i] == cs.subrange(
            k,
            n,
        )[i] by {
            assert(ts.subrange(k, n)[i] == ts[k + i]);
            assert(chars_of(ts)[k + i] == ts[k + i].c);
            assert(cs.take(ts.len() as int)[k + i] == cs[k + i]);
        }
    }
}

} // verus!
