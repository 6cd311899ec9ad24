//! A compositional deserializer framework driven by the token stream.
//!
//! Every deserializer consumes one token at a time and answers with a
//! three-valued outcome: more input wanted, value finished, or value
//! finished with the current token left for the caller to replay.

use vstd::prelude::*;

use crate::errors::StreamError;
use crate::machine::{init_model, spec_feed_all};
use crate::options::ParserOption;
use crate::stream_parser::StreamParser;
use crate::token::{is_space_info, Token};

verus! {

/// The three-valued completion signal of a deserializer.
#[derive(Debug, Clone, Copy, PartialEq, Eq, Structural)]
pub enum DeserResult<R> {
    /// the value is finished; the token that finished it was consumed
    Complete(R),
    /// the value is finished, but the current token did not belong to it
    /// and must be replayed to the enclosing deserializer
    CompleteWithRollback(R),
    /// more input wanted
    Continue,
}

impl<R> DeserResult<R> {
    /// Apply a function to the completed value, keeping the signal.
    pub fn map<Dest, Op: FnOnce(R) -> Dest>(self, op: Op) -> (r: DeserResult<Dest>)
        requires
            forall|v: R| #[trigger] call_requires(op, (v,)),
        ensures
            self is Continue <==> r is Continue,
            self matches DeserResult::Complete(v) ==> r matches DeserResult::Complete(w)
                && call_ensures(op, (v,), w),
            self matches DeserResult::CompleteWithRollback(v) ==> r
                matches DeserResult::CompleteWithRollback(w) && call_ensures(op, (v,), w),
    {
        match self {
            DeserResult::Complete(result) => DeserResult::Complete(op(result)),
            DeserResult::CompleteWithRollback(result) => DeserResult::CompleteWithRollback(
                op(result),
            ),
            DeserResult::Continue => DeserResult::Continue,
        }
    }
}

/// Why a deserialization was rejected.
#[derive(Debug, Clone, PartialEq, Eq)]
pub enum DeserError {
    /// the tokenizer rejected a character
    Stream(StreamError),
    /// a boolean was wanted
    ExpectBoolean,
    /// `null` was wanted
    ExpectNull,
    /// a string was wanted
    ExpectString,
    /// an integer was wanted
    ExpectInteger,
    /// a number was wanted
    ExpectNumber,
    /// an array was wanted
    ExpectArray,
    /// an object was wanted
    ExpectObject,
    /// a value was wanted
    ExpectValue,
    /// a fraction, exponent, `NaN` or `Infinity` cannot be an integer
    NotAnInteger,
    /// the number does not fit the target type
    IntegerOverflow,
    /// an unsigned integer cannot be negative
    NegativeUnsigned,
    /// the same key appeared twice
    RepeatedKey(String),
    /// a key matches no declared field
    UnknownKey(String),
    /// the object closed with these declared fields never seen
    MissingFields(Vec<String>),
    /// the array held a different number of elements than the target
    ArrayLengthMismatch,
    /// nesting too deep to track
    TooDeep,
    /// the token stream ended before the value was finished
    Incomplete,
}

impl DeserError {
    /// The human-readable description, as a specification value.
    pub open spec fn reason_spec(self) -> Seq<char> {
        match self {
            DeserError::Stream(_) => "the tokenizer rejected a character"@,
            DeserError::ExpectBoolean => "expect boolean"@,
            DeserError::ExpectNull => "expect null"@,
            DeserError::ExpectString => "expect string"@,
            DeserError::ExpectInteger => "expect integer"@,
            DeserError::ExpectNumber => "expect number"@,
            DeserError::ExpectArray => "expect array"@,
            DeserError::ExpectObject => "expect object"@,
            DeserError::ExpectValue => "expect a value"@,
            DeserError::NotAnInteger => "not an integer"@,
            DeserError::IntegerOverflow => "integer overflow"@,
            DeserError::NegativeUnsigned => "unsigned integer cannot be negative"@,
            DeserError::RepeatedKey(_) => "repeated key"@,
            DeserError::UnknownKey(_) => "unexpected key"@,
            DeserError::MissingFields(_) => "missing required fields"@,
            DeserError::ArrayLengthMismatch => "array length mismatch"@,
            DeserError::TooDeep => "nesting too deep"@,
            DeserError::Incomplete => "incomplete deserialization"@,
        }
    }

    /// A human-readable description of the error.
    pub fn get_reason(&self) -> (r: &'static str)
        ensures
            r@ == self.reason_spec(),
    {
        match self {
            DeserError::Stream(_) => "the tokenizer rejected a character",
            DeserError::ExpectBoolean => "expect boolean",
            DeserError::ExpectNull => "expect null",
            DeserError::ExpectString => "expect string",
            DeserError::ExpectInteger => "expect integer",
            DeserError::ExpectNumber => "expect number",
            DeserError::ExpectArray => "expect array",
            DeserError::ExpectObject => "expect object",
            DeserError::ExpectValue => "expect a value",
            DeserError::NotAnInteger => "not an integer",
            DeserError::IntegerOverflow => "integer overflow",
            DeserError::NegativeUnsigned => "unsigned integer cannot be negative",
            DeserError::RepeatedKey(_) => "repeated key",
            DeserError::UnknownKey(_) => "unexpected key",
            DeserError::MissingFields(_) => "missing required fields",
            DeserError::ArrayLengthMismatch => "array length mismatch",
            DeserError::TooDeep => "nesting too deep",
            DeserError::Incomplete => "incomplete deserialization",
        }
    }
}

/// Whether a token is insignificant to a value.
pub fn token_is_space(token: &Token) -> (r: bool)
    ensures
        r == is_space_info(token.info),
{
    token.is_space()
}

/// A deserializer: a state machine fed one token at a time.
///
/// Each implementation gives its own invariant and its own feed relation;
/// `feed_token` is then bound, once and for all, to that relation.
pub trait Deserializer<T>: Sized {
    /// Whether the deserializer's state is well formed.
    spec fn inv(&self) -> bool;

    /// What feeding one token does: relates the state before, the state
    /// after, the token, and the outcome.
    spec fn feed_spec(&self, post: Self, token: Token, r: Result<DeserResult<T>, DeserError>) -> bool;

    /// Feed one classified token.
    fn feed_token(&mut self, token: Token) -> (r: Result<DeserResult<T>, DeserError>)
        requires
            old(self).inv(),
        ensures
            final(self).inv(),
            old(self).feed_spec(*final(self), token, r),
    ;
}

/// Driving a deserializer over a token sequence: the states and outcomes
/// of a run, one `feed_token` at a time, stopping at the first outcome
/// that is not `Continue`.
pub open spec fn run_spec<T, D: Deserializer<T>>(
    d: D,
    ts: Seq<Token>,
    d2: D,
    r: Result<DeserResult<T>, DeserError>,
) -> bool
    decreases ts.len(),
{
    if ts.len() == 0 {
        d2 == d && r == Ok::<DeserResult<T>, DeserError>(DeserResult::Continue)
    } else {
        exists|mid: D, rm: Result<DeserResult<T>, DeserError>|
            {
                &&& #[trigger] d.feed_spec(mid, ts[0], rm)
                &&& if rm == Ok::<DeserResult<T>, DeserError>(DeserResult::Continue) {
                    run_spec(mid, ts.drop_first(), d2, r)
                } else {
                    d2 == mid && r == rm
                }
            }
    }
}

/// Whether some run over a prefix of the tokens finishes with the value.
pub open spec fn completes_with<T, D: Deserializer<T>>(d0: D, ts: Seq<Token>, v: T) -> bool {
    exists|n: int, d2: D, rr: Result<DeserResult<T>, DeserError>|
        0 <= n <= ts.len() && #[trigger] run_spec(d0, ts.take(n), d2, rr) && (rr == Ok::<
            DeserResult<T>,
            DeserError,
        >(DeserResult::Complete(v)) || rr == Ok::<DeserResult<T>, DeserError>(
            DeserResult::CompleteWithRollback(v),
        ))
}

/// Whether some run over a prefix of the tokens stops with this error.
pub open spec fn errors_with<T, D: Deserializer<T>>(d0: D, ts: Seq<Token>, e: DeserError) -> bool {
    exists|n: int, d2: D|
        0 <= n <= ts.len() && #[trigger] run_spec(
            d0,
            ts.take(n),
            d2,
            Err::<DeserResult<T>, DeserError>(e),
        )
}

/// Feed tokens from a slice until the deserializer stops asking for more.
pub fn feed_tokens_to<T, D: Deserializer<T>>(deserializer: &mut D, tokens: &Vec<Token>) -> (r:
    Result<DeserResult<T>, DeserError>)
    requires
        old(deserializer).inv(),
    ensures
        final(deserializer).inv(),
        exists|n: int|
            0 <= n <= tokens@.len() && run_spec(
                *old(deserializer),
                tokens@.take(n),
                *final(deserializer),
                r,
            ),
        r == Ok::<DeserResult<T>, DeserError>(DeserResult::Continue) ==> run_spec(
            *old(deserializer),
            tokens@,
            *final(deserializer),
            r,
        ),
{
    let mut i: usize = 0;
    while i < tokens.len()
        invariant
            deserializer.inv(),
            i <= tokens@.len(),
            run_spec(
                *old(deserializer),
                tokens@.take(i as int),
                *deserializer,
                Ok::<DeserResult<T>, DeserError>(DeserResult::Continue),
            ),
        decreases tokens@.len() - i,
    {
        let ghost pre = *deserializer;
        let r = deserializer.feed_token(tokens[i]);
        match r {
            Ok(DeserResult::Continue) => {
                proof {
                    lemma_run_snoc(
                        *old(deserializer),
                        tokens@.take(i as int),
                        pre,
                        tokens@[i as int],
                        *deserializer,
                        Ok::<DeserResult<T>, DeserError>(DeserResult::Continue),
                    );
                    assert(tokens@.take(i + 1 as int) =~= tokens@.take(i as int).push(
                        tokens@[i as int],
                    ));
                }
                i = i + 1;
            },
            _ => {
                proof {
                    lemma_run_snoc(
                        *old(deserializer),
                        tokens@.take(i as int),
                        pre,
                        tokens@[i as int],
                        *deserializer,
                        r,
                    );
                    assert(tokens@.take(i + 1 as int) =~= tokens@.take(i as int).push(
                        tokens@[i as int],
                    ));
                }
                return r;
            },
        }
    }
    proof {
        assert(tokens@.take(tokens@.len() as int) =~= tokens@);
    }
    Ok(DeserResult::Continue)
}

/// A run that ends asking for more, extended by one fed token, is a run.
pub proof fn lemma_run_snoc<T, D: Deserializer<T>>(
    d0: D,
    ts: Seq<Token>,
    mid: D,
    t: Token,
    d2: D,
    r: Result<DeserResult<T>, DeserError>,
)
    requires
        run_spec(d0, ts, mid, Ok::<DeserResult<T>, DeserError>(DeserResult::Continue)),
        mid.feed_spec(d2, t, r),
    ensures
        run_spec(d0, ts.push(t), d2, r),
    decreases ts.len(),
{
    if ts.len() == 0 {
        assert(ts.push(t)[0] == t);
        assert(ts.push(t).drop_first() =~= Seq::<Token>::empty());
        if r == Ok::<DeserResult<T>, DeserError>(DeserResult::Continue) {
            assert(run_spec(d2, ts.push(t).drop_first(), d2, r));
        }
        assert(d0.feed_spec(d2, t, r));
    } else {
        let (m1, rm): (D, Result<DeserResult<T>, DeserError>) = choose|
            m1: D,
            rm: Result<DeserResult<T>, DeserError>,
        |
            #[trigger] d0.feed_spec(m1, ts[0], rm) && rm == Ok::<DeserResult<T>, DeserError>(
                DeserResult::Continue,
            ) && run_spec(m1, ts.drop_first(), mid, Ok::<DeserResult<T>, DeserError>(
                DeserResult::Continue,
            ));
        lemma_run_snoc(m1, ts.drop_first(), mid, t, d2, r);
        assert(ts.push(t)[0] == ts[0]);
        assert(ts.push(t).drop_first() =~= ts.drop_first().push(t));
        assert(d0.feed_spec(m1, ts.push(t)[0], rm));
    }
}

/// Unwrap a finished outcome; an unfinished one is an error.
pub fn unwrap_deser_result<T>(result: Result<DeserResult<T>, DeserError>) -> (r: Result<
    T,
    DeserError,
>)
    ensures
        match result {
            Ok(DeserResult::Complete(v)) => r == Ok::<T, DeserError>(v),
            Ok(DeserResult::CompleteWithRollback(v)) => r == Ok::<T, DeserError>(v),
            Ok(DeserResult::Continue) => r == Err::<T, DeserError>(DeserError::Incomplete),
            Err(e) => r == Err::<T, DeserError>(e),
        },
{
    match result {
        Ok(DeserResult::Complete(v)) => Ok(v),
        Ok(DeserResult::CompleteWithRollback(v)) => Ok(v),
        Ok(DeserResult::Continue) => Err(DeserError::Incomplete),
        Err(e) => Err(e),
    }
}

/// A type with a default deserializer.
pub trait DefaultDeserializable<T>: Sized {
    /// The deserializer the type starts from.
    type DefaultDeserializer: Deserializer<T>;

    /// Whether a deserializer state is a fresh one for this type.
    spec fn is_default(d: &Self::DefaultDeserializer) -> bool;

    /// A fresh deserializer for this type.
    fn default_deserializer() -> (r: Self::DefaultDeserializer)
        ensures
            Self::is_default(&r),
            r.inv(),
    ;
}

/// A fresh default deserializer for `T`.
pub fn create_default_deserializer<T: DefaultDeserializable<T>>() -> (r: T::DefaultDeserializer)
    ensures
        T::is_default(&r),
        r.inv(),
{
    T::default_deserializer()
}

/// The promise `deserialize` makes of a returned value: the tokenizer
/// accepted the whole document, and some run of the type's default
/// deserializer over a prefix of its tokens finishes with exactly that
/// value.
pub open spec fn deserialize_ok_post<T: DefaultDeserializable<T>>(
    option: ParserOption,
    s: Seq<char>,
    v: T,
) -> bool {
    let fa = spec_feed_all(init_model(option), s.push('\0'));
    &&& fa.err is None
    &&& exists|d0: T::DefaultDeserializer|
        T::is_default(&d0) && #[trigger] completes_with(d0, fa.tokens, v)
}

/// The promise `deserialize` makes of an error: the tokenizer rejected a
/// character, or some run of the default deserializer stops with this
/// error, or the tokenizer accepted the whole document and the default
/// deserializer still wanted more after every one of its tokens.
pub open spec fn deserialize_err_post<T: DefaultDeserializable<T>>(
    option: ParserOption,
    s: Seq<char>,
    e: DeserError,
) -> bool {
    let fa = spec_feed_all(init_model(option), s.push('\0'));
    ||| (e matches DeserError::Stream(se) && fa.err == Some(se.kind))
    ||| exists|d0: T::DefaultDeserializer|
        T::is_default(&d0) && #[trigger] errors_with::<T, T::DefaultDeserializer>(
            d0,
            fa.tokens,
            e,
        )
    ||| (e == DeserError::Incomplete && fa.err is None && exists|
        d0: T::DefaultDeserializer,
        d2: T::DefaultDeserializer,
    |
        T::is_default(&d0) && #[trigger] run_spec(
            d0,
            fa.tokens,
            d2,
            Ok::<DeserResult<T>, DeserError>(DeserResult::Continue),
        ))
}

/// Deserialize a value of `T` from a document: tokenize the string and
/// drive the type's default deserializer over the tokens until it
/// finishes. The end-of-input marker is appended for the caller.
pub fn deserialize<T: DefaultDeserializable<T>>(option: ParserOption, s: &str) -> (r: Result<
    T,
    DeserError,
>)
    requires
        s@.len() < usize::MAX,
    ensures
        match r {
            Ok(v) => deserialize_ok_post::<T>(option, s@, v),
            Err(e) => deserialize_err_post::<T>(option, s@, e),
        },
{
    let mut parser = StreamParser::new(option);
    let tokens = match parser.feed(s) {
        Ok(tokens) => tokens,
        Err(e) => {
            proof {
                crate::machine::lemma_feed_all_concat(init_model(option), s@, seq!['\0']);
                assert(s@ + seq!['\0'] =~= s@.push('\0'));
            }
            return Err(DeserError::Stream(e));
        },
    };
    let end_token = match parser.end() {
        Ok(t) => t,
        Err(e) => {
            proof {
                crate::machine::lemma_feed_all_concat(init_model(option), s@, seq!['\0']);
                assert(s@ + seq!['\0'] =~= s@.push('\0'));
                assert(seq!['\0'][0] == '\0');
            }
            return Err(DeserError::Stream(e));
        },
    };
    let ghost fa = spec_feed_all(init_model(option), s@.push('\0'));
    let mut all_tokens = tokens;
    all_tokens.push(end_token);
    proof {
        crate::machine::lemma_feed_all_concat(init_model(option), s@, seq!['\0']);
        assert(s@ + seq!['\0'] =~= s@.push('\0'));
        let fs = spec_feed_all(init_model(option), s@);
        assert(seq!['\0'].drop_first() =~= Seq::<char>::empty());
        assert(seq!['\0'][0] == '\0');
        let m2 = crate::machine::spec_feed(fs.state, '\0')->Ok_0.1;
        assert(spec_feed_all(m2, Seq::<char>::empty()).tokens =~= Seq::<Token>::empty());
        assert(all_tokens@ =~= fa.tokens);
    }
    let mut deserializer = create_default_deserializer::<T>();
    let ghost d0 = deserializer;
    let mut i: usize = 0;
    while i < all_tokens.len()
        invariant
            deserializer.inv(),
            i <= all_tokens@.len(),
            fa == spec_feed_all(init_model(option), s@.push('\0')),
            fa.err is None,
            all_tokens@ == fa.tokens,
            T::is_default(&d0),
            run_spec(
                d0,
                all_tokens@.take(i as int),
                deserializer,
                Ok::<DeserResult<T>, DeserError>(DeserResult::Continue),
            ),
        decreases all_tokens@.len() - i,
    {
        let ghost pre = deserializer;
        let r = deserializer.feed_token(all_tokens[i]);
        proof {
            lemma_run_snoc(
                d0,
                all_tokens@.take(i as int),
                pre,
                all_tokens@[i as int],
                deserializer,
                r,
            );
            assert(all_tokens@.take(i + 1 as int) =~= all_tokens@.take(i as int).push(
                all_tokens@[i as int],
            ));
        }
        match r {
            Ok(DeserResult::Complete(v)) => {
                proof {
                    assert(run_spec(
                        d0,
                        fa.tokens.take(i + 1 as int),
                        deserializer,
                        Ok::<DeserResult<T>, DeserError>(DeserResult::Complete(v)),
                    ));
                    assert(completes_with(d0, fa.tokens, v));
                    assert(deserialize_ok_post::<T>(option, s@, v));
                }
                return Ok(v);
            },
            Ok(DeserResult::CompleteWithRollback(v)) => {
                proof {
                    assert(run_spec(
                        d0,
                        fa.tokens.take(i + 1 as int),
                        deserializer,
                        Ok::<DeserResult<T>, DeserError>(DeserResult::CompleteWithRollback(v)),
                    ));
                    assert(completes_with(d0, fa.tokens, v));
                    assert(deserialize_ok_post::<T>(option, s@, v));
                }
                return Ok(v);
            },
            Ok(DeserResult::Continue) => {
                i = i + 1;
            },
            Err(e) => {
                proof {
                    assert(run_spec(
                        d0,
                        fa.tokens.take(i + 1 as int),
                        deserializer,
                        Err::<DeserResult<T>, DeserError>(e),
                    ));
                    assert(errors_with::<T, T::DefaultDeserializer>(d0, fa.tokens, e));
                    assert(deserialize_err_post::<T>(option, s@, e));
                }
                return Err(e);
            },
        }
    }
    proof {
        assert(all_tokens@.take(all_tokens@.len() as int) =~= all_tokens@);
        assert(run_spec(
            d0,
            fa.tokens,
            deserializer,
            Ok::<DeserResult<T>, DeserError>(DeserResult::Continue),
        ));
        assert(deserialize_err_post::<T>(option, s@, DeserError::Incomplete));
    }
    Err(DeserError::Incomplete)
}

/// Deserialize a value of `T` from an already tokenized stream.
pub fn deserialize_tokens<T: DefaultDeserializable<T>>(tokens: &Vec<Token>) -> (r: Result<
    T,
    DeserError,
>)
    ensures
        exists|
            n: int,
            d0: T::DefaultDeserializer,
            d2: T::DefaultDeserializer,
            rr: Result<DeserResult<T>, DeserError>,
        |
            {
                &&& 0 <= n <= tokens@.len()
                &&& T::is_default(&d0)
                &&& #[trigger] run_spec(d0, tokens@.take(n), d2, rr)
                &&& match rr {
                    Ok(DeserResult::Complete(v)) => r == Ok::<T, DeserError>(v),
                    Ok(DeserResult::CompleteWithRollback(v)) => r == Ok::<T, DeserError>(v),
                    Ok(DeserResult::Continue) => n == tokens@.len() && r == Err::<T, DeserError>(
                        DeserError::Incomplete,
                    ),
                    Err(e) => r == Err::<T, DeserError>(e),
                }
            },
{
    let mut deserializer = create_default_deserializer::<T>();
    let ghost d0 = deserializer;
    let r = feed_tokens_to(&mut deserializer, tokens);
    proof {
        if r == Ok::<DeserResult<T>, DeserError>(DeserResult::Continue) {
            assert(tokens@.take(tokens@.len() as int) =~= tokens@);
            assert(run_spec(d0, tokens@.take(tokens@.len() as int), deserializer, r));
        }
    }
    unwrap_deser_result(r)
}

} // verus!

mod boolean;
mod boxes;
mod drivers;
mod fields;
mod integers;
mod objects;
mod numbers;
mod optionals;
mod raw;
mod strings;
mod structs;
mod vectors;

pub use boolean::StatelessDeserializer;
pub use boxes::{ArcDeserializer, BoxDeserializer, RcDeserializer};
pub use drivers::{
    create_array_deserializer, create_string_deserializer, lemma_array_rollback,
    ArrayReceiverDeserializer, ArrayReceiverTrait, ArrayStage, StringReceiverDeserializer,
    StringReceiverTrait,
};
pub use integers::IntegerDeserializer;
pub use numbers::FloatDeserializer;
pub use optionals::OptionReceiver;
pub use raw::{
    lemma_raw_document_round_trip, lemma_raw_round_trip, lemma_raw_round_trip_fresh, JsonRawString,
    JsonRawStringDeserializer, JsonRawToken, JsonRawTokenDeserializer, RawStage,
};
pub use objects::{
    create_object_deserializer, BTreeMapReceiver, HashMapReceiver, ObjectReceiverDeserializer,
    ObjectReceiverTrait, ObjectStage,
};
pub use fields::RawFieldsReceiver;
pub use strings::StringReceiver;
pub use structs::{
    create_struct_helper_deserializer, StructHelperReceiverDeserializer, StructHelperReceiverTrait,
};
pub use vectors::VecReceiver;
