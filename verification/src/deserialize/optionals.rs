//! The option deserializer: `null` is the absent case; anything else is
//! handed to the inner deserializer.

use vstd::prelude::*;

use core::marker::PhantomData;

use crate::deserialize::{DefaultDeserializable, DeserError, DeserResult, Deserializer};
use crate::token::{is_space_info, Token, TokenInfo};

verus! {

/// A deserializer for optional values.
#[derive(Debug)]
pub struct OptionReceiver<T, D> {
    /// the deserializer of the present case
    pub deser: D,
    /// a significant non-`null` token was seen
    pub started: bool,
    pub _marker: PhantomData<T>,
}

/// The relation of handing one token to the inner deserializer, with the
/// value wrapped in `Some`.
pub open spec fn option_delegate_spec<T, D: Deserializer<T>>(
    pre: OptionReceiver<T, D>,
    post: OptionReceiver<T, D>,
    token: Token,
    r: Result<DeserResult<Option<T>>, DeserError>,
) -> bool {
    exists|d2: D, rs: Result<DeserResult<T>, DeserError>|
        #[trigger] pre.deser.feed_spec(d2, token, rs) && post == (OptionReceiver {
            deser: d2,
            started: true,
            ..pre
        }) && r == (match rs {
            Ok(DeserResult::Continue) => Ok::<DeserResult<Option<T>>, DeserError>(
                DeserResult::Continue,
            ),
            Ok(DeserResult::Complete(v)) => Ok(DeserResult::Complete(Some(v))),
            Ok(DeserResult::CompleteWithRollback(v)) => Ok(
                DeserResult::CompleteWithRollback(Some(v)),
            ),
            Err(e) => Err(e),
        })
}

impl<T, D: Deserializer<T>> Deserializer<Option<T>> for OptionReceiver<T, D> {
    open spec fn inv(&self) -> bool {
        self.deser.inv()
    }

    open spec fn feed_spec(
        &self,
        post: Self,
        token: Token,
        r: Result<DeserResult<Option<T>>, DeserError>,
    ) -> bool {
        if !self.started {
            if is_space_info(token.info) {
                post == *self && r == Ok::<DeserResult<Option<T>>, DeserError>(
                    DeserResult::Continue,
                )
            } else {
                match token.info {
                    TokenInfo::Null(_, done) => post == *self && r == (if done {
                        Ok::<DeserResult<Option<T>>, DeserError>(
                            DeserResult::Complete(None),
                        )
                    } else {
                        Ok(DeserResult::Continue)
                    }),
                    _ => option_delegate_spec(*self, post, token, r),
                }
            }
        } else {
            option_delegate_spec(*self, post, token, r)
        }
    }

    fn feed_token(&mut self, token: Token) -> (r: Result<DeserResult<Option<T>>, DeserError>) {
        if !self.started {
            if token.is_space() {
                return Ok(DeserResult::Continue);
            }
            match token.info {
                TokenInfo::Null(_, done) => {
                    return if done {
                        Ok(DeserResult::Complete(None))
                    } else {
                        Ok(DeserResult::Continue)
                    };
                },
                _ => {},
            }
        }
        self.started = true;
        match self.deser.feed_token(token) {
            Ok(DeserResult::Continue) => Ok(DeserResult::Continue),
            Ok(DeserResult::Complete(v)) => Ok(DeserResult::Complete(Some(v))),
            Ok(DeserResult::CompleteWithRollback(v)) => Ok(
                DeserResult::CompleteWithRollback(Some(v)),
            ),
            Err(e) => Err(e),
        }
    }
}

impl<T: DefaultDeserializable<T>> DefaultDeserializable<Option<T>> for Option<T> {
    type DefaultDeserializer = OptionReceiver<T, T::DefaultDeserializer>;

    open spec fn is_default(d: &OptionReceiver<T, T::DefaultDeserializer>) -> bool {
        T::is_default(&d.deser) && !d.started
    }

    fn default_deserializer() -> (r: OptionReceiver<T, T::DefaultDeserializer>) {
        OptionReceiver { deser: T::default_deserializer(), started: false, _marker: PhantomData }
    }
}

} // verus!
