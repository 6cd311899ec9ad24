//! Deserializers for the keyword atoms: booleans and `null`.

use vstd::prelude::*;

use core::marker::PhantomData;

use crate::deserialize::{DefaultDeserializable, DeserError, DeserResult, Deserializer};
use crate::token::{is_space_info, Token, TokenInfo};

verus! {

/// A deserializer that needs no state of its own: the tokens of a keyword
/// atom carry their own progress.
#[derive(Debug)]
pub struct StatelessDeserializer<T> {
    _marker: PhantomData<T>,
}

/// What feeding one token to the boolean deserializer yields.
pub open spec fn bool_feed_spec(token: Token) -> Result<DeserResult<bool>, DeserError> {
    match token.info {
        TokenInfo::True(_, done) => if done {
            Ok(DeserResult::Complete(true))
        } else {
            Ok(DeserResult::Continue)
        },
        TokenInfo::False(_, done) => if done {
            Ok(DeserResult::Complete(false))
        } else {
            Ok(DeserResult::Continue)
        },
        _ => if is_space_info(token.info) {
            Ok(DeserResult::Continue)
        } else {
            Err(DeserError::ExpectBoolean)
        },
    }
}

impl Deserializer<bool> for StatelessDeserializer<bool> {
    open spec fn inv(&self) -> bool {
        true
    }

    open spec fn feed_spec(
        &self,
        post: Self,
        token: Token,
        r: Result<DeserResult<bool>, DeserError>,
    ) -> bool {
        r == bool_feed_spec(token)
    }

    fn feed_token(&mut self, token: Token) -> (r: Result<DeserResult<bool>, DeserError>) {
        match token.info {
            TokenInfo::True(_, done) => if done {
                Ok(DeserResult::Complete(true))
            } else {
                Ok(DeserResult::Continue)
            },
            TokenInfo::False(_, done) => if done {
                Ok(DeserResult::Complete(false))
            } else {
                Ok(DeserResult::Continue)
            },
            _ => if token.is_space() {
                Ok(DeserResult::Continue)
            } else {
                Err(DeserError::ExpectBoolean)
            },
        }
    }
}

impl DefaultDeserializable<bool> for bool {
    type DefaultDeserializer = StatelessDeserializer<bool>;

    open spec fn is_default(d: &StatelessDeserializer<bool>) -> bool {
        true
    }

    fn default_deserializer() -> (r: StatelessDeserializer<bool>) {
        StatelessDeserializer { _marker: PhantomData }
    }
}

/// What feeding one token to the `null` deserializer yields.
pub open spec fn null_feed_spec(token: Token) -> Result<DeserResult<()>, DeserError> {
    match token.info {
        TokenInfo::Null(_, done) => if done {
            Ok(DeserResult::Complete(()))
        } else {
            Ok(DeserResult::Continue)
        },
        _ => if is_space_info(token.info) {
            Ok(DeserResult::Continue)
        } else {
            Err(DeserError::ExpectNull)
        },
    }
}

impl Deserializer<()> for StatelessDeserializer<()> {
    open spec fn inv(&self) -> bool {
        true
    }

    open spec fn feed_spec(
        &self,
        post: Self,
        token: Token,
        r: Result<DeserResult<()>, DeserError>,
    ) -> bool {
        r == null_feed_spec(token)
    }

    fn feed_token(&mut self, token: Token) -> (r: Result<DeserResult<()>, DeserError>) {
        match token.info {
            TokenInfo::Null(_, done) => if done {
                Ok(DeserResult::Complete(()))
            } else {
                Ok(DeserResult::Continue)
            },
            _ => if token.is_space() {
                Ok(DeserResult::Continue)
            } else {
                Err(DeserError::ExpectNull)
            },
        }
    }
}

impl DefaultDeserializable<()> for () {
    type DefaultDeserializer = StatelessDeserializer<()>;

    open spec fn is_default(d: &StatelessDeserializer<()>) -> bool {
        true
    }

    fn default_deserializer() -> (r: StatelessDeserializer<()>) {
        StatelessDeserializer { _marker: PhantomData }
    }
}

} // verus!
