//! Wrapper deserializers: the inner value is parsed as usual and then
//! moved behind the pointer.

use vstd::prelude::*;

use std::rc::Rc;
use std::sync::Arc;

use crate::deserialize::{DefaultDeserializable, DeserError, DeserResult, Deserializer};
use crate::token::Token;

verus! {

/// A deserializer for boxed values.
pub struct BoxDeserializer<T: DefaultDeserializable<T>> {
    /// the deserializer of the inner value
    pub deserializer: Box<T::DefaultDeserializer>,
}

impl<T: DefaultDeserializable<T>> Deserializer<Box<T>> for BoxDeserializer<T> {
    open spec fn inv(&self) -> bool {
        self.deserializer.inv()
    }

    open spec fn feed_spec(
        &self,
        post: Self,
        token: Token,
        r: Result<DeserResult<Box<T>>, DeserError>,
    ) -> bool {
        exists|d2: T::DefaultDeserializer, rs: Result<DeserResult<T>, DeserError>|
            #[trigger] self.deserializer.feed_spec(d2, token, rs) && *post.deserializer == d2 && r
                == (match rs {
                Ok(DeserResult::Continue) => Ok::<DeserResult<Box<T>>, DeserError>(
                    DeserResult::Continue,
                ),
                Ok(DeserResult::Complete(v)) => Ok(DeserResult::Complete(Box::new(v))),
                Ok(DeserResult::CompleteWithRollback(v)) => Ok(
                    DeserResult::CompleteWithRollback(Box::new(v)),
                ),
                Err(e) => Err(e),
            })
    }

    fn feed_token(&mut self, token: Token) -> (r: Result<DeserResult<Box<T>>, DeserError>) {
        match self.deserializer.feed_token(token) {
            Ok(DeserResult::Continue) => Ok(DeserResult::Continue),
            Ok(DeserResult::Complete(v)) => Ok(DeserResult::Complete(Box::new(v))),
            Ok(DeserResult::CompleteWithRollback(v)) => Ok(
                DeserResult::CompleteWithRollback(Box::new(v)),
            ),
            Err(e) => Err(e),
        }
    }
}

impl<T: DefaultDeserializable<T>> DefaultDeserializable<Box<T>> for Box<T> {
    type DefaultDeserializer = BoxDeserializer<T>;

    open spec fn is_default(d: &BoxDeserializer<T>) -> bool {
        T::is_default(&d.deserializer)
    }

    fn default_deserializer() -> (r: BoxDeserializer<T>) {
        BoxDeserializer { deserializer: Box::new(T::default_deserializer()) }
    }
}

/// A deserializer for reference-counted values.
pub struct RcDeserializer<T: DefaultDeserializable<T>> {
    /// the deserializer of the inner value
    pub deserializer: Box<T::DefaultDeserializer>,
}

impl<T: DefaultDeserializable<T>> Deserializer<Rc<T>> for RcDeserializer<T> {
    open spec fn inv(&self) -> bool {
        self.deserializer.inv()
    }

    open spec fn feed_spec(
        &self,
        post: Self,
        token: Token,
        r: Result<DeserResult<Rc<T>>, DeserError>,
    ) -> bool {
        exists|d2: T::DefaultDeserializer, rs: Result<DeserResult<T>, DeserError>|
            #[trigger] self.deserializer.feed_spec(d2, token, rs) && *post.deserializer == d2 && (
            match rs {
                Ok(DeserResult::Continue) => r == Ok::<DeserResult<Rc<T>>, DeserError>(
                    DeserResult::Continue,
                ),
                Ok(DeserResult::Complete(v)) => r matches Ok(rr) && rr
                    matches DeserResult::Complete(p) && *p == v,
                Ok(DeserResult::CompleteWithRollback(v)) => r matches Ok(rr) && rr
                    matches DeserResult::CompleteWithRollback(p) && *p == v,
                Err(e) => r == Err::<DeserResult<Rc<T>>, DeserError>(e),
            })
    }

    fn feed_token(&mut self, token: Token) -> (r: Result<DeserResult<Rc<T>>, DeserError>) {
        match self.deserializer.feed_token(token) {
            Ok(DeserResult::Continue) => Ok(DeserResult::Continue),
            Ok(DeserResult::Complete(v)) => Ok(DeserResult::Complete(Rc::new(v))),
            Ok(DeserResult::CompleteWithRollback(v)) => Ok(
                DeserResult::CompleteWithRollback(Rc::new(v)),
            ),
            Err(e) => Err(e),
        }
    }
}

impl<T: DefaultDeserializable<T>> DefaultDeserializable<Rc<T>> for Rc<T> {
    type DefaultDeserializer = RcDeserializer<T>;

    open spec fn is_default(d: &RcDeserializer<T>) -> bool {
        T::is_default(&d.deserializer)
    }

    fn default_deserializer() -> (r: RcDeserializer<T>) {
        RcDeserializer { deserializer: Box::new(T::default_deserializer()) }
    }
}

/// A deserializer for atomically reference-counted values.
pub struct ArcDeserializer<T: DefaultDeserializable<T>> {
    /// the deserializer of the inner value
    pub deserializer: Box<T::DefaultDeserializer>,
}

impl<T: DefaultDeserializable<T>> Deserializer<Arc<T>> for ArcDeserializer<T> {
    open spec fn inv(&self) -> bool {
        self.deserializer.inv()
    }

    open spec fn feed_spec(
        &self,
        post: Self,
        token: Token,
        r: Result<DeserResult<Arc<T>>, DeserError>,
    ) -> bool {
        exists|d2: T::DefaultDeserializer, rs: Result<DeserResult<T>, DeserError>|
            #[trigger] self.deserializer.feed_spec(d2, token, rs) && *post.deserializer == d2 && (
            match rs {
                Ok(DeserResult::Continue) => r == Ok::<DeserResult<Arc<T>>, DeserError>(
                    DeserResult::Continue,
                ),
                Ok(DeserResult::Complete(v)) => r matches Ok(rr) && rr
                    matches DeserResult::Complete(p) && *p == v,
                Ok(DeserResult::CompleteWithRollback(v)) => r matches Ok(rr) && rr
                    matches DeserResult::CompleteWithRollback(p) && *p == v,
                Err(e) => r == Err::<DeserResult<Arc<T>>, DeserError>(e),
            })
    }

    fn feed_token(&mut self, token: Token) -> (r: Result<DeserResult<Arc<T>>, DeserError>) {
        match self.deserializer.feed_token(token) {
            Ok(DeserResult::Continue) => Ok(DeserResult::Continue),
            Ok(DeserResult::Complete(v)) => Ok(DeserResult::Complete(Arc::new(v))),
            Ok(DeserResult::CompleteWithRollback(v)) => Ok(
                DeserResult::CompleteWithRollback(Arc::new(v)),
            ),
            Err(e) => Err(e),
        }
    }
}

impl<T: DefaultDeserializable<T>> DefaultDeserializable<Arc<T>> for Arc<T> {
    type DefaultDeserializer = ArcDeserializer<T>;

    open spec fn is_default(d: &ArcDeserializer<T>) -> bool {
        T::is_default(&d.deserializer)
    }

    fn default_deserializer() -> (r: ArcDeserializer<T>) {
        ArcDeserializer { deserializer: Box::new(T::default_deserializer()) }
    }
}

} // verus!
