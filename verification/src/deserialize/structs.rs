//! The struct helper: drives a user record out of an object. The keys are
//! strings; the receiver owns the per-field deserializers and enforces
//! that each declared field appears exactly once.

use vstd::prelude::*;

use crate::deserialize::drivers::{StringReceiverDeserializer, StringReceiverTrait};
use crate::deserialize::objects::ObjectStage;
use crate::deserialize::strings::StringReceiver;
use crate::deserialize::{DeserError, DeserResult, Deserializer};
use crate::token::{is_space_info, Token, TokenInfo};

verus! {

/// What a struct helper hands its receiver: the key that opens each
/// member, the member's value tokens, and an end that yields the record.
pub trait StructHelperReceiverTrait<R>: Sized {
    /// Whether the receiver's state is well formed.
    spec fn inv(&self) -> bool;

    /// What `start_value` does.
    spec fn start_value_spec(&self, post: Self, key: Seq<char>, r: Result<(), DeserError>) -> bool;

    /// What `feed_value` does.
    spec fn feed_value_spec(
        &self,
        post: Self,
        token: Token,
        r: Result<DeserResult<()>, DeserError>,
    ) -> bool;

    /// What `end` does.
    spec fn end_spec(&self, post: Self, r: Result<R, DeserError>) -> bool;

    /// A member with this key opens.
    fn start_value(&mut self, key: &str) -> (r: Result<(), DeserError>)
        requires
            old(self).inv(),
        ensures
            final(self).inv(),
            old(self).start_value_spec(*final(self), key@, r),
    ;

    /// One token of the member's value.
    fn feed_value(&mut self, token: Token) -> (r: Result<DeserResult<()>, DeserError>)
        requires
            old(self).inv(),
        ensures
            final(self).inv(),
            old(self).feed_value_spec(*final(self), token, r),
    ;

    /// The object closes; the receiver yields the record.
    fn end(&mut self) -> (r: Result<R, DeserError>)
        requires
            old(self).inv(),
        ensures
            final(self).inv(),
            old(self).end_spec(*final(self), r),
    ;
}

/// The key deserializer the struct helper drives.
pub type KeyDeserializer = StringReceiverDeserializer<String, StringReceiver>;

/// A deserializer for user records, generic in the receiver that holds
/// the fields.
pub struct StructHelperReceiverDeserializer<R, Recv> {
    /// the receiver the members are handed to
    pub receiver: Recv,
    /// the key deserializer of the member being parsed
    pub key_sub: Option<KeyDeserializer>,
    /// the completed key, kept until its value opens
    pub key: Option<String>,
    /// where the driver stands
    pub stage: ObjectStage,
    pub _marker: core::marker::PhantomData<R>,
}

/// The invariant of the struct helper.
pub open spec fn helper_inv<R, Recv: StructHelperReceiverTrait<R>>(
    d: StructHelperReceiverDeserializer<R, Recv>,
) -> bool {
    d.receiver.inv()
}

/// The relation of opening a member: the receiver is told the key, and
/// the value's first token is handed to it at once.
pub open spec fn helper_first_value_spec<R, Recv: StructHelperReceiverTrait<R>>(
    pre: StructHelperReceiverDeserializer<R, Recv>,
    key: Seq<char>,
    post: StructHelperReceiverDeserializer<R, Recv>,
    token: Token,
    r: Result<DeserResult<R>, DeserError>,
) -> bool
    decreases 1int,
{
    exists|recv2: Recv, rs: Result<(), DeserError>|
        #[trigger] pre.receiver.start_value_spec(recv2, key, rs) && (match rs {
            Ok(()) => helper_value_token_spec(
                StructHelperReceiverDeserializer { receiver: recv2, key: None, ..pre },
                post,
                token,
                r,
                true,
            ),
            Err(e) => post == (StructHelperReceiverDeserializer {
                receiver: recv2,
                key: None,
                ..pre
            }) && r == Err::<DeserResult<R>, DeserError>(e),
        })
}

/// The relation of one value token handed to the receiver. For the
/// opening token a rollback is refused; later it replays the token as a
/// structural one.
pub open spec fn helper_value_token_spec<R, Recv: StructHelperReceiverTrait<R>>(
    pre: StructHelperReceiverDeserializer<R, Recv>,
    post: StructHelperReceiverDeserializer<R, Recv>,
    token: Token,
    r: Result<DeserResult<R>, DeserError>,
    first: bool,
) -> bool
    decreases (if first {
        0int
    } else {
        3int
    }),
{
    exists|recv2: Recv, rs: Result<DeserResult<()>, DeserError>|
        #[trigger] pre.receiver.feed_value_spec(recv2, token, rs) && (match rs {
            Ok(DeserResult::Continue) => post == (StructHelperReceiverDeserializer {
                receiver: recv2,
                stage: ObjectStage::Value,
                ..pre
            }) && r == Ok::<DeserResult<R>, DeserError>(DeserResult::Continue),
            Ok(DeserResult::Complete(_)) => post == (StructHelperReceiverDeserializer {
                receiver: recv2,
                stage: ObjectStage::ValueEnd,
                ..pre
            }) && r == Ok::<DeserResult<R>, DeserError>(DeserResult::Continue),
            Ok(DeserResult::CompleteWithRollback(_)) => if first {
                post == (StructHelperReceiverDeserializer {
                    receiver: recv2,
                    stage: ObjectStage::Value,
                    ..pre
                }) && r == Err::<DeserResult<R>, DeserError>(DeserError::ExpectValue)
            } else {
                helper_structural_spec(
                    StructHelperReceiverDeserializer {
                        receiver: recv2,
                        stage: ObjectStage::ValueEnd,
                        ..pre
                    },
                    post,
                    token,
                    r,
                )
            },
            Err(e) => post == (StructHelperReceiverDeserializer {
                receiver: recv2,
                stage: ObjectStage::Value,
                ..pre
            }) && r == Err::<DeserResult<R>, DeserError>(e),
        })
}

/// The relation of one structural token (no member being parsed) for the
/// struct helper.
pub open spec fn helper_structural_spec<R, Recv: StructHelperReceiverTrait<R>>(
    pre: StructHelperReceiverDeserializer<R, Recv>,
    post: StructHelperReceiverDeserializer<R, Recv>,
    token: Token,
    r: Result<DeserResult<R>, DeserError>,
) -> bool
    decreases 2int,
{
    match token.info {
        TokenInfo::ObjectStart => if pre.stage == ObjectStage::NotStarted {
            post == (StructHelperReceiverDeserializer { stage: ObjectStage::WaitKey, ..pre }) && r
                == Ok::<DeserResult<R>, DeserError>(DeserResult::Continue)
        } else if pre.stage == ObjectStage::WaitValue && pre.key is Some {
            // a nested object opens: it is the member value's first token
            helper_first_value_spec(pre, pre.key->0@, post, token, r)
        } else {
            post == pre && r == Err::<DeserResult<R>, DeserError>(DeserError::ExpectObject)
        },
        TokenInfo::ObjectEnd => if pre.stage == ObjectStage::WaitKey || pre.stage
            == ObjectStage::ValueEnd {
            exists|recv2: Recv, re: Result<R, DeserError>|
                #[trigger] pre.receiver.end_spec(recv2, re) && post
                    == (StructHelperReceiverDeserializer {
                    receiver: recv2,
                    stage: ObjectStage::End,
                    ..pre
                }) && r == (match re {
                    Ok(v) => Ok::<DeserResult<R>, DeserError>(DeserResult::Complete(v)),
                    Err(e) => Err(e),
                })
        } else {
            post == pre && r == Err::<DeserResult<R>, DeserError>(DeserError::ExpectObject)
        },
        TokenInfo::ObjectValueStart => if pre.stage == ObjectStage::KeyEnd {
            post == (StructHelperReceiverDeserializer { stage: ObjectStage::WaitValue, ..pre })
                && r == Ok::<DeserResult<R>, DeserError>(DeserResult::Continue)
        } else {
            post == pre && r == Err::<DeserResult<R>, DeserError>(DeserError::ExpectObject)
        },
        TokenInfo::ObjectNext => if pre.stage == ObjectStage::ValueEnd {
            post == (StructHelperReceiverDeserializer { stage: ObjectStage::WaitKey, ..pre }) && r
                == Ok::<DeserResult<R>, DeserError>(DeserResult::Continue)
        } else {
            post == pre && r == Err::<DeserResult<R>, DeserError>(DeserError::ExpectObject)
        },
        _ => if is_space_info(token.info) {
            post == pre && r == Ok::<DeserResult<R>, DeserError>(DeserResult::Continue)
        } else if pre.stage == ObjectStage::WaitKey {
            exists|kd: KeyDeserializer, kd2: KeyDeserializer, rs: Result<
                DeserResult<String>,
                DeserError,
            >|
                fresh_key_spec(kd) && #[trigger] kd.feed_spec(kd2, token, rs) && (match rs {
                    Ok(DeserResult::Continue) => post == (StructHelperReceiverDeserializer {
                        key_sub: Some(kd2),
                        stage: ObjectStage::Key,
                        ..pre
                    }) && r == Ok::<DeserResult<R>, DeserError>(DeserResult::Continue),
                    Ok(DeserResult::Complete(k)) => post == (StructHelperReceiverDeserializer {
                        key_sub: None,
                        key: Some(k),
                        stage: ObjectStage::KeyEnd,
                        ..pre
                    }) && r == Ok::<DeserResult<R>, DeserError>(DeserResult::Continue),
                    Ok(DeserResult::CompleteWithRollback(_)) => post
                        == (StructHelperReceiverDeserializer {
                        key_sub: Some(kd2),
                        stage: ObjectStage::Key,
                        ..pre
                    }) && r == Err::<DeserResult<R>, DeserError>(DeserError::ExpectValue),
                    Err(e) => post == (StructHelperReceiverDeserializer {
                        key_sub: Some(kd2),
                        stage: ObjectStage::Key,
                        ..pre
                    }) && r == Err::<DeserResult<R>, DeserError>(e),
                })
        } else if pre.stage == ObjectStage::WaitValue && pre.key is Some {
            helper_first_value_spec(pre, pre.key->0@, post, token, r)
        } else {
            post == pre && r == Err::<DeserResult<R>, DeserError>(DeserError::ExpectObject)
        },
    }
}

/// The state a fresh key deserializer is in.
pub open spec fn fresh_key_spec(kd: KeyDeserializer) -> bool {
    kd.receiver.string@ == Seq::<char>::empty()
}

/// The relation of one fed token for the struct helper.
pub open spec fn helper_feed_spec<R, Recv: StructHelperReceiverTrait<R>>(
    pre: StructHelperReceiverDeserializer<R, Recv>,
    post: StructHelperReceiverDeserializer<R, Recv>,
    token: Token,
    r: Result<DeserResult<R>, DeserError>,
) -> bool {
    if pre.stage == ObjectStage::Key && pre.key_sub is Some {
        exists|kd2: KeyDeserializer, rs: Result<DeserResult<String>, DeserError>|
            #[trigger] pre.key_sub->0.feed_spec(kd2, token, rs) && (match rs {
                Ok(DeserResult::Continue) => post == (StructHelperReceiverDeserializer {
                    key_sub: Some(kd2),
                    ..pre
                }) && r == Ok::<DeserResult<R>, DeserError>(DeserResult::Continue),
                Ok(DeserResult::Complete(k)) => post == (StructHelperReceiverDeserializer {
                    key_sub: None,
                    key: Some(k),
                    stage: ObjectStage::KeyEnd,
                    ..pre
                }) && r == Ok::<DeserResult<R>, DeserError>(DeserResult::Continue),
                Ok(DeserResult::CompleteWithRollback(k)) => helper_structural_spec(
                    StructHelperReceiverDeserializer {
                        key_sub: None,
                        key: Some(k),
                        stage: ObjectStage::KeyEnd,
                        ..pre
                    },
                    post,
                    token,
                    r,
                ),
                Err(e) => post == (StructHelperReceiverDeserializer { key_sub: Some(kd2), ..pre })
                    && r == Err::<DeserResult<R>, DeserError>(e),
            })
    } else if pre.stage == ObjectStage::Value {
        helper_value_token_spec(pre, post, token, r, false)
    } else {
        helper_structural_spec(pre, post, token, r)
    }
}

impl<R, Recv: StructHelperReceiverTrait<R>> StructHelperReceiverDeserializer<R, Recv> {
    /// Handle a structural token with no member being parsed.
    fn feed_structural(&mut self, token: Token) -> (r: Result<DeserResult<R>, DeserError>)
        requires
            old(self).receiver.inv(),
        ensures
            final(self).receiver.inv(),
            helper_structural_spec(*old(self), *final(self), token, r),
        decreases 2int,
    {
        match token.info {
            TokenInfo::ObjectStart => if self.stage == ObjectStage::NotStarted {
                self.stage = ObjectStage::WaitKey;
                Ok(DeserResult::Continue)
            } else if self.stage == ObjectStage::WaitValue && self.key.is_some() {
                let key = self.key.take().unwrap();
                let rs = self.receiver.start_value(key.as_str());
                match rs {
                    Ok(()) => self.feed_value_token(token, true),
                    Err(e) => Err(e),
                }
            } else {
                Err(DeserError::ExpectObject)
            },
            TokenInfo::ObjectEnd => if self.stage == ObjectStage::WaitKey || self.stage
                == ObjectStage::ValueEnd {
                let re = self.receiver.end();
                self.stage = ObjectStage::End;
                match re {
                    Ok(v) => Ok(DeserResult::Complete(v)),
                    Err(e) => Err(e),
                }
            } else {
                Err(DeserError::ExpectObject)
            },
            TokenInfo::ObjectValueStart => if self.stage == ObjectStage::KeyEnd {
                self.stage = ObjectStage::WaitValue;
                Ok(DeserResult::Continue)
            } else {
                Err(DeserError::ExpectObject)
            },
            TokenInfo::ObjectNext => if self.stage == ObjectStage::ValueEnd {
                self.stage = ObjectStage::WaitKey;
                Ok(DeserResult::Continue)
            } else {
                Err(DeserError::ExpectObject)
            },
            _ => if token.is_space() {
                Ok(DeserResult::Continue)
            } else if self.stage == ObjectStage::WaitKey {
                let mut kd: KeyDeserializer = crate::deserialize::drivers::create_string_deserializer(
                    StringReceiver { string: String::new() },
                );
                let rs = kd.feed_token(token);
                match rs {
                    Ok(DeserResult::Continue) => {
                        self.key_sub = Some(kd);
                        self.stage = ObjectStage::Key;
                        Ok(DeserResult::Continue)
                    },
                    Ok(DeserResult::Complete(k)) => {
                        self.key_sub = None;
                        self.key = Some(k);
                        self.stage = ObjectStage::KeyEnd;
                        Ok(DeserResult::Continue)
                    },
                    Ok(DeserResult::CompleteWithRollback(_)) => {
                        self.key_sub = Some(kd);
                        self.stage = ObjectStage::Key;
                        Err(DeserError::ExpectValue)
                    },
                    Err(e) => {
                        self.key_sub = Some(kd);
                        self.stage = ObjectStage::Key;
                        Err(e)
                    },
                }
            } else if self.stage == ObjectStage::WaitValue && self.key.is_some() {
                let key = self.key.take().unwrap();
                let rs = self.receiver.start_value(key.as_str());
                match rs {
                    Ok(()) => self.feed_value_token(token, true),
                    Err(e) => Err(e),
                }
            } else {
                Err(DeserError::ExpectObject)
            },
        }
    }

    /// Hand one value token to the receiver.
    fn feed_value_token(&mut self, token: Token, first: bool) -> (r: Result<
        DeserResult<R>,
        DeserError,
    >)
        requires
            old(self).receiver.inv(),
        ensures
            final(self).receiver.inv(),
            helper_value_token_spec(*old(self), *final(self), token, r, first),
        decreases (if first {
            0int
        } else {
            3int
        }),
    {
        let rs = self.receiver.feed_value(token);
        match rs {
            Ok(DeserResult::Continue) => {
                self.stage = ObjectStage::Value;
                Ok(DeserResult::Continue)
            },
            Ok(DeserResult::Complete(())) => {
                self.stage = ObjectStage::ValueEnd;
                Ok(DeserResult::Continue)
            },
            Ok(DeserResult::CompleteWithRollback(())) => {
                if first {
                    self.stage = ObjectStage::Value;
                    Err(DeserError::ExpectValue)
                } else {
                    self.stage = ObjectStage::ValueEnd;
                    self.feed_structural(token)
                }
            },
            Err(e) => {
                self.stage = ObjectStage::Value;
                Err(e)
            },
        }
    }
}

impl<R, Recv: StructHelperReceiverTrait<R>> Deserializer<R> for StructHelperReceiverDeserializer<
    R,
    Recv,
> {
    open spec fn inv(&self) -> bool {
        helper_inv(*self)
    }

    open spec fn feed_spec(
        &self,
        post: Self,
        token: Token,
        r: Result<DeserResult<R>, DeserError>,
    ) -> bool {
        helper_feed_spec(*self, post, token, r)
    }

    fn feed_token(&mut self, token: Token) -> (r: Result<DeserResult<R>, DeserError>) {
        if self.stage == ObjectStage::Key && self.key_sub.is_some() {
            let mut kd = self.key_sub.take().unwrap();
            let rs = kd.feed_token(token);
            match rs {
                Ok(DeserResult::Continue) => {
                    self.key_sub = Some(kd);
                    Ok(DeserResult::Continue)
                },
                Ok(DeserResult::Complete(k)) => {
                    self.key_sub = None;
                    self.key = Some(k);
                    self.stage = ObjectStage::KeyEnd;
                    Ok(DeserResult::Continue)
                },
                Ok(DeserResult::CompleteWithRollback(k)) => {
                    self.key_sub = None;
                    self.key = Some(k);
                    self.stage = ObjectStage::KeyEnd;
                    self.feed_structural(token)
                },
                Err(e) => {
                    self.key_sub = Some(kd);
                    Err(e)
                },
            }
        } else if self.stage == ObjectStage::Value {
            self.feed_value_token(token, false)
        } else {
            self.feed_structural(token)
        }
    }
}

/// A struct helper around the given receiver.
pub fn create_struct_helper_deserializer<R, Recv: StructHelperReceiverTrait<R>>(receiver: Recv)
    -> (r: StructHelperReceiverDeserializer<R, Recv>)
    ensures
        r.receiver == receiver,
        r.key_sub is None,
        r.key is None,
        r.stage == ObjectStage::NotStarted,
{
    StructHelperReceiverDeserializer {
        receiver,
        key_sub: None,
        key: None,
        stage: ObjectStage::NotStarted,
        _marker: core::marker::PhantomData,
    }
}

} // verus!
