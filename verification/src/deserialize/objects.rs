//! The object driver: drives a key deserializer and a value deserializer
//! for each member, handing the pairs to a receiver.

use vstd::prelude::*;

use core::marker::PhantomData;

use std::collections::BTreeMap;
use std::collections::HashMap;

use crate::deserialize::{DefaultDeserializable, DeserError, DeserResult, Deserializer};
use crate::token::{is_space_info, Token, TokenInfo};

verus! {

/// What an object deserializer hands its receiver: a fresh key
/// deserializer for each member, a fresh value deserializer for the
/// member's key, each completed pair, and an end that yields the result.
pub trait ObjectReceiverTrait<K, V, R, KD: Deserializer<K>, VD: Deserializer<V>>: Sized {
    /// Whether the receiver's state is well formed.
    spec fn inv(&self) -> bool;

    /// What `create_key` does.
    spec fn create_key_spec(&self, post: Self, r: Result<KD, DeserError>) -> bool;

    /// What `create_value` does.
    spec fn create_value_spec(&self, post: Self, key: K, r: Result<VD, DeserError>) -> bool;

    /// What `set` does.
    spec fn set_spec(&self, post: Self, key: K, value: V, r: Result<(), DeserError>) -> bool;

    /// What `end` does.
    spec fn end_spec(&self, post: Self, r: Result<R, DeserError>) -> bool;

    /// A fresh deserializer for the next key.
    fn create_key(&mut self) -> (r: Result<KD, DeserError>)
        requires
            old(self).inv(),
        ensures
            final(self).inv(),
            old(self).create_key_spec(*final(self), r),
            r matches Ok(kd) ==> kd.inv(),
    ;

    /// A fresh deserializer for the value of the given key.
    fn create_value(&mut self, key: &K) -> (r: Result<VD, DeserError>)
        requires
            old(self).inv(),
        ensures
            final(self).inv(),
            old(self).create_value_spec(*final(self), *key, r),
            r matches Ok(vd) ==> vd.inv(),
    ;

    /// One completed member.
    fn set(&mut self, key: K, value: V) -> (r: Result<(), DeserError>)
        requires
            old(self).inv(),
        ensures
            final(self).inv(),
            old(self).set_spec(*final(self), key, value, r),
    ;

    /// The object closes; the receiver yields the result.
    fn end(&mut self) -> (r: Result<R, DeserError>)
        requires
            old(self).inv(),
        ensures
            final(self).inv(),
            old(self).end_spec(*final(self), r),
    ;
}

/// Where the object driver stands.
#[derive(Debug, Clone, Copy, PartialEq, Eq, Structural)]
pub enum ObjectStage {
    /// no opening brace yet
    NotStarted,
    /// a key (or the close) wanted
    WaitKey,
    /// inside a key, driven by the key deserializer
    Key,
    /// after a key: the colon wanted
    KeyEnd,
    /// after the colon: a value wanted
    WaitValue,
    /// inside a value, driven by the value deserializer
    Value,
    /// after a member: a comma or the close wanted
    ValueEnd,
    /// closed
    End,
}

/// A deserializer for objects, generic in the receiver, the key
/// deserializer and the value deserializer.
pub struct ObjectReceiverDeserializer<K, V, R, Recv, KD, VD> {
    /// the receiver the members are handed to
    pub receiver: Recv,
    /// the key deserializer of the member being parsed
    pub key_sub: Option<KD>,
    /// the value deserializer of the member being parsed
    pub value_sub: Option<VD>,
    /// the completed key, kept until the value completes
    pub key: Option<K>,
    /// where the driver stands
    pub stage: ObjectStage,
    pub _marker: PhantomData<(V, R)>,
}

/// The invariant of the object driver.
pub open spec fn object_inv<
    K,
    V,
    R,
    Recv: ObjectReceiverTrait<K, V, R, KD, VD>,
    KD: Deserializer<K>,
    VD: Deserializer<V>,
>(d: ObjectReceiverDeserializer<K, V, R, Recv, KD, VD>) -> bool {
    &&& d.receiver.inv()
    &&& (d.key_sub matches Some(kd) ==> kd.inv())
    &&& (d.value_sub matches Some(vd) ==> vd.inv())
}

/// The relation of one structural token (no child running) for the
/// object driver.
pub open spec fn object_structural_spec<
    K,
    V,
    R,
    Recv: ObjectReceiverTrait<K, V, R, KD, VD>,
    KD: Deserializer<K>,
    VD: Deserializer<V>,
>(
    pre: ObjectReceiverDeserializer<K, V, R, Recv, KD, VD>,
    post: ObjectReceiverDeserializer<K, V, R, Recv, KD, VD>,
    token: Token,
    r: Result<DeserResult<R>, DeserError>,
) -> bool
    decreases 2int,
{
    match token.info {
        TokenInfo::ObjectStart => if pre.stage == ObjectStage::NotStarted {
            post == (ObjectReceiverDeserializer { stage: ObjectStage::WaitKey, ..pre }) && r
                == Ok::<DeserResult<R>, DeserError>(DeserResult::Continue)
        } else if pre.stage == ObjectStage::WaitValue && pre.key is Some {
            // a nested object opens: it is the member value's first token
            exists|recv2: Recv, rc: Result<VD, DeserError>|
                #[trigger] pre.receiver.create_value_spec(recv2, pre.key->0, rc) && (match rc {
                    Ok(vd) => object_first_value_spec(
                        ObjectReceiverDeserializer { receiver: recv2, ..pre },
                        vd,
                        post,
                        token,
                        r,
                    ),
                    Err(e) => post == (ObjectReceiverDeserializer { receiver: recv2, ..pre }) && r
                        == Err::<DeserResult<R>, DeserError>(e),
                })
        } else {
            post == pre && r == Err::<DeserResult<R>, DeserError>(DeserError::ExpectObject)
        },
        TokenInfo::ObjectEnd => if pre.stage == ObjectStage::WaitKey || pre.stage
            == ObjectStage::ValueEnd {
            exists|recv2: Recv, re: Result<R, DeserError>|
                #[trigger] pre.receiver.end_spec(recv2, re) && post
                    == (ObjectReceiverDeserializer {
                    receiver: recv2,
                    stage: ObjectStage::End,
                    ..pre
                }) && r == (match re {
                    Ok(v) => Ok::<DeserResult<R>, DeserError>(DeserResult::Complete(v)),
                    Err(e) => Err(e),
                })
        } else {
            post == pre && r == Err::<DeserResult<R>, DeserError>(DeserError::ExpectObject)
        },
        TokenInfo::ObjectValueStart => if pre.stage == ObjectStage::KeyEnd {
            post == (ObjectReceiverDeserializer { stage: ObjectStage::WaitValue, ..pre }) && r
                == Ok::<DeserResult<R>, DeserError>(DeserResult::Continue)
        } else {
            post == pre && r == Err::<DeserResult<R>, DeserError>(DeserError::ExpectObject)
        },
        TokenInfo::ObjectNext => if pre.stage == ObjectStage::ValueEnd {
            post == (ObjectReceiverDeserializer { stage: ObjectStage::WaitKey, ..pre }) && r
                == Ok::<DeserResult<R>, DeserError>(DeserResult::Continue)
        } else {
            post == pre && r == Err::<DeserResult<R>, DeserError>(DeserError::ExpectObject)
        },
        _ => if is_space_info(token.info) {
            post == pre && r == Ok::<DeserResult<R>, DeserError>(DeserResult::Continue)
        } else if pre.stage == ObjectStage::WaitKey {
            exists|recv2: Recv, rc: Result<KD, DeserError>|
                #[trigger] pre.receiver.create_key_spec(recv2, rc) && (match rc {
                    Ok(kd) => object_first_key_spec(
                        ObjectReceiverDeserializer { receiver: recv2, ..pre },
                        kd,
                        post,
                        token,
                        r,
                    ),
                    Err(e) => post == (ObjectReceiverDeserializer { receiver: recv2, ..pre }) && r
                        == Err::<DeserResult<R>, DeserError>(e),
                })
        } else if pre.stage == ObjectStage::WaitValue && pre.key is Some {
            exists|recv2: Recv, rc: Result<VD, DeserError>|
                #[trigger] pre.receiver.create_value_spec(recv2, pre.key->0, rc) && (match rc {
                    Ok(vd) => object_first_value_spec(
                        ObjectReceiverDeserializer { receiver: recv2, ..pre },
                        vd,
                        post,
                        token,
                        r,
                    ),
                    Err(e) => post == (ObjectReceiverDeserializer { receiver: recv2, ..pre }) && r
                        == Err::<DeserResult<R>, DeserError>(e),
                })
        } else {
            post == pre && r == Err::<DeserResult<R>, DeserError>(DeserError::ExpectObject)
        },
    }
}

/// The relation of the first token of a new key.
pub open spec fn object_first_key_spec<
    K,
    V,
    R,
    Recv: ObjectReceiverTrait<K, V, R, KD, VD>,
    KD: Deserializer<K>,
    VD: Deserializer<V>,
>(
    pre: ObjectReceiverDeserializer<K, V, R, Recv, KD, VD>,
    kd: KD,
    post: ObjectReceiverDeserializer<K, V, R, Recv, KD, VD>,
    token: Token,
    r: Result<DeserResult<R>, DeserError>,
) -> bool
    decreases 1int,
{
    exists|kd2: KD, rs: Result<DeserResult<K>, DeserError>|
        #[trigger] kd.feed_spec(kd2, token, rs) && (match rs {
            Ok(DeserResult::Continue) => post == (ObjectReceiverDeserializer {
                key_sub: Some(kd2),
                stage: ObjectStage::Key,
                ..pre
            }) && r == Ok::<DeserResult<R>, DeserError>(DeserResult::Continue),
            Ok(DeserResult::Complete(k)) => post == (ObjectReceiverDeserializer {
                key_sub: None,
                key: Some(k),
                stage: ObjectStage::KeyEnd,
                ..pre
            }) && r == Ok::<DeserResult<R>, DeserError>(DeserResult::Continue),
            Ok(DeserResult::CompleteWithRollback(_)) => post == (ObjectReceiverDeserializer {
                key_sub: Some(kd2),
                stage: ObjectStage::Key,
                ..pre
            }) && r == Err::<DeserResult<R>, DeserError>(DeserError::ExpectValue),
            Err(e) => post == (ObjectReceiverDeserializer {
                key_sub: Some(kd2),
                stage: ObjectStage::Key,
                ..pre
            }) && r == Err::<DeserResult<R>, DeserError>(e),
        })
}

/// The relation of the first token of a new value.
pub open spec fn object_first_value_spec<
    K,
    V,
    R,
    Recv: ObjectReceiverTrait<K, V, R, KD, VD>,
    KD: Deserializer<K>,
    VD: Deserializer<V>,
>(
    pre: ObjectReceiverDeserializer<K, V, R, Recv, KD, VD>,
    vd: VD,
    post: ObjectReceiverDeserializer<K, V, R, Recv, KD, VD>,
    token: Token,
    r: Result<DeserResult<R>, DeserError>,
) -> bool
    decreases 1int,
{
    exists|vd2: VD, rs: Result<DeserResult<V>, DeserError>|
        #[trigger] vd.feed_spec(vd2, token, rs) && (match rs {
            Ok(DeserResult::Continue) => post == (ObjectReceiverDeserializer {
                value_sub: Some(vd2),
                stage: ObjectStage::Value,
                ..pre
            }) && r == Ok::<DeserResult<R>, DeserError>(DeserResult::Continue),
            Ok(DeserResult::Complete(v)) => pre.key is Some && object_set_spec(
                pre,
                pre.key->0,
                v,
                post,
                token,
                r,
                false,
            ),
            Ok(DeserResult::CompleteWithRollback(_)) => post == (ObjectReceiverDeserializer {
                value_sub: Some(vd2),
                stage: ObjectStage::Value,
                ..pre
            }) && r == Err::<DeserResult<R>, DeserError>(DeserError::ExpectValue),
            Err(e) => post == (ObjectReceiverDeserializer {
                value_sub: Some(vd2),
                stage: ObjectStage::Value,
                ..pre
            }) && r == Err::<DeserResult<R>, DeserError>(e),
        })
}

/// The relation of storing one completed member: the receiver takes the
/// pair; on a rollback the token is then replayed as a structural token.
pub open spec fn object_set_spec<
    K,
    V,
    R,
    Recv: ObjectReceiverTrait<K, V, R, KD, VD>,
    KD: Deserializer<K>,
    VD: Deserializer<V>,
>(
    pre: ObjectReceiverDeserializer<K, V, R, Recv, KD, VD>,
    k: K,
    v: V,
    post: ObjectReceiverDeserializer<K, V, R, Recv, KD, VD>,
    token: Token,
    r: Result<DeserResult<R>, DeserError>,
    rollback: bool,
) -> bool
    decreases (if rollback {
        3int
    } else {
        0int
    }),
{
    exists|recv2: Recv, ra: Result<(), DeserError>|
        #[trigger] pre.receiver.set_spec(recv2, k, v, ra) && (match ra {
            Ok(()) => if rollback {
                object_structural_spec(object_stored(pre, recv2), post, token, r)
            } else {
                post == object_stored(pre, recv2) && r == Ok::<DeserResult<R>, DeserError>(
                    DeserResult::Continue,
                )
            },
            Err(e2) => post == object_stored(pre, recv2) && r == Err::<
                DeserResult<R>,
                DeserError,
            >(e2),
        })
}

/// The state of the object driver once a member is stored.
pub open spec fn object_stored<K, V, R, Recv, KD, VD>(
    pre: ObjectReceiverDeserializer<K, V, R, Recv, KD, VD>,
    recv2: Recv,
) -> ObjectReceiverDeserializer<K, V, R, Recv, KD, VD> {
    ObjectReceiverDeserializer {
        receiver: recv2,
        value_sub: None,
        key: None,
        stage: ObjectStage::ValueEnd,
        ..pre
    }
}

impl<
    K,
    V,
    R,
    Recv: ObjectReceiverTrait<K, V, R, KD, VD>,
    KD: Deserializer<K>,
    VD: Deserializer<V>,
> ObjectReceiverDeserializer<K, V, R, Recv, KD, VD> {
    /// Handle a structural token with no child running.
    fn feed_structural(&mut self, token: Token) -> (r: Result<DeserResult<R>, DeserError>)
        requires
            old(self).receiver.inv(),
            old(self).key_sub matches Some(kd) ==> kd.inv(),
            old(self).value_sub matches Some(vd) ==> vd.inv(),
        ensures
            object_inv(*final(self)),
            object_structural_spec(*old(self), *final(self), token, r),
    {
        match token.info {
            TokenInfo::ObjectStart => if self.stage == ObjectStage::NotStarted {
                self.stage = ObjectStage::WaitKey;
                Ok(DeserResult::Continue)
            } else if self.stage == ObjectStage::WaitValue && self.key.is_some() {
                self.start_member_value(token)
            } else {
                Err(DeserError::ExpectObject)
            },
            TokenInfo::ObjectEnd => if self.stage == ObjectStage::WaitKey || self.stage
                == ObjectStage::ValueEnd {
                let re = self.receiver.end();
                self.stage = ObjectStage::End;
                match re {
                    Ok(v) => Ok(DeserResult::Complete(v)),
                    Err(e) => Err(e),
                }
            } else {
                Err(DeserError::ExpectObject)
            },
            TokenInfo::ObjectValueStart => if self.stage == ObjectStage::KeyEnd {
                self.stage = ObjectStage::WaitValue;
                Ok(DeserResult::Continue)
            } else {
                Err(DeserError::ExpectObject)
            },
            TokenInfo::ObjectNext => if self.stage == ObjectStage::ValueEnd {
                self.stage = ObjectStage::WaitKey;
                Ok(DeserResult::Continue)
            } else {
                Err(DeserError::ExpectObject)
            },
            _ => if token.is_space() {
                Ok(DeserResult::Continue)
            } else if self.stage == ObjectStage::WaitKey {
                match self.receiver.create_key() {
                    Ok(mut kd) => {
                        let rs = kd.feed_token(token);
                        match rs {
                            Ok(DeserResult::Continue) => {
                                self.key_sub = Some(kd);
                                self.stage = ObjectStage::Key;
                                Ok(DeserResult::Continue)
                            },
                            Ok(DeserResult::Complete(k)) => {
                                self.key_sub = None;
                                self.key = Some(k);
                                self.stage = ObjectStage::KeyEnd;
                                Ok(DeserResult::Continue)
                            },
                            Ok(DeserResult::CompleteWithRollback(_)) => {
                                self.key_sub = Some(kd);
                                self.stage = ObjectStage::Key;
                                Err(DeserError::ExpectValue)
                            },
                            Err(e) => {
                                self.key_sub = Some(kd);
                                self.stage = ObjectStage::Key;
                                Err(e)
                            },
                        }
                    },
                    Err(e) => Err(e),
                }
            } else if self.stage == ObjectStage::WaitValue && self.key.is_some() {
                self.start_member_value(token)
            } else {
                Err(DeserError::ExpectObject)
            },
        }
    }

    /// Open a member's value: a fresh value deserializer gets the token.
    fn start_member_value(&mut self, token: Token) -> (r: Result<DeserResult<R>, DeserError>)
        requires
            old(self).receiver.inv(),
            old(self).key_sub matches Some(kd) ==> kd.inv(),
            old(self).value_sub matches Some(vd) ==> vd.inv(),
            old(self).stage == ObjectStage::WaitValue,
            old(self).key is Some,
        ensures
            object_inv(*final(self)),
            exists|recv2: Recv, rc: Result<VD, DeserError>|
                #[trigger] old(self).receiver.create_value_spec(recv2, old(self).key->0, rc) && (
                match rc {
                    Ok(vd) => object_first_value_spec(
                        ObjectReceiverDeserializer { receiver: recv2, ..*old(self) },
                        vd,
                        *final(self),
                        token,
                        r,
                    ),
                    Err(e) => *final(self) == (ObjectReceiverDeserializer {
                        receiver: recv2,
                        ..*old(self)
                    }) && r == Err::<DeserResult<R>, DeserError>(e),
                }),
    {
        let rc = match &self.key {
            Some(k) => self.receiver.create_value(k),
            None => Err(DeserError::ExpectObject),
        };
        match rc {
            Ok(mut vd) => {
                let rs = vd.feed_token(token);
                match rs {
                    Ok(DeserResult::Continue) => {
                        self.value_sub = Some(vd);
                        self.stage = ObjectStage::Value;
                        Ok(DeserResult::Continue)
                    },
                    Ok(DeserResult::Complete(v)) => {
                        let k = self.key.take().unwrap();
                        self.value_sub = None;
                        self.stage = ObjectStage::ValueEnd;
                        match self.receiver.set(k, v) {
                            Ok(()) => Ok(DeserResult::Continue),
                            Err(e2) => Err(e2),
                        }
                    },
                    Ok(DeserResult::CompleteWithRollback(_)) => {
                        self.value_sub = Some(vd);
                        self.stage = ObjectStage::Value;
                        Err(DeserError::ExpectValue)
                    },
                    Err(e) => {
                        self.value_sub = Some(vd);
                        self.stage = ObjectStage::Value;
                        Err(e)
                    },
                }
            },
            Err(e) => Err(e),
        }
    }
}

/// The relation of one fed token for the object driver.
pub open spec fn object_feed_spec<
    K,
    V,
    R,
    Recv: ObjectReceiverTrait<K, V, R, KD, VD>,
    KD: Deserializer<K>,
    VD: Deserializer<V>,
>(
    pre: ObjectReceiverDeserializer<K, V, R, Recv, KD, VD>,
    post: ObjectReceiverDeserializer<K, V, R, Recv, KD, VD>,
    token: Token,
    r: Result<DeserResult<R>, DeserError>,
) -> bool {
    if pre.stage == ObjectStage::Key && pre.key_sub is Some {
        exists|kd2: KD, rs: Result<DeserResult<K>, DeserError>|
            #[trigger] pre.key_sub->0.feed_spec(kd2, token, rs) && (match rs {
                Ok(DeserResult::Continue) => post == (ObjectReceiverDeserializer {
                    key_sub: Some(kd2),
                    ..pre
                }) && r == Ok::<DeserResult<R>, DeserError>(DeserResult::Continue),
                Ok(DeserResult::Complete(k)) => post == (ObjectReceiverDeserializer {
                    key_sub: None,
                    key: Some(k),
                    stage: ObjectStage::KeyEnd,
                    ..pre
                }) && r == Ok::<DeserResult<R>, DeserError>(DeserResult::Continue),
                Ok(DeserResult::CompleteWithRollback(k)) => object_structural_spec(
                    ObjectReceiverDeserializer {
                        key_sub: None,
                        key: Some(k),
                        stage: ObjectStage::KeyEnd,
                        ..pre
                    },
                    post,
                    token,
                    r,
                ),
                Err(e) => post == (ObjectReceiverDeserializer { key_sub: Some(kd2), ..pre }) && r
                    == Err::<DeserResult<R>, DeserError>(e),
            })
    } else if pre.stage == ObjectStage::Value && pre.value_sub is Some && pre.key is Some {
        exists|vd2: VD, rs: Result<DeserResult<V>, DeserError>|
            #[trigger] pre.value_sub->0.feed_spec(vd2, token, rs) && (match rs {
                Ok(DeserResult::Continue) => post == (ObjectReceiverDeserializer {
                    value_sub: Some(vd2),
                    ..pre
                }) && r == Ok::<DeserResult<R>, DeserError>(DeserResult::Continue),
                Ok(DeserResult::Complete(v)) => object_set_spec(
                    pre,
                    pre.key->0,
                    v,
                    post,
                    token,
                    r,
                    false,
                ),
                Ok(DeserResult::CompleteWithRollback(v)) => object_set_spec(
                    pre,
                    pre.key->0,
                    v,
                    post,
                    token,
                    r,
                    true,
                ),
                Err(e) => post == (ObjectReceiverDeserializer { value_sub: Some(vd2), ..pre })
                    && r == Err::<DeserResult<R>, DeserError>(e),
            })
    } else {
        object_structural_spec(pre, post, token, r)
    }
}

impl<
    K,
    V,
    R,
    Recv: ObjectReceiverTrait<K, V, R, KD, VD>,
    KD: Deserializer<K>,
    VD: Deserializer<V>,
> Deserializer<R> for ObjectReceiverDeserializer<K, V, R, Recv, KD, VD> {
    open spec fn inv(&self) -> bool {
        object_inv(*self)
    }

    open spec fn feed_spec(
        &self,
        post: Self,
        token: Token,
        r: Result<DeserResult<R>, DeserError>,
    ) -> bool {
        object_feed_spec(*self, post, token, r)
    }

    fn feed_token(&mut self, token: Token) -> (r: Result<DeserResult<R>, DeserError>) {
        if self.stage == ObjectStage::Key && self.key_sub.is_some() {
            let mut kd = self.key_sub.take().unwrap();
            let rs = kd.feed_token(token);
            match rs {
                Ok(DeserResult::Continue) => {
                    self.key_sub = Some(kd);
                    Ok(DeserResult::Continue)
                },
                Ok(DeserResult::Complete(k)) => {
                    self.key_sub = None;
                    self.key = Some(k);
                    self.stage = ObjectStage::KeyEnd;
                    Ok(DeserResult::Continue)
                },
                Ok(DeserResult::CompleteWithRollback(k)) => {
                    self.key_sub = None;
                    self.key = Some(k);
                    self.stage = ObjectStage::KeyEnd;
                    self.feed_structural(token)
                },
                Err(e) => {
                    self.key_sub = Some(kd);
                    Err(e)
                },
            }
        } else if self.stage == ObjectStage::Value && self.value_sub.is_some() && self.key.is_some(
        ) {
            let mut vd = self.value_sub.take().unwrap();
            let rs = vd.feed_token(token);
            match rs {
                Ok(DeserResult::Continue) => {
                    self.value_sub = Some(vd);
                    Ok(DeserResult::Continue)
                },
                Ok(DeserResult::Complete(v)) => {
                    let k = self.key.take().unwrap();
                    self.value_sub = None;
                    self.stage = ObjectStage::ValueEnd;
                    match self.receiver.set(k, v) {
                        Ok(()) => Ok(DeserResult::Continue),
                        Err(e2) => Err(e2),
                    }
                },
                Ok(DeserResult::CompleteWithRollback(v)) => {
                    let k = self.key.take().unwrap();
                    self.value_sub = None;
                    self.stage = ObjectStage::ValueEnd;
                    match self.receiver.set(k, v) {
                        Ok(()) => self.feed_structural(token),
                        Err(e2) => Err(e2),
                    }
                },
                Err(e) => {
                    self.value_sub = Some(vd);
                    Err(e)
                },
            }
        } else {
            self.feed_structural(token)
        }
    }
}

/// An object deserializer around the given receiver.
pub fn create_object_deserializer<
    K,
    V,
    R,
    Recv: ObjectReceiverTrait<K, V, R, KD, VD>,
    KD: Deserializer<K>,
    VD: Deserializer<V>,
>(receiver: Recv) -> (r: ObjectReceiverDeserializer<K, V, R, Recv, KD, VD>)
    ensures
        r.receiver == receiver,
        r.key_sub is None,
        r.value_sub is None,
        r.key is None,
        r.stage == ObjectStage::NotStarted,
{
    ObjectReceiverDeserializer {
        receiver,
        key_sub: None,
        value_sub: None,
        key: None,
        stage: ObjectStage::NotStarted,
        _marker: PhantomData,
    }
}

/// A receiver that collects the members into a `HashMap`: each member is
/// stored under its key, the last write winning, as far as vstd's hash
/// model speaks of the key type.
#[derive(Debug)]
pub struct HashMapReceiver<K, V> {
    /// the members received so far
    pub map: HashMap<K, V>,
}

impl<
    K: DefaultDeserializable<K> + core::hash::Hash + Eq,
    V: DefaultDeserializable<V>,
> ObjectReceiverTrait<
    K,
    V,
    HashMap<K, V>,
    K::DefaultDeserializer,
    V::DefaultDeserializer,
> for HashMapReceiver<K, V> {
    open spec fn inv(&self) -> bool {
        true
    }

    open spec fn create_key_spec(
        &self,
        post: Self,
        r: Result<K::DefaultDeserializer, DeserError>,
    ) -> bool {
        r matches Ok(kd) && K::is_default(&kd)
    }

    open spec fn create_value_spec(
        &self,
        post: Self,
        key: K,
        r: Result<V::DefaultDeserializer, DeserError>,
    ) -> bool {
        r matches Ok(vd) && V::is_default(&vd)
    }

    open spec fn set_spec(&self, post: Self, key: K, value: V, r: Result<(), DeserError>) -> bool {
        &&& r == Ok::<(), DeserError>(())
        &&& (vstd::std_specs::hash::obeys_key_model::<K>() ==> post.map@ == self.map@.insert(
            key,
            value,
        ))
    }

    open spec fn end_spec(&self, post: Self, r: Result<HashMap<K, V>, DeserError>) -> bool {
        &&& (r matches Ok(v) && v@ == self.map@)
        &&& post.map@ == Map::<K, V>::empty()
    }

    fn create_key(&mut self) -> (r: Result<K::DefaultDeserializer, DeserError>) {
        Ok(K::default_deserializer())
    }

    fn create_value(&mut self, key: &K) -> (r: Result<V::DefaultDeserializer, DeserError>) {
        Ok(V::default_deserializer())
    }

    fn set(&mut self, key: K, value: V) -> (r: Result<(), DeserError>) {
        let _ = self.map.insert(key, value);
        Ok(())
    }

    fn end(&mut self) -> (r: Result<HashMap<K, V>, DeserError>) {
        let mut out: HashMap<K, V> = HashMap::new();
        core::mem::swap(&mut out, &mut self.map);
        Ok(out)
    }
}

impl<
    K: DefaultDeserializable<K> + core::hash::Hash + Eq,
    V: DefaultDeserializable<V>,
> DefaultDeserializable<HashMap<K, V>> for HashMap<K, V> {
    type DefaultDeserializer = ObjectReceiverDeserializer<
        K,
        V,
        HashMap<K, V>,
        HashMapReceiver<K, V>,
        K::DefaultDeserializer,
        V::DefaultDeserializer,
    >;

    open spec fn is_default(
        d: &ObjectReceiverDeserializer<
            K,
            V,
            HashMap<K, V>,
            HashMapReceiver<K, V>,
            K::DefaultDeserializer,
            V::DefaultDeserializer,
        >,
    ) -> bool {
        d.stage == ObjectStage::NotStarted && d.key_sub is None && d.value_sub is None && d.key
            is None
    }

    fn default_deserializer() -> (r: ObjectReceiverDeserializer<
        K,
        V,
        HashMap<K, V>,
        HashMapReceiver<K, V>,
        K::DefaultDeserializer,
        V::DefaultDeserializer,
    >) {
        create_object_deserializer(HashMapReceiver { map: HashMap::new() })
    }
}

/// A receiver that collects the members into a `BTreeMap`: each member is
/// stored under its key, the last write winning, as far as vstd's
/// comparison model speaks of the key type.
#[derive(Debug)]
pub struct BTreeMapReceiver<K, V> {
    /// the members received so far
    pub map: BTreeMap<K, V>,
}

impl<
    K: DefaultDeserializable<K> + Ord,
    V: DefaultDeserializable<V>,
> ObjectReceiverTrait<
    K,
    V,
    BTreeMap<K, V>,
    K::DefaultDeserializer,
    V::DefaultDeserializer,
> for BTreeMapReceiver<K, V> {
    open spec fn inv(&self) -> bool {
        true
    }

    open spec fn create_key_spec(
        &self,
        post: Self,
        r: Result<K::DefaultDeserializer, DeserError>,
    ) -> bool {
        r matches Ok(kd) && K::is_default(&kd)
    }

    open spec fn create_value_spec(
        &self,
        post: Self,
        key: K,
        r: Result<V::DefaultDeserializer, DeserError>,
    ) -> bool {
        r matches Ok(vd) && V::is_default(&vd)
    }

    open spec fn set_spec(&self, post: Self, key: K, value: V, r: Result<(), DeserError>) -> bool {
        &&& r == Ok::<(), DeserError>(())
        &&& (vstd::std_specs::btree::key_obeys_cmp_spec::<K>() ==> post.map@ == self.map@.insert(
            key,
            value,
        ))
    }

    open spec fn end_spec(&self, post: Self, r: Result<BTreeMap<K, V>, DeserError>) -> bool {
        &&& (r matches Ok(v) && v@ == self.map@)
        &&& post.map@ == Map::<K, V>::empty()
    }

    fn create_key(&mut self) -> (r: Result<K::DefaultDeserializer, DeserError>) {
        Ok(K::default_deserializer())
    }

    fn create_value(&mut self, key: &K) -> (r: Result<V::DefaultDeserializer, DeserError>) {
        Ok(V::default_deserializer())
    }

    fn set(&mut self, key: K, value: V) -> (r: Result<(), DeserError>) {
        let _ = self.map.insert(key, value);
        Ok(())
    }

    fn end(&mut self) -> (r: Result<BTreeMap<K, V>, DeserError>) {
        let mut out: BTreeMap<K, V> = BTreeMap::new();
        core::mem::swap(&mut out, &mut self.map);
        Ok(out)
    }
}

impl<K: DefaultDeserializable<K> + Ord, V: DefaultDeserializable<V>> DefaultDeserializable<
    BTreeMap<K, V>,
> for BTreeMap<K, V> {
    type DefaultDeserializer = ObjectReceiverDeserializer<
        K,
        V,
        BTreeMap<K, V>,
        BTreeMapReceiver<K, V>,
        K::DefaultDeserializer,
        V::DefaultDeserializer,
    >;

    open spec fn is_default(
        d: &ObjectReceiverDeserializer<
            K,
            V,
            BTreeMap<K, V>,
            BTreeMapReceiver<K, V>,
            K::DefaultDeserializer,
            V::DefaultDeserializer,
        >,
    ) -> bool {
        d.stage == ObjectStage::NotStarted && d.key_sub is None && d.value_sub is None && d.key
            is None
    }

    fn default_deserializer() -> (r: ObjectReceiverDeserializer<
        K,
        V,
        BTreeMap<K, V>,
        BTreeMapReceiver<K, V>,
        K::DefaultDeserializer,
        V::DefaultDeserializer,
    >) {
        create_object_deserializer(BTreeMapReceiver { map: BTreeMap::new() })
    }
}

} // verus!
