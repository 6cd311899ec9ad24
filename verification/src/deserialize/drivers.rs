//! The container drivers: deserializers that own a receiver and drive it
//! from the token stream, creating child deserializers on demand.

use vstd::prelude::*;

use core::marker::PhantomData;

use crate::deserialize::{DeserError, DeserResult, Deserializer};
use crate::token::{is_space_info, Token, TokenInfo};

verus! {

/// What a string deserializer hands its receiver: a start, one character
/// at a time, and an end that yields the value.
pub trait StringReceiverTrait<R>: Sized {
    /// Whether the receiver's state is well formed.
    spec fn inv(&self) -> bool;

    /// What `start` does.
    spec fn start_spec(&self, post: Self, r: Result<(), DeserError>) -> bool;

    /// What `push` does.
    spec fn push_spec(&self, post: Self, c: char, r: Result<(), DeserError>) -> bool;

    /// What `end` does.
    spec fn end_spec(&self, post: Self, r: Result<R, DeserError>) -> bool;

    /// The string opens.
    fn start(&mut self) -> (r: Result<(), DeserError>)
        requires
            old(self).inv(),
        ensures
            final(self).inv(),
            old(self).start_spec(*final(self), r),
    ;

    /// One character of the string's value.
    fn push(&mut self, c: char) -> (r: Result<(), DeserError>)
        requires
            old(self).inv(),
        ensures
            final(self).inv(),
            old(self).push_spec(*final(self), c, r),
    ;

    /// The string closes; the receiver yields the value.
    fn end(&mut self) -> (r: Result<R, DeserError>)
        requires
            old(self).inv(),
        ensures
            final(self).inv(),
            old(self).end_spec(*final(self), r),
    ;
}

/// A deserializer for strings, generic in the receiver that accumulates
/// the characters.
#[derive(Debug)]
pub struct StringReceiverDeserializer<R, Recv> {
    /// the receiver the characters are handed to
    pub receiver: Recv,
    pub _marker: PhantomData<R>,
}

/// The relation of one fed token for the string driver: escape tokens
/// push the character they produce, the closing quote yields the value.
pub open spec fn string_feed_spec<R, Recv: StringReceiverTrait<R>>(
    pre: Recv,
    post: Recv,
    token: Token,
    r: Result<DeserResult<R>, DeserError>,
) -> bool {
    match token.info {
        TokenInfo::StringStart => exists|rr: Result<(), DeserError>|
            #[trigger] pre.start_spec(post, rr) && r == (match rr {
                Ok(()) => Ok::<DeserResult<R>, DeserError>(DeserResult::Continue),
                Err(e) => Err(e),
            }),
        TokenInfo::StringEnd => exists|rr: Result<R, DeserError>|
            #[trigger] pre.end_spec(post, rr) && r == (match rr {
                Ok(v) => Ok::<DeserResult<R>, DeserError>(DeserResult::Complete(v)),
                Err(e) => Err(e),
            }),
        TokenInfo::StringNormal => exists|rr: Result<(), DeserError>|
            #[trigger] pre.push_spec(post, token.c, rr) && r == (match rr {
                Ok(()) => Ok::<DeserResult<R>, DeserError>(DeserResult::Continue),
                Err(e) => Err(e),
            }),
        TokenInfo::StringEscape(c) => exists|rr: Result<(), DeserError>|
            #[trigger] pre.push_spec(post, c, rr) && r == (match rr {
                Ok(()) => Ok::<DeserResult<R>, DeserError>(DeserResult::Continue),
                Err(e) => Err(e),
            }),
        TokenInfo::StringEscapeUnicode(_, produced) => match produced {
            Some(c) => exists|rr: Result<(), DeserError>|
                #[trigger] pre.push_spec(post, c, rr) && r == (match rr {
                    Ok(()) => Ok::<DeserResult<R>, DeserError>(DeserResult::Continue),
                    Err(e) => Err(e),
                }),
            None => post == pre && r == Ok::<DeserResult<R>, DeserError>(DeserResult::Continue),
        },
        TokenInfo::StringEscapeHex(_, produced) => match produced {
            Some(c) => exists|rr: Result<(), DeserError>|
                #[trigger] pre.push_spec(post, c, rr) && r == (match rr {
                    Ok(()) => Ok::<DeserResult<R>, DeserError>(DeserResult::Continue),
                    Err(e) => Err(e),
                }),
            None => post == pre && r == Ok::<DeserResult<R>, DeserError>(DeserResult::Continue),
        },
        TokenInfo::StringEscapeStart => post == pre && r == Ok::<DeserResult<R>, DeserError>(
            DeserResult::Continue,
        ),
        TokenInfo::StringEscapeUnicodeStart => post == pre && r == Ok::<
            DeserResult<R>,
            DeserError,
        >(DeserResult::Continue),
        TokenInfo::StringEscapeHexStart => post == pre && r == Ok::<DeserResult<R>, DeserError>(
            DeserResult::Continue,
        ),
        TokenInfo::StringNextLine => post == pre && r == Ok::<DeserResult<R>, DeserError>(
            DeserResult::Continue,
        ),
        _ => if is_space_info(token.info) {
            post == pre && r == Ok::<DeserResult<R>, DeserError>(DeserResult::Continue)
        } else {
            post == pre && r == Err::<DeserResult<R>, DeserError>(DeserError::ExpectString)
        },
    }
}

impl<R, Recv: StringReceiverTrait<R>> Deserializer<R> for StringReceiverDeserializer<R, Recv> {
    open spec fn inv(&self) -> bool {
        self.receiver.inv()
    }

    open spec fn feed_spec(
        &self,
        post: Self,
        token: Token,
        r: Result<DeserResult<R>, DeserError>,
    ) -> bool {
        string_feed_spec(self.receiver, post.receiver, token, r)
    }

    fn feed_token(&mut self, token: Token) -> (r: Result<DeserResult<R>, DeserError>) {
        match token.info {
            TokenInfo::StringStart => match self.receiver.start() {
                Ok(()) => Ok(DeserResult::Continue),
                Err(e) => Err(e),
            },
            TokenInfo::StringEnd => match self.receiver.end() {
                Ok(v) => Ok(DeserResult::Complete(v)),
                Err(e) => Err(e),
            },
            TokenInfo::StringNormal => match self.receiver.push(token.c) {
                Ok(()) => Ok(DeserResult::Continue),
                Err(e) => Err(e),
            },
            TokenInfo::StringEscape(c) => match self.receiver.push(c) {
                Ok(()) => Ok(DeserResult::Continue),
                Err(e) => Err(e),
            },
            TokenInfo::StringEscapeUnicode(_, produced) | TokenInfo::StringEscapeHex(
                _,
                produced,
            ) => match produced {
                Some(c) => match self.receiver.push(c) {
                    Ok(()) => Ok(DeserResult::Continue),
                    Err(e) => Err(e),
                },
                None => Ok(DeserResult::Continue),
            },
            TokenInfo::StringEscapeStart
            | TokenInfo::StringEscapeUnicodeStart
            | TokenInfo::StringEscapeHexStart
            | TokenInfo::StringNextLine => Ok(DeserResult::Continue),
            _ => if token.is_space() {
                Ok(DeserResult::Continue)
            } else {
                Err(DeserError::ExpectString)
            },
        }
    }
}

/// A string deserializer around the given receiver.
pub fn create_string_deserializer<R, Recv: StringReceiverTrait<R>>(receiver: Recv) -> (r:
    StringReceiverDeserializer<R, Recv>)
    ensures
        r.receiver == receiver,
{
    StringReceiverDeserializer { receiver, _marker: PhantomData }
}

/// What an array deserializer hands its receiver: a fresh child
/// deserializer for each element, each completed element, and an end that
/// yields the collection.
pub trait ArrayReceiverTrait<E, R, SD: Deserializer<E>>: Sized {
    /// Whether the receiver's state is well formed.
    spec fn inv(&self) -> bool;

    /// What `create_element` does.
    spec fn create_spec(&self, post: Self, r: Result<SD, DeserError>) -> bool;

    /// What `append` does.
    spec fn append_spec(&self, post: Self, e: E, r: Result<(), DeserError>) -> bool;

    /// What `end` does.
    spec fn end_spec(&self, post: Self, r: Result<R, DeserError>) -> bool;

    /// A fresh deserializer for the next element.
    fn create_element(&mut self) -> (r: Result<SD, DeserError>)
        requires
            old(self).inv(),
        ensures
            final(self).inv(),
            old(self).create_spec(*final(self), r),
            r matches Ok(sd) ==> sd.inv(),
    ;

    /// One completed element.
    fn append(&mut self, e: E) -> (r: Result<(), DeserError>)
        requires
            old(self).inv(),
        ensures
            final(self).inv(),
            old(self).append_spec(*final(self), e, r),
    ;

    /// The array closes; the receiver yields the collection.
    fn end(&mut self) -> (r: Result<R, DeserError>)
        requires
            old(self).inv(),
        ensures
            final(self).inv(),
            old(self).end_spec(*final(self), r),
    ;
}

/// Where the array driver stands.
#[derive(Debug, Clone, Copy, PartialEq, Eq, Structural)]
pub enum ArrayStage {
    /// no opening bracket yet
    NotStarted,
    /// an element (or the close) wanted
    WaitElement,
    /// inside an element, driven by the child deserializer
    Element,
    /// after an element: a comma or the close wanted
    ElementEnd,
    /// closed
    End,
}

/// A deserializer for arrays, generic in the receiver that collects the
/// elements and in the child deserializer that parses each element.
pub struct ArrayReceiverDeserializer<E, R, Recv, SD> {
    /// the receiver the elements are handed to
    pub receiver: Recv,
    /// the child deserializer of the element being parsed
    pub sub: Option<SD>,
    /// where the driver stands
    pub stage: ArrayStage,
    pub _marker: PhantomData<(E, R)>,
}

/// The relation of one structural token (no child running) for the array
/// driver.
pub open spec fn array_structural_spec<E, R, Recv: ArrayReceiverTrait<E, R, SD>, SD: Deserializer<
    E,
>>(
    pre: ArrayReceiverDeserializer<E, R, Recv, SD>,
    post: ArrayReceiverDeserializer<E, R, Recv, SD>,
    token: Token,
    r: Result<DeserResult<R>, DeserError>,
) -> bool
    decreases 2int,
{
    match token.info {
        TokenInfo::ArrayStart => if pre.stage == ArrayStage::NotStarted {
            post == (ArrayReceiverDeserializer { stage: ArrayStage::WaitElement, ..pre }) && r
                == Ok::<DeserResult<R>, DeserError>(DeserResult::Continue)
        } else if pre.stage == ArrayStage::WaitElement {
            // a nested array opens: it is the next element's first token
            exists|recv2: Recv, rc: Result<SD, DeserError>|
                #[trigger] pre.receiver.create_spec(recv2, rc) && (match rc {
                    Ok(sd) => array_first_token_spec(
                        ArrayReceiverDeserializer { receiver: recv2, ..pre },
                        sd,
                        post,
                        token,
                        r,
                    ),
                    Err(e) => post == (ArrayReceiverDeserializer { receiver: recv2, ..pre }) && r
                        == Err::<DeserResult<R>, DeserError>(e),
                })
        } else {
            post == pre && r == Err::<DeserResult<R>, DeserError>(DeserError::ExpectArray)
        },
        TokenInfo::ArrayEnd => if pre.stage == ArrayStage::WaitElement || pre.stage
            == ArrayStage::ElementEnd {
            exists|recv2: Recv, re: Result<R, DeserError>|
                #[trigger] pre.receiver.end_spec(recv2, re) && post == (ArrayReceiverDeserializer {
                    receiver: recv2,
                    stage: ArrayStage::End,
                    ..pre
                }) && r == (match re {
                    Ok(v) => Ok::<DeserResult<R>, DeserError>(DeserResult::Complete(v)),
                    Err(e) => Err(e),
                })
        } else {
            post == pre && r == Err::<DeserResult<R>, DeserError>(DeserError::ExpectArray)
        },
        TokenInfo::ArrayNext => if pre.stage == ArrayStage::ElementEnd {
            post == (ArrayReceiverDeserializer { stage: ArrayStage::WaitElement, ..pre }) && r
                == Ok::<DeserResult<R>, DeserError>(DeserResult::Continue)
        } else {
            post == pre && r == Err::<DeserResult<R>, DeserError>(DeserError::ExpectArray)
        },
        _ => if is_space_info(token.info) {
            post == pre && r == Ok::<DeserResult<R>, DeserError>(DeserResult::Continue)
        } else if pre.stage == ArrayStage::WaitElement {
            exists|recv2: Recv, rc: Result<SD, DeserError>|
                #[trigger] pre.receiver.create_spec(recv2, rc) && (match rc {
                    Ok(sd) => array_first_token_spec(
                        ArrayReceiverDeserializer { receiver: recv2, ..pre },
                        sd,
                        post,
                        token,
                        r,
                    ),
                    Err(e) => post == (ArrayReceiverDeserializer { receiver: recv2, ..pre }) && r
                        == Err::<DeserResult<R>, DeserError>(e),
                })
        } else {
            post == pre && r == Err::<DeserResult<R>, DeserError>(DeserError::ExpectArray)
        },
    }
}

/// The state of the array driver once an element is absorbed: the child
/// is gone and a comma or the close is wanted.
pub open spec fn array_absorbed<E, R, Recv, SD>(
    pre: ArrayReceiverDeserializer<E, R, Recv, SD>,
    recv2: Recv,
) -> ArrayReceiverDeserializer<E, R, Recv, SD> {
    ArrayReceiverDeserializer { receiver: recv2, sub: None, stage: ArrayStage::ElementEnd, ..pre }
}

/// The relation of absorbing one finished element: the receiver takes it;
/// on a rollback the token is then replayed as a structural token.
pub open spec fn array_absorb_spec<E, R, Recv: ArrayReceiverTrait<E, R, SD>, SD: Deserializer<E>>(
    pre: ArrayReceiverDeserializer<E, R, Recv, SD>,
    e: E,
    post: ArrayReceiverDeserializer<E, R, Recv, SD>,
    token: Token,
    r: Result<DeserResult<R>, DeserError>,
    rollback: bool,
) -> bool
    decreases (if rollback {
        3int
    } else {
        0int
    }),
{
    exists|recv2: Recv, ra: Result<(), DeserError>|
        #[trigger] pre.receiver.append_spec(recv2, e, ra) && (match ra {
            Ok(()) => if rollback {
                array_structural_spec(array_absorbed(pre, recv2), post, token, r)
            } else {
                post == array_absorbed(pre, recv2) && r == Ok::<DeserResult<R>, DeserError>(
                    DeserResult::Continue,
                )
            },
            Err(e2) => post == array_absorbed(pre, recv2) && r == Err::<DeserResult<R>, DeserError>(
                e2,
            ),
        })
}

/// The relation of the first token of a new element: the fresh child gets
/// the token; if the child finishes on it at once the element is stored.
pub open spec fn array_first_token_spec<
    E,
    R,
    Recv: ArrayReceiverTrait<E, R, SD>,
    SD: Deserializer<E>,
>(
    pre: ArrayReceiverDeserializer<E, R, Recv, SD>,
    sd: SD,
    post: ArrayReceiverDeserializer<E, R, Recv, SD>,
    token: Token,
    r: Result<DeserResult<R>, DeserError>,
) -> bool
    decreases 1int,
{
    exists|sd2: SD, rs: Result<DeserResult<E>, DeserError>|
        #[trigger] sd.feed_spec(sd2, token, rs) && (match rs {
            Ok(DeserResult::Continue) => post == (ArrayReceiverDeserializer {
                sub: Some(sd2),
                stage: ArrayStage::Element,
                ..pre
            }) && r == Ok::<DeserResult<R>, DeserError>(DeserResult::Continue),
            Ok(DeserResult::Complete(e)) => array_absorb_spec(pre, e, post, token, r, false),
            Ok(DeserResult::CompleteWithRollback(_)) => post == (ArrayReceiverDeserializer {
                sub: Some(sd2),
                stage: ArrayStage::Element,
                ..pre
            }) && r == Err::<DeserResult<R>, DeserError>(DeserError::ExpectValue),
            Err(e) => post == (ArrayReceiverDeserializer {
                sub: Some(sd2),
                stage: ArrayStage::Element,
                ..pre
            }) && r == Err::<DeserResult<R>, DeserError>(e),
        })
}

/// The relation of one fed token for the array driver.
pub open spec fn array_feed_spec<E, R, Recv: ArrayReceiverTrait<E, R, SD>, SD: Deserializer<E>>(
    pre: ArrayReceiverDeserializer<E, R, Recv, SD>,
    post: ArrayReceiverDeserializer<E, R, Recv, SD>,
    token: Token,
    r: Result<DeserResult<R>, DeserError>,
) -> bool {
    if pre.stage == ArrayStage::Element && pre.sub is Some {
        exists|sd2: SD, rs: Result<DeserResult<E>, DeserError>|
            #[trigger] pre.sub->0.feed_spec(sd2, token, rs) && (match rs {
                Ok(DeserResult::Continue) => post == (ArrayReceiverDeserializer {
                    sub: Some(sd2),
                    ..pre
                }) && r == Ok::<DeserResult<R>, DeserError>(DeserResult::Continue),
                Ok(DeserResult::Complete(e)) => array_absorb_spec(pre, e, post, token, r, false),
                Ok(DeserResult::CompleteWithRollback(e)) => array_absorb_spec(
                    pre,
                    e,
                    post,
                    token,
                    r,
                    true,
                ),
                Err(e) => post == (ArrayReceiverDeserializer { sub: Some(sd2), ..pre }) && r
                    == Err::<DeserResult<R>, DeserError>(e),
            })
    } else {
        array_structural_spec(pre, post, token, r)
    }
}

impl<E, R, Recv: ArrayReceiverTrait<E, R, SD>, SD: Deserializer<E>> ArrayReceiverDeserializer<
    E,
    R,
    Recv,
    SD,
> {
    /// Handle a structural token with no child running.
    fn feed_structural(&mut self, token: Token) -> (r: Result<DeserResult<R>, DeserError>)
        requires
            old(self).inv_struct(),
            old(self).sub matches Some(sd) ==> sd.inv(),
        ensures
            final(self).inv_struct(),
            final(self).sub matches Some(sd) ==> sd.inv(),
            array_structural_spec(*old(self), *final(self), token, r),
    {
        match token.info {
            TokenInfo::ArrayStart => if self.stage == ArrayStage::NotStarted {
                self.stage = ArrayStage::WaitElement;
                Ok(DeserResult::Continue)
            } else if self.stage == ArrayStage::WaitElement {
                self.start_element(token)
            } else {
                Err(DeserError::ExpectArray)
            },
            TokenInfo::ArrayEnd => if self.stage == ArrayStage::WaitElement || self.stage
                == ArrayStage::ElementEnd {
                let re = self.receiver.end();
                self.stage = ArrayStage::End;
                match re {
                    Ok(v) => Ok(DeserResult::Complete(v)),
                    Err(e) => Err(e),
                }
            } else {
                Err(DeserError::ExpectArray)
            },
            TokenInfo::ArrayNext => if self.stage == ArrayStage::ElementEnd {
                self.stage = ArrayStage::WaitElement;
                Ok(DeserResult::Continue)
            } else {
                Err(DeserError::ExpectArray)
            },
            _ => if token.is_space() {
                Ok(DeserResult::Continue)
            } else if self.stage == ArrayStage::WaitElement {
                self.start_element(token)
            } else {
                Err(DeserError::ExpectArray)
            },
        }
    }

    /// Open the next element: a fresh child deserializer gets the token.
    fn start_element(&mut self, token: Token) -> (r: Result<DeserResult<R>, DeserError>)
        requires
            old(self).inv_struct(),
            old(self).sub matches Some(sd) ==> sd.inv(),
            old(self).stage == ArrayStage::WaitElement,
        ensures
            final(self).inv_struct(),
            final(self).sub matches Some(sd) ==> sd.inv(),
            exists|recv2: Recv, rc: Result<SD, DeserError>|
                #[trigger] old(self).receiver.create_spec(recv2, rc) && (match rc {
                    Ok(sd) => array_first_token_spec(
                        ArrayReceiverDeserializer { receiver: recv2, ..*old(self) },
                        sd,
                        *final(self),
                        token,
                        r,
                    ),
                    Err(e) => *final(self) == (ArrayReceiverDeserializer {
                        receiver: recv2,
                        ..*old(self)
                    }) && r == Err::<DeserResult<R>, DeserError>(e),
                }),
    {
        match self.receiver.create_element() {
            Ok(mut sd) => {
                let rs = sd.feed_token(token);
                match rs {
                    Ok(DeserResult::Continue) => {
                        self.sub = Some(sd);
                        self.stage = ArrayStage::Element;
                        Ok(DeserResult::Continue)
                    },
                    Ok(DeserResult::Complete(e)) => {
                        self.sub = None;
                        self.stage = ArrayStage::ElementEnd;
                        match self.receiver.append(e) {
                            Ok(()) => Ok(DeserResult::Continue),
                            Err(e2) => Err(e2),
                        }
                    },
                    Ok(DeserResult::CompleteWithRollback(_)) => {
                        self.sub = Some(sd);
                        self.stage = ArrayStage::Element;
                        Err(DeserError::ExpectValue)
                    },
                    Err(e) => {
                        self.sub = Some(sd);
                        self.stage = ArrayStage::Element;
                        Err(e)
                    },
                }
            },
            Err(e) => Err(e),
        }
    }

    /// The invariant pieces that do not mention the child.
    pub open spec fn inv_struct(&self) -> bool {
        self.receiver.inv()
    }
}

impl<E, R, Recv: ArrayReceiverTrait<E, R, SD>, SD: Deserializer<E>> Deserializer<
    R,
> for ArrayReceiverDeserializer<E, R, Recv, SD> {
    open spec fn inv(&self) -> bool {
        &&& self.receiver.inv()
        &&& (self.sub matches Some(sd) ==> sd.inv())
    }

    open spec fn feed_spec(
        &self,
        post: Self,
        token: Token,
        r: Result<DeserResult<R>, DeserError>,
    ) -> bool {
        array_feed_spec(*self, post, token, r)
    }

    fn feed_token(&mut self, token: Token) -> (r: Result<DeserResult<R>, DeserError>) {
        if self.stage == ArrayStage::Element && self.sub.is_some() {
            let mut sd = self.sub.take().unwrap();
            let rs = sd.feed_token(token);
            match rs {
                Ok(DeserResult::Continue) => {
                    self.sub = Some(sd);
                    Ok(DeserResult::Continue)
                },
                Ok(DeserResult::Complete(e)) => {
                    self.sub = None;
                    self.stage = ArrayStage::ElementEnd;
                    match self.receiver.append(e) {
                        Ok(()) => Ok(DeserResult::Continue),
                        Err(e2) => Err(e2),
                    }
                },
                Ok(DeserResult::CompleteWithRollback(e)) => {
                    self.sub = None;
                    self.stage = ArrayStage::ElementEnd;
                    match self.receiver.append(e) {
                        Ok(()) => self.feed_structural(token),
                        Err(e2) => Err(e2),
                    }
                },
                Err(e) => {
                    self.sub = Some(sd);
                    Err(e)
                },
            }
        } else {
            self.feed_structural(token)
        }
    }
}

/// An array deserializer around the given receiver.
pub fn create_array_deserializer<E, R, Recv: ArrayReceiverTrait<E, R, SD>, SD: Deserializer<E>>(
    receiver: Recv,
) -> (r: ArrayReceiverDeserializer<E, R, Recv, SD>)
    ensures
        r.receiver == receiver,
        r.sub is None,
        r.stage == ArrayStage::NotStarted,
{
    ArrayReceiverDeserializer {
        receiver,
        sub: None,
        stage: ArrayStage::NotStarted,
        _marker: PhantomData,
    }
}

/// The rollback law for the array driver: a child that finishes with a
/// rollback on a token leaves the driver exactly where absorbing the
/// finished element and then replaying that token as a structural token
/// would leave it.
pub proof fn lemma_array_rollback<E, R, Recv: ArrayReceiverTrait<E, R, SD>, SD: Deserializer<E>>(
    pre: ArrayReceiverDeserializer<E, R, Recv, SD>,
    sd2: SD,
    e: E,
    recv2: Recv,
    post: ArrayReceiverDeserializer<E, R, Recv, SD>,
    token: Token,
    r: Result<DeserResult<R>, DeserError>,
)
    requires
        pre.stage == ArrayStage::Element,
        pre.sub is Some,
        // the child finishes with a rollback on this token
        pre.sub->0.feed_spec(sd2, token, Ok(DeserResult::CompleteWithRollback(e))),
        // the receiver accepts the element
        pre.receiver.append_spec(recv2, e, Ok(())),
        // replaying the token on the absorbed state behaves as `post`, `r`
        array_structural_spec(array_absorbed(pre, recv2), post, token, r),
    ensures
        array_feed_spec(pre, post, token, r),
{
    assert(pre.receiver.append_spec(recv2, e, Ok::<(), DeserError>(())));
    assert(array_structural_spec(array_absorbed(pre, recv2), post, token, r));
    assert(array_absorb_spec(pre, e, post, token, r, true));
    assert(pre.sub->0.feed_spec(
        sd2,
        token,
        Ok::<DeserResult<E>, DeserError>(DeserResult::CompleteWithRollback(e)),
    ));
}

} // verus!
