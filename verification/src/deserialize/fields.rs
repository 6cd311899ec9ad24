//! A record receiver over a declared field list: each field's value is
//! kept verbatim, every key must match a declared field, a repeated key
//! is an error, and at the close every declared field must have appeared.
//! This is the contract a generated per-record receiver implements.

use vstd::prelude::*;

use crate::deserialize::raw::{JsonRawString, JsonRawStringDeserializer, RawStage};
use crate::deserialize::structs::StructHelperReceiverTrait;
use crate::deserialize::{DeserError, DeserResult, Deserializer};
use crate::token::Token;

verus! {

/// The views of a list of field names.
pub open spec fn names_view(names: Seq<String>) -> Seq<Seq<char>> {
    names.map_values(|n: String| n@)
}

/// The declared fields never seen, in declaration order, among the first
/// `i` fields.
pub open spec fn missing_prefix(names: Seq<String>, seen: Seq<bool>, i: int) -> Seq<String>
    decreases i,
{
    if i <= 0 {
        Seq::empty()
    } else {
        missing_prefix(names, seen, i - 1) + (if 0 <= i - 1 < seen.len() && !seen[i - 1] {
            seq![names[i - 1]]
        } else {
            Seq::empty()
        })
    }
}

/// A receiver that keeps each declared field's value verbatim.
#[derive(Debug)]
pub struct RawFieldsReceiver {
    /// the declared field names, in order
    pub names: Vec<String>,
    /// which fields have appeared
    pub seen: Vec<bool>,
    /// the raw text of each field's value
    pub values: Vec<String>,
    /// the field whose value is being parsed
    pub current: usize,
    /// the deserializer of the value being parsed
    pub sub: JsonRawStringDeserializer,
}

impl RawFieldsReceiver {
    /// A fresh receiver over the given field names.
    pub fn new(names: Vec<String>) -> (r: RawFieldsReceiver)
        ensures
            r.inv(),
            r.names@ == names@,
            forall|i: int| 0 <= i < r.seen@.len() ==> !(#[trigger] r.seen@[i]),
    {
        let n = names.len();
        let mut seen: Vec<bool> = Vec::new();
        let mut values: Vec<String> = Vec::new();
        let mut i: usize = 0;
        while i < n
            invariant
                i <= n,
                seen@.len() == i,
                values@.len() == i,
                forall|j: int| 0 <= j < i ==> !(#[trigger] seen@[j]),
            decreases n - i,
        {
            seen.push(false);
            values.push(String::new());
            i = i + 1;
        }
        RawFieldsReceiver {
            names,
            seen,
            values,
            current: 0,
            sub: JsonRawStringDeserializer {
                stage: RawStage::NotStarted,
                depth: 0,
                json: String::new(),
            },
        }
    }

}

impl StructHelperReceiverTrait<Vec<String>> for RawFieldsReceiver {
    /// The three columns line up and the cursor is in range.
    open spec fn inv(&self) -> bool {
        &&& self.seen@.len() == self.names@.len()
        &&& self.values@.len() == self.names@.len()
        &&& (self.names@.len() > 0 ==> self.current < self.names@.len())
    }

    /// A key opens a member: it must match a declared field that has not
    /// appeared yet; that field is then marked as seen.
    open spec fn start_value_spec(&self, post: Self, key: Seq<char>, r: Result<(), DeserError>) -> bool {
        let nv = names_view(self.names@);
        if !(exists|i: int| 0 <= i < nv.len() && nv[i] == key) {
            &&& post == *self
            &&& (r matches Err(e) && e matches DeserError::UnknownKey(k) && k@ == key)
        } else {
            exists|i: int|
                0 <= i < nv.len() && #[trigger] nv[i] == key && if self.seen@[i] {
                    &&& post == *self
                    &&& (r matches Err(e) && e matches DeserError::RepeatedKey(k) && k@ == key)
                } else {
                    &&& post.names@ == self.names@
                    &&& post.seen@ == self.seen@.update(i, true)
                    &&& post.values@ == self.values@
                    &&& post.current == i
                    &&& post.sub.stage == RawStage::NotStarted
                    &&& post.sub.json@ == Seq::<char>::empty()
                    &&& r == Ok::<(), DeserError>(())
                }
        }
    }

    /// A value token goes to the raw deserializer; a finished value is
    /// stored under the current field.
    open spec fn feed_value_spec(
        &self,
        post: Self,
        token: Token,
        r: Result<DeserResult<()>, DeserError>,
    ) -> bool {
        exists|sub2: JsonRawStringDeserializer, rs: Result<DeserResult<JsonRawString>, DeserError>|
            #[trigger] self.sub.feed_spec(sub2, token, rs) && (match rs {
                Ok(DeserResult::Continue) => post == (RawFieldsReceiver { sub: sub2, ..*self })
                    && r == Ok::<DeserResult<()>, DeserError>(DeserResult::Continue),
                Ok(DeserResult::Complete(v)) => if self.current < self.values@.len() {
                    &&& post.names@ == self.names@
                    &&& post.seen@ == self.seen@
                    &&& post.current == self.current
                    &&& post.sub == sub2
                    &&& post.values@ == self.values@.update(self.current as int, v.json)
                    &&& r == Ok::<DeserResult<()>, DeserError>(DeserResult::Complete(()))
                } else {
                    post == (RawFieldsReceiver { sub: sub2, ..*self }) && r == Err::<
                        DeserResult<()>,
                        DeserError,
                    >(DeserError::ExpectObject)
                },
                Ok(DeserResult::CompleteWithRollback(v)) => if self.current
                    < self.values@.len() {
                    &&& post.names@ == self.names@
                    &&& post.seen@ == self.seen@
                    &&& post.current == self.current
                    &&& post.sub == sub2
                    &&& post.values@ == self.values@.update(self.current as int, v.json)
                    &&& r == Ok::<DeserResult<()>, DeserError>(
                        DeserResult::CompleteWithRollback(()),
                    )
                } else {
                    post == (RawFieldsReceiver { sub: sub2, ..*self }) && r == Err::<
                        DeserResult<()>,
                        DeserError,
                    >(DeserError::ExpectObject)
                },
                Err(e) => post == (RawFieldsReceiver { sub: sub2, ..*self }) && r == Err::<
                    DeserResult<()>,
                    DeserError,
                >(e),
            })
    }

    /// The record closes: it succeeds exactly when every declared field
    /// has appeared, and otherwise names exactly the fields never seen.
    open spec fn end_spec(&self, post: Self, r: Result<Vec<String>, DeserError>) -> bool {
        if forall|i: int| 0 <= i < self.seen@.len() ==> #[trigger] self.seen@[i] {
            r matches Ok(v) && v@ == self.values@
        } else {
            r matches Err(e) && e matches DeserError::MissingFields(miss) && miss@
                == missing_prefix(self.names@, self.seen@, self.names@.len() as int)
        }
    }

    fn start_value(&mut self, key: &str) -> (r: Result<(), DeserError>) {
        let n = self.names.len();
        let key_owned: String = key.to_owned();
        let mut i: usize = 0;
        while i < n
            invariant
                n == self.names@.len(),
                *self == *old(self),
                self.inv(),
                i <= n,
                key_owned@ == key@,
                forall|j: int| 0 <= j < i ==> names_view(self.names@)[j] != key@,
            decreases n - i,
        {
            if self.names[i] == key_owned {
                proof {
                    assert(names_view(self.names@)[i as int] == key@);
                }
                if self.seen[i] {
                    return Err(DeserError::RepeatedKey(key_owned));
                }
                self.seen[i] = true;
                self.current = i;
                self.sub = JsonRawStringDeserializer {
                    stage: RawStage::NotStarted,
                    depth: 0,
                    json: String::new(),
                };
                return Ok(());
            }
            proof {
                assert(names_view(self.names@)[i as int] == self.names@[i as int]@);
            }
            i = i + 1;
        }
        Err(DeserError::UnknownKey(key_owned))
    }

    fn feed_value(&mut self, token: Token) -> (r: Result<DeserResult<()>, DeserError>) {
        let rs = self.sub.feed_token(token);
        match rs {
            Ok(DeserResult::Continue) => Ok(DeserResult::Continue),
            Ok(DeserResult::Complete(v)) => {
                if self.current < self.values.len() {
                    self.values[self.current] = v.json;
                    Ok(DeserResult::Complete(()))
                } else {
                    Err(DeserError::ExpectObject)
                }
            },
            Ok(DeserResult::CompleteWithRollback(v)) => {
                if self.current < self.values.len() {
                    self.values[self.current] = v.json;
                    Ok(DeserResult::CompleteWithRollback(()))
                } else {
                    Err(DeserError::ExpectObject)
                }
            },
            Err(e) => Err(e),
        }
    }

    fn end(&mut self) -> (r: Result<Vec<String>, DeserError>) {
        let n = self.names.len();
        let mut all = true;
        let mut missing: Vec<String> = Vec::new();
        let mut i: usize = 0;
        while i < n
            invariant
                n == self.names@.len(),
                *self == *old(self),
                self.inv(),
                i <= n,
                all <==> (forall|j: int| 0 <= j < i ==> #[trigger] self.seen@[j]),
                missing@ == missing_prefix(self.names@, self.seen@, i as int),
            decreases n - i,
        {
            if !self.seen[i] {
                all = false;
                missing.push(self.names[i].clone());
                proof {
                    assert(missing@ =~= missing_prefix(self.names@, self.seen@, i + 1 as int));
                }
            } else {
                proof {
                    assert(missing@ =~= missing_prefix(self.names@, self.seen@, i + 1 as int));
                }
            }
            i = i + 1;
        }
        if all {
            let mut out: Vec<String> = Vec::new();
            core::mem::swap(&mut out, &mut self.values);
            let mut filler: Vec<String> = Vec::new();
            let mut k: usize = 0;
            while k < n
                invariant
                    k <= n,
                    filler@.len() == k,
                decreases n - k,
            {
                filler.push(String::new());
                k = k + 1;
            }
            self.values = filler;
            proof {
                assert(self.values@.len() == self.names@.len());
            }
            Ok(out)
        } else {
            Err(DeserError::MissingFields(missing))
        }
    }
}

} // verus!
