//! The vector receiver: collects array elements into a `Vec`.

use vstd::prelude::*;

use crate::deserialize::drivers::{
    create_array_deserializer, ArrayReceiverDeserializer, ArrayReceiverTrait, ArrayStage,
};
use crate::deserialize::{DefaultDeserializable, DeserError, Deserializer};

verus! {

/// A receiver that collects the elements into a `Vec`.
#[derive(Debug)]
pub struct VecReceiver<E> {
    /// the elements received so far
    pub vec: Vec<E>,
}

impl<E: DefaultDeserializable<E>> ArrayReceiverTrait<
    E,
    Vec<E>,
    E::DefaultDeserializer,
> for VecReceiver<E> {
    open spec fn inv(&self) -> bool {
        true
    }

    open spec fn create_spec(&self, post: Self, r: Result<E::DefaultDeserializer, DeserError>) -> bool {
        post == *self && (r matches Ok(sd) && E::is_default(&sd))
    }

    open spec fn append_spec(&self, post: Self, e: E, r: Result<(), DeserError>) -> bool {
        post.vec@ == self.vec@.push(e) && r == Ok::<(), DeserError>(())
    }

    open spec fn end_spec(&self, post: Self, r: Result<Vec<E>, DeserError>) -> bool {
        post.vec@ == Seq::<E>::empty() && (r matches Ok(v) && v@ == self.vec@)
    }

    fn create_element(&mut self) -> (r: Result<E::DefaultDeserializer, DeserError>) {
        Ok(E::default_deserializer())
    }

    fn append(&mut self, e: E) -> (r: Result<(), DeserError>) {
        self.vec.push(e);
        Ok(())
    }

    fn end(&mut self) -> (r: Result<Vec<E>, DeserError>) {
        let mut out: Vec<E> = Vec::new();
        core::mem::swap(&mut out, &mut self.vec);
        Ok(out)
    }
}

impl<E: DefaultDeserializable<E>> DefaultDeserializable<Vec<E>> for Vec<E> {
    type DefaultDeserializer = ArrayReceiverDeserializer<
        E,
        Vec<E>,
        VecReceiver<E>,
        E::DefaultDeserializer,
    >;

    open spec fn is_default(
        d: &ArrayReceiverDeserializer<E, Vec<E>, VecReceiver<E>, E::DefaultDeserializer>,
    ) -> bool {
        d.receiver.vec@ == Seq::<E>::empty() && d.sub is None && d.stage == ArrayStage::NotStarted
    }

    fn default_deserializer() -> (r: ArrayReceiverDeserializer<
        E,
        Vec<E>,
        VecReceiver<E>,
        E::DefaultDeserializer,
    >) {
        create_array_deserializer(VecReceiver { vec: Vec::new() })
    }
}

} // verus!
