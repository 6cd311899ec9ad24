//! The string receiver: accumulates the characters of one string value.

use vstd::prelude::*;

use crate::deserialize::drivers::{
    create_string_deserializer, StringReceiverDeserializer, StringReceiverTrait,
};
use crate::deserialize::{DefaultDeserializable, DeserError};

verus! {

/// Relies on `String::push`: appends one character to the string.
#[verifier::external_body]
pub fn push_char(s: &mut String, c: char)
    ensures
        final(s)@ == old(s)@.push(c),
{
    s.push(c)
}

/// A receiver that accumulates the characters into a `String`.
#[derive(Debug)]
pub struct StringReceiver {
    /// the characters received so far
    pub string: String,
}

impl StringReceiverTrait<String> for StringReceiver {
    open spec fn inv(&self) -> bool {
        true
    }

    open spec fn start_spec(&self, post: Self, r: Result<(), DeserError>) -> bool {
        post == *self && r == Ok::<(), DeserError>(())
    }

    open spec fn push_spec(&self, post: Self, c: char, r: Result<(), DeserError>) -> bool {
        post.string@ == self.string@.push(c) && r == Ok::<(), DeserError>(())
    }

    open spec fn end_spec(&self, post: Self, r: Result<String, DeserError>) -> bool {
        post.string@ == Seq::<char>::empty() && (r matches Ok(v) && v@ == self.string@)
    }

    fn start(&mut self) -> (r: Result<(), DeserError>) {
        Ok(())
    }

    fn push(&mut self, c: char) -> (r: Result<(), DeserError>) {
        push_char(&mut self.string, c);
        Ok(())
    }

    fn end(&mut self) -> (r: Result<String, DeserError>) {
        let out = self.string.clone();
        self.string = String::new();
        Ok(out)
    }
}

impl DefaultDeserializable<String> for String {
    type DefaultDeserializer = StringReceiverDeserializer<String, StringReceiver>;

    open spec fn is_default(d: &StringReceiverDeserializer<String, StringReceiver>) -> bool {
        d.receiver.string@ == Seq::<char>::empty()
    }

    fn default_deserializer() -> (r: StringReceiverDeserializer<String, StringReceiver>) {
        create_string_deserializer(StringReceiver { string: String::new() })
    }
}

} // verus!
