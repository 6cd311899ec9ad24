//! The number-lexeme deserializer: it collects the full text of one
//! numeric atom. Converting the lexeme to a floating-point value is the
//! caller's business; this library holds no floating-point numbers.

use vstd::prelude::*;

use crate::deserialize::strings::push_char;
use crate::deserialize::{DefaultDeserializable, DeserError, DeserResult, Deserializer};
use crate::token::{is_space_info, Category, Token};

verus! {

/// A deserializer that collects the characters of one numeric atom, sign
/// and base prefix included, and completes with the whole lexeme when a
/// separator ends the number.
#[derive(Debug)]
pub struct FloatDeserializer {
    /// the characters of the lexeme so far
    pub lexeme: String,
}

impl Deserializer<String> for FloatDeserializer {
    open spec fn inv(&self) -> bool {
        true
    }

    open spec fn feed_spec(
        &self,
        post: Self,
        token: Token,
        r: Result<DeserResult<String>, DeserError>,
    ) -> bool {
        if token.info.category_spec() == Category::Number {
            post.lexeme@ == self.lexeme@.push(token.c) && r == Ok::<
                DeserResult<String>,
                DeserError,
            >(DeserResult::Continue)
        } else if self.lexeme@.len() > 0 {
            post.lexeme@ == Seq::<char>::empty() && (r matches Ok(rr) && rr
                matches DeserResult::CompleteWithRollback(v) && v@ == self.lexeme@)
        } else if is_space_info(token.info) {
            post.lexeme@ == self.lexeme@ && r == Ok::<DeserResult<String>, DeserError>(
                DeserResult::Continue,
            )
        } else {
            post.lexeme@ == self.lexeme@ && r == Err::<DeserResult<String>, DeserError>(
                DeserError::ExpectNumber,
            )
        }
    }

    fn feed_token(&mut self, token: Token) -> (r: Result<DeserResult<String>, DeserError>) {
        if token.info.get_category() == Category::Number {
            push_char(&mut self.lexeme, token.c);
            Ok(DeserResult::Continue)
        } else if !self.lexeme.as_str().is_empty() {
            let out = self.lexeme.clone();
            self.lexeme = String::new();
            Ok(DeserResult::CompleteWithRollback(out))
        } else if token.is_space() {
            Ok(DeserResult::Continue)
        } else {
            Err(DeserError::ExpectNumber)
        }
    }
}

impl FloatDeserializer {
    /// A fresh number-lexeme deserializer.
    pub fn new() -> (r: FloatDeserializer)
        ensures
            r.lexeme@ == Seq::<char>::empty(),
    {
        FloatDeserializer { lexeme: String::new() }
    }
}

} // verus!
