//! Deserializers for the integer types: digits are accumulated as they
//! arrive, the base markers switch the radix, and the value is range
//! checked against the target type when the number ends.

use vstd::prelude::*;

use crate::chars::{check_hex, hex_value, is_hex, to_hexdigit};
use crate::deserialize::{DefaultDeserializable, DeserError, DeserResult, Deserializer};
use crate::token::{is_space_info, Token, TokenInfo};

verus! {

/// The state of an integer deserializer: the magnitude accumulated so
/// far, the radix, the sign, and whether the magnitude ever overflowed
/// the accumulator.
#[derive(Debug, Clone, PartialEq, Eq, Structural)]
pub struct IntegerDeserializer {
    /// the magnitude accumulated so far
    pub value: u128,
    /// the radix digits are read in
    pub radix: u128,
    /// a sign or digit was seen
    pub started: bool,
    /// the number is negative
    pub neg: bool,
    /// the magnitude no longer fits the accumulator
    pub overflow: bool,
    /// a minus sign is acceptable
    pub signed: bool,
}

/// What the shared integer core does with one token, before the value is
/// range checked against a target type.
pub enum IntCoreOut {
    /// more input wanted
    More,
    /// the number ended at this token; the token is not part of it
    Done,
    /// the token cannot belong to an integer
    Fail(DeserError),
}

/// The numeric value of the character of a digit token; characters that
/// are no hexadecimal digit count as zero.
pub open spec fn token_digit(c: char) -> u128 {
    if is_hex(c) {
        hex_value(c) as u128
    } else {
        0
    }
}

/// Accumulating one digit: multiply by the radix and add, with a sticky
/// overflow flag.
pub open spec fn acc_digit(pre: IntegerDeserializer, d: u128) -> IntegerDeserializer {
    if pre.overflow || pre.value * pre.radix + d > u128::MAX {
        IntegerDeserializer { value: 0, started: true, overflow: true, ..pre }
    } else {
        IntegerDeserializer { value: (pre.value * pre.radix + d) as u128, started: true, ..pre }
    }
}

/// The shared integer core relation: one token against the state.
pub open spec fn int_core_spec(pre: IntegerDeserializer, token: Token) -> (
    IntegerDeserializer,
    IntCoreOut,
) {
    match token.info {
        TokenInfo::NumberIntegerDigit => (acc_digit(pre, token_digit(token.c)), IntCoreOut::More),
        TokenInfo::NumberOct => (acc_digit(pre, token_digit(token.c)), IntCoreOut::More),
        TokenInfo::NumberBin => (acc_digit(pre, token_digit(token.c)), IntCoreOut::More),
        TokenInfo::NumberHex => (acc_digit(pre, token_digit(token.c)), IntCoreOut::More),
        TokenInfo::NumberIntegerSign => if token.c == '-' {
            if pre.signed {
                (IntegerDeserializer { started: true, neg: true, ..pre }, IntCoreOut::More)
            } else {
                (pre, IntCoreOut::Fail(DeserError::NegativeUnsigned))
            }
        } else {
            (IntegerDeserializer { started: true, ..pre }, IntCoreOut::More)
        },
        TokenInfo::NumberFractionDigit => (pre, IntCoreOut::Fail(DeserError::NotAnInteger)),
        TokenInfo::NumberExponentDigit => (pre, IntCoreOut::Fail(DeserError::NotAnInteger)),
        TokenInfo::NumberFractionStart => (pre, IntCoreOut::Fail(DeserError::NotAnInteger)),
        TokenInfo::NumberExponentStart => (pre, IntCoreOut::Fail(DeserError::NotAnInteger)),
        TokenInfo::NumberExponentSign => (pre, IntCoreOut::Fail(DeserError::NotAnInteger)),
        TokenInfo::NumberNan(_, _) => (pre, IntCoreOut::Fail(DeserError::NotAnInteger)),
        TokenInfo::NumberInfinity(_, _) => (pre, IntCoreOut::Fail(DeserError::NotAnInteger)),
        TokenInfo::NumberHexStart => (
            IntegerDeserializer { started: true, radix: 16, ..pre },
            IntCoreOut::More,
        ),
        TokenInfo::NumberOctStart => (
            IntegerDeserializer { started: true, radix: 8, ..pre },
            IntCoreOut::More,
        ),
        TokenInfo::NumberBinStart => (
            IntegerDeserializer { started: true, radix: 2, ..pre },
            IntCoreOut::More,
        ),
        _ => if pre.started {
            (pre, IntCoreOut::Done)
        } else if is_space_info(token.info) {
            (pre, IntCoreOut::More)
        } else {
            (pre, IntCoreOut::Fail(DeserError::ExpectInteger))
        },
    }
}

/// The signed mathematical value of a finished number.
pub open spec fn int_value(d: IntegerDeserializer) -> int {
    if d.neg {
        -(d.value as int)
    } else {
        d.value as int
    }
}

impl IntegerDeserializer {
    /// The state is well formed: the radix is one the grammar produces.
    pub open spec fn radix_wf(&self) -> bool {
        self.radix == 10 || self.radix == 16 || self.radix == 8 || self.radix == 2
    }

    /// Whether this state is a fresh deserializer with the given
    /// signedness.
    pub open spec fn is_fresh(&self, signed: bool) -> bool {
        self.value == 0 && self.radix == 10 && !self.started && !self.neg && !self.overflow
            && self.signed == signed
    }

    /// A fresh integer deserializer.
    pub fn new_fresh(signed: bool) -> (r: IntegerDeserializer)
        ensures
            r.is_fresh(signed),
            r.radix_wf(),
    {
        IntegerDeserializer {
            value: 0,
            radix: 10,
            started: false,
            neg: false,
            overflow: false,
            signed,
        }
    }

    /// Run the shared integer core on one token.
    fn feed_core(&mut self, token: Token) -> (r: IntCoreOut)
        requires
            old(self).radix_wf(),
        ensures
            final(self).radix_wf(),
            final(self).signed == old(self).signed,
            (*final(self), r) == int_core_spec(*old(self), token),
    {
        match token.info {
            TokenInfo::NumberIntegerDigit
            | TokenInfo::NumberOct
            | TokenInfo::NumberBin
            | TokenInfo::NumberHex => {
                let d: u128 = if check_hex(token.c) {
                    to_hexdigit(token.c) as u128
                } else {
                    0
                };
                self.started = true;
                if self.overflow {
                    self.value = 0;
                } else {
                    match self.value.checked_mul(self.radix) {
                        Some(m) => match m.checked_add(d) {
                            Some(v) => {
                                self.value = v;
                            },
                            None => {
                                self.value = 0;
                                self.overflow = true;
                            },
                        },
                        None => {
                            self.value = 0;
                            self.overflow = true;
                        },
                    }
                }
                IntCoreOut::More
            },
            TokenInfo::NumberIntegerSign => if token.c == '-' {
                if self.signed {
                    self.started = true;
                    self.neg = true;
                    IntCoreOut::More
                } else {
                    IntCoreOut::Fail(DeserError::NegativeUnsigned)
                }
            } else {
                self.started = true;
                IntCoreOut::More
            },
            TokenInfo::NumberFractionDigit
            | TokenInfo::NumberExponentDigit
            | TokenInfo::NumberFractionStart
            | TokenInfo::NumberExponentStart
            | TokenInfo::NumberExponentSign
            | TokenInfo::NumberNan(_, _)
            | TokenInfo::NumberInfinity(_, _) => IntCoreOut::Fail(DeserError::NotAnInteger),
            TokenInfo::NumberHexStart => {
                self.started = true;
                self.radix = 16;
                IntCoreOut::More
            },
            TokenInfo::NumberOctStart => {
                self.started = true;
                self.radix = 8;
                IntCoreOut::More
            },
            TokenInfo::NumberBinStart => {
                self.started = true;
                self.radix = 2;
                IntCoreOut::More
            },
            _ => if self.started {
                IntCoreOut::Done
            } else if token.is_space() {
                IntCoreOut::More
            } else {
                IntCoreOut::Fail(DeserError::ExpectInteger)
            },
        }
    }
}

/// The outcome once a number aimed at `i8` ends.
pub open spec fn complete_i8(d: IntegerDeserializer) -> Result<DeserResult<i8>, DeserError> {
    if d.overflow {
        Err(DeserError::IntegerOverflow)
    } else if int_value(d) < i8::MIN || int_value(d) > i8::MAX {
        Err(DeserError::IntegerOverflow)
    } else {
        Ok(DeserResult::CompleteWithRollback(int_value(d) as i8))
    }
}

impl Deserializer<i8> for IntegerDeserializer {
    open spec fn inv(&self) -> bool {
        self.radix_wf()
    }

    open spec fn feed_spec(
        &self,
        post: Self,
        token: Token,
        r: Result<DeserResult<i8>, DeserError>,
    ) -> bool {
        let step = int_core_spec(*self, token);
        post == step.0 && r == (match step.1 {
            IntCoreOut::More => Ok::<DeserResult<i8>, DeserError>(DeserResult::Continue),
            IntCoreOut::Done => complete_i8(step.0),
            IntCoreOut::Fail(e) => Err(e),
        })
    }

    fn feed_token(&mut self, token: Token) -> (r: Result<DeserResult<i8>, DeserError>) {
        match self.feed_core(token) {
            IntCoreOut::More => Ok(DeserResult::Continue),
            IntCoreOut::Fail(e) => Err(e),
            IntCoreOut::Done => {
                if self.overflow {
                    Err(DeserError::IntegerOverflow)
                } else if self.neg {
                    if self.value <= i8::MAX as u128 {
                        Ok(DeserResult::CompleteWithRollback(-(self.value as i8)))
                    } else if self.value == (i8::MAX as u128) + 1 {
                        Ok(DeserResult::CompleteWithRollback(i8::MIN))
                    } else {
                        Err(DeserError::IntegerOverflow)
                    }
                } else {
                    if self.value <= i8::MAX as u128 {
                        Ok(DeserResult::CompleteWithRollback(self.value as i8))
                    } else {
                        Err(DeserError::IntegerOverflow)
                    }
                }
            },
        }
    }
}

impl DefaultDeserializable<i8> for i8 {
    type DefaultDeserializer = IntegerDeserializer;

    open spec fn is_default(d: &IntegerDeserializer) -> bool {
        d.is_fresh(true)
    }

    fn default_deserializer() -> (r: IntegerDeserializer) {
        IntegerDeserializer::new_fresh(true)
    }
}

/// The outcome once a number aimed at `i16` ends.
pub open spec fn complete_i16(d: IntegerDeserializer) -> Result<DeserResult<i16>, DeserError> {
    if d.overflow {
        Err(DeserError::IntegerOverflow)
    } else if int_value(d) < i16::MIN || int_value(d) > i16::MAX {
        Err(DeserError::IntegerOverflow)
    } else {
        Ok(DeserResult::CompleteWithRollback(int_value(d) as i16))
    }
}

impl Deserializer<i16> for IntegerDeserializer {
    open spec fn inv(&self) -> bool {
        self.radix_wf()
    }

    open spec fn feed_spec(
        &self,
        post: Self,
        token: Token,
        r: Result<DeserResult<i16>, DeserError>,
    ) -> bool {
        let step = int_core_spec(*self, token);
        post == step.0 && r == (match step.1 {
            IntCoreOut::More => Ok::<DeserResult<i16>, DeserError>(DeserResult::Continue),
            IntCoreOut::Done => complete_i16(step.0),
            IntCoreOut::Fail(e) => Err(e),
        })
    }

    fn feed_token(&mut self, token: Token) -> (r: Result<DeserResult<i16>, DeserError>) {
        match self.feed_core(token) {
            IntCoreOut::More => Ok(DeserResult::Continue),
            IntCoreOut::Fail(e) => Err(e),
            IntCoreOut::Done => {
                if self.overflow {
                    Err(DeserError::IntegerOverflow)
                } else if self.neg {
                    if self.value <= i16::MAX as u128 {
                        Ok(DeserResult::CompleteWithRollback(-(self.value as i16)))
                    } else if self.value == (i16::MAX as u128) + 1 {
                        Ok(DeserResult::CompleteWithRollback(i16::MIN))
                    } else {
                        Err(DeserError::IntegerOverflow)
                    }
                } else {
                    if self.value <= i16::MAX as u128 {
                        Ok(DeserResult::CompleteWithRollback(self.value as i16))
                    } else {
                        Err(DeserError::IntegerOverflow)
                    }
                }
            },
        }
    }
}

impl DefaultDeserializable<i16> for i16 {
    type DefaultDeserializer = IntegerDeserializer;

    open spec fn is_default(d: &IntegerDeserializer) -> bool {
        d.is_fresh(true)
    }

    fn default_deserializer() -> (r: IntegerDeserializer) {
        IntegerDeserializer::new_fresh(true)
    }
}

/// The outcome once a number aimed at `i32` ends.
pub open spec fn complete_i32(d: IntegerDeserializer) -> Result<DeserResult<i32>, DeserError> {
    if d.overflow {
        Err(DeserError::IntegerOverflow)
    } else if int_value(d) < i32::MIN || int_value(d) > i32::MAX {
        Err(DeserError::IntegerOverflow)
    } else {
        Ok(DeserResult::CompleteWithRollback(int_value(d) as i32))
    }
}

impl Deserializer<i32> for IntegerDeserializer {
    open spec fn inv(&self) -> bool {
        self.radix_wf()
    }

    open spec fn feed_spec(
        &self,
        post: Self,
        token: Token,
        r: Result<DeserResult<i32>, DeserError>,
    ) -> bool {
        let step = int_core_spec(*self, token);
        post == step.0 && r == (match step.1 {
            IntCoreOut::More => Ok::<DeserResult<i32>, DeserError>(DeserResult::Continue),
            IntCoreOut::Done => complete_i32(step.0),
            IntCoreOut::Fail(e) => Err(e),
        })
    }

    fn feed_token(&mut self, token: Token) -> (r: Result<DeserResult<i32>, DeserError>) {
        match self.feed_core(token) {
            IntCoreOut::More => Ok(DeserResult::Continue),
            IntCoreOut::Fail(e) => Err(e),
            IntCoreOut::Done => {
                if self.overflow {
                    Err(DeserError::IntegerOverflow)
                } else if self.neg {
                    if self.value <= i32::MAX as u128 {
                        Ok(DeserResult::CompleteWithRollback(-(self.value as i32)))
                    } else if self.value == (i32::MAX as u128) + 1 {
                        Ok(DeserResult::CompleteWithRollback(i32::MIN))
                    } else {
                        Err(DeserError::IntegerOverflow)
                    }
                } else {
                    if self.value <= i32::MAX as u128 {
                        Ok(DeserResult::CompleteWithRollback(self.value as i32))
                    } else {
                        Err(DeserError::IntegerOverflow)
                    }
                }
            },
        }
    }
}

impl DefaultDeserializable<i32> for i32 {
    type DefaultDeserializer = IntegerDeserializer;

    open spec fn is_default(d: &IntegerDeserializer) -> bool {
        d.is_fresh(true)
    }

    fn default_deserializer() -> (r: IntegerDeserializer) {
        IntegerDeserializer::new_fresh(true)
    }
}

/// The outcome once a number aimed at `i64` ends.
pub open spec fn complete_i64(d: IntegerDeserializer) -> Result<DeserResult<i64>, DeserError> {
    if d.overflow {
        Err(DeserError::IntegerOverflow)
    } else if int_value(d) < i64::MIN || int_value(d) > i64::MAX {
        Err(DeserError::IntegerOverflow)
    } else {
        Ok(DeserResult::CompleteWithRollback(int_value(d) as i64))
    }
}

impl Deserializer<i64> for IntegerDeserializer {
    open spec fn inv(&self) -> bool {
        self.radix_wf()
    }

    open spec fn feed_spec(
        &self,
        post: Self,
        token: Token,
        r: Result<DeserResult<i64>, DeserError>,
    ) -> bool {
        let step = int_core_spec(*self, token);
        post == step.0 && r == (match step.1 {
            IntCoreOut::More => Ok::<DeserResult<i64>, DeserError>(DeserResult::Continue),
            IntCoreOut::Done => complete_i64(step.0),
            IntCoreOut::Fail(e) => Err(e),
        })
    }

    fn feed_token(&mut self, token: Token) -> (r: Result<DeserResult<i64>, DeserError>) {
        match self.feed_core(token) {
            IntCoreOut::More => Ok(DeserResult::Continue),
            IntCoreOut::Fail(e) => Err(e),
            IntCoreOut::Done => {
                if self.overflow {
                    Err(DeserError::IntegerOverflow)
                } else if self.neg {
                    if self.value <= i64::MAX as u128 {
                        Ok(DeserResult::CompleteWithRollback(-(self.value as i64)))
                    } else if self.value == (i64::MAX as u128) + 1 {
                        Ok(DeserResult::CompleteWithRollback(i64::MIN))
                    } else {
                        Err(DeserError::IntegerOverflow)
                    }
                } else {
                    if self.value <= i64::MAX as u128 {
                        Ok(DeserResult::CompleteWithRollback(self.value as i64))
                    } else {
                        Err(DeserError::IntegerOverflow)
                    }
                }
            },
        }
    }
}

impl DefaultDeserializable<i64> for i64 {
    type DefaultDeserializer = IntegerDeserializer;

    open spec fn is_default(d: &IntegerDeserializer) -> bool {
        d.is_fresh(true)
    }

    fn default_deserializer() -> (r: IntegerDeserializer) {
        IntegerDeserializer::new_fresh(true)
    }
}

/// The outcome once a number aimed at `i128` ends.
pub open spec fn complete_i128(d: IntegerDeserializer) -> Result<DeserResult<i128>, DeserError> {
    if d.overflow {
        Err(DeserError::IntegerOverflow)
    } else if int_value(d) < i128::MIN || int_value(d) > i128::MAX {
        Err(DeserError::IntegerOverflow)
    } else {
        Ok(DeserResult::CompleteWithRollback(int_value(d) as i128))
    }
}

impl Deserializer<i128> for IntegerDeserializer {
    open spec fn inv(&self) -> bool {
        self.radix_wf()
    }

    open spec fn feed_spec(
        &self,
        post: Self,
        token: Token,
        r: Result<DeserResult<i128>, DeserError>,
    ) -> bool {
        let step = int_core_spec(*self, token);
        post == step.0 && r == (match step.1 {
            IntCoreOut::More => Ok::<DeserResult<i128>, DeserError>(DeserResult::Continue),
            IntCoreOut::Done => complete_i128(step.0),
            IntCoreOut::Fail(e) => Err(e),
        })
    }

    fn feed_token(&mut self, token: Token) -> (r: Result<DeserResult<i128>, DeserError>) {
        match self.feed_core(token) {
            IntCoreOut::More => Ok(DeserResult::Continue),
            IntCoreOut::Fail(e) => Err(e),
            IntCoreOut::Done => {
                if self.overflow {
                    Err(DeserError::IntegerOverflow)
                } else if self.neg {
                    if self.value <= i128::MAX as u128 {
                        Ok(DeserResult::CompleteWithRollback(-(self.value as i128)))
                    } else if self.value == (i128::MAX as u128) + 1 {
                        Ok(DeserResult::CompleteWithRollback(i128::MIN))
                    } else {
                        Err(DeserError::IntegerOverflow)
                    }
                } else {
                    if self.value <= i128::MAX as u128 {
                        Ok(DeserResult::CompleteWithRollback(self.value as i128))
                    } else {
                        Err(DeserError::IntegerOverflow)
                    }
                }
            },
        }
    }
}

impl DefaultDeserializable<i128> for i128 {
    type DefaultDeserializer = IntegerDeserializer;

    open spec fn is_default(d: &IntegerDeserializer) -> bool {
        d.is_fresh(true)
    }

    fn default_deserializer() -> (r: IntegerDeserializer) {
        IntegerDeserializer::new_fresh(true)
    }
}

/// The outcome once a number aimed at `isize` ends.
pub open spec fn complete_isize(d: IntegerDeserializer) -> Result<DeserResult<isize>, DeserError> {
    if d.overflow {
        Err(DeserError::IntegerOverflow)
    } else if int_value(d) < isize::MIN || int_value(d) > isize::MAX {
        Err(DeserError::IntegerOverflow)
    } else {
        Ok(DeserResult::CompleteWithRollback(int_value(d) as isize))
    }
}

impl Deserializer<isize> for IntegerDeserializer {
    open spec fn inv(&self) -> bool {
        self.radix_wf()
    }

    open spec fn feed_spec(
        &self,
        post: Self,
        token: Token,
        r: Result<DeserResult<isize>, DeserError>,
    ) -> bool {
        let step = int_core_spec(*self, token);
        post == step.0 && r == (match step.1 {
            IntCoreOut::More => Ok::<DeserResult<isize>, DeserError>(DeserResult::Continue),
            IntCoreOut::Done => complete_isize(step.0),
            IntCoreOut::Fail(e) => Err(e),
        })
    }

    fn feed_token(&mut self, token: Token) -> (r: Result<DeserResult<isize>, DeserError>) {
        match self.feed_core(token) {
            IntCoreOut::More => Ok(DeserResult::Continue),
            IntCoreOut::Fail(e) => Err(e),
            IntCoreOut::Done => {
                if self.overflow {
                    Err(DeserError::IntegerOverflow)
                } else if self.neg {
                    if self.value <= isize::MAX as u128 {
                        Ok(DeserResult::CompleteWithRollback(-(self.value as isize)))
                    } else if self.value == (isize::MAX as u128) + 1 {
                        Ok(DeserResult::CompleteWithRollback(isize::MIN))
                    } else {
                        Err(DeserError::IntegerOverflow)
                    }
                } else {
                    if self.value <= isize::MAX as u128 {
                        Ok(DeserResult::CompleteWithRollback(self.value as isize))
                    } else {
                        Err(DeserError::IntegerOverflow)
                    }
                }
            },
        }
    }
}

impl DefaultDeserializable<isize> for isize {
    type DefaultDeserializer = IntegerDeserializer;

    open spec fn is_default(d: &IntegerDeserializer) -> bool {
        d.is_fresh(true)
    }

    fn default_deserializer() -> (r: IntegerDeserializer) {
        IntegerDeserializer::new_fresh(true)
    }
}

/// The outcome once a number aimed at `u8` ends.
pub open spec fn complete_u8(d: IntegerDeserializer) -> Result<DeserResult<u8>, DeserError> {
    if d.overflow {
        Err(DeserError::IntegerOverflow)
    } else if int_value(d) < 0 || int_value(d) > u8::MAX {
        Err(DeserError::IntegerOverflow)
    } else {
        Ok(DeserResult::CompleteWithRollback(int_value(d) as u8))
    }
}

impl Deserializer<u8> for IntegerDeserializer {
    open spec fn inv(&self) -> bool {
        self.radix_wf()
    }

    open spec fn feed_spec(
        &self,
        post: Self,
        token: Token,
        r: Result<DeserResult<u8>, DeserError>,
    ) -> bool {
        let step = int_core_spec(*self, token);
        post == step.0 && r == (match step.1 {
            IntCoreOut::More => Ok::<DeserResult<u8>, DeserError>(DeserResult::Continue),
            IntCoreOut::Done => complete_u8(step.0),
            IntCoreOut::Fail(e) => Err(e),
        })
    }

    fn feed_token(&mut self, token: Token) -> (r: Result<DeserResult<u8>, DeserError>) {
        match self.feed_core(token) {
            IntCoreOut::More => Ok(DeserResult::Continue),
            IntCoreOut::Fail(e) => Err(e),
            IntCoreOut::Done => {
                if self.overflow {
                    Err(DeserError::IntegerOverflow)
                } else if self.neg && self.value > 0 {
                    Err(DeserError::IntegerOverflow)
                } else if self.value <= u8::MAX as u128 {
                    Ok(DeserResult::CompleteWithRollback(self.value as u8))
                } else {
                    Err(DeserError::IntegerOverflow)
                }
            },
        }
    }
}

impl DefaultDeserializable<u8> for u8 {
    type DefaultDeserializer = IntegerDeserializer;

    open spec fn is_default(d: &IntegerDeserializer) -> bool {
        d.is_fresh(false)
    }

    fn default_deserializer() -> (r: IntegerDeserializer) {
        IntegerDeserializer::new_fresh(false)
    }
}

/// The outcome once a number aimed at `u16` ends.
pub open spec fn complete_u16(d: IntegerDeserializer) -> Result<DeserResult<u16>, DeserError> {
    if d.overflow {
        Err(DeserError::IntegerOverflow)
    } else if int_value(d) < 0 || int_value(d) > u16::MAX {
        Err(DeserError::IntegerOverflow)
    } else {
        Ok(DeserResult::CompleteWithRollback(int_value(d) as u16))
    }
}

impl Deserializer<u16> for IntegerDeserializer {
    open spec fn inv(&self) -> bool {
        self.radix_wf()
    }

    open spec fn feed_spec(
        &self,
        post: Self,
        token: Token,
        r: Result<DeserResult<u16>, DeserError>,
    ) -> bool {
        let step = int_core_spec(*self, token);
        post == step.0 && r == (match step.1 {
            IntCoreOut::More => Ok::<DeserResult<u16>, DeserError>(DeserResult::Continue),
            IntCoreOut::Done => complete_u16(step.0),
            IntCoreOut::Fail(e) => Err(e),
        })
    }

    fn feed_token(&mut self, token: Token) -> (r: Result<DeserResult<u16>, DeserError>) {
        match self.feed_core(token) {
            IntCoreOut::More => Ok(DeserResult::Continue),
            IntCoreOut::Fail(e) => Err(e),
            IntCoreOut::Done => {
                if self.overflow {
                    Err(DeserError::IntegerOverflow)
                } else if self.neg && self.value > 0 {
                    Err(DeserError::IntegerOverflow)
                } else if self.value <= u16::MAX as u128 {
                    Ok(DeserResult::CompleteWithRollback(self.value as u16))
                } else {
                    Err(DeserError::IntegerOverflow)
                }
            },
        }
    }
}

impl DefaultDeserializable<u16> for u16 {
    type DefaultDeserializer = IntegerDeserializer;

    open spec fn is_default(d: &IntegerDeserializer) -> bool {
        d.is_fresh(false)
    }

    fn default_deserializer() -> (r: IntegerDeserializer) {
        IntegerDeserializer::new_fresh(false)
    }
}

/// The outcome once a number aimed at `u32` ends.
pub open spec fn complete_u32(d: IntegerDeserializer) -> Result<DeserResult<u32>, DeserError> {
    if d.overflow {
        Err(DeserError::IntegerOverflow)
    } else if int_value(d) < 0 || int_value(d) > u32::MAX {
        Err(DeserError::IntegerOverflow)
    } else {
        Ok(DeserResult::CompleteWithRollback(int_value(d) as u32))
    }
}

impl Deserializer<u32> for IntegerDeserializer {
    open spec fn inv(&self) -> bool {
        self.radix_wf()
    }

    open spec fn feed_spec(
        &self,
        post: Self,
        token: Token,
        r: Result<DeserResult<u32>, DeserError>,
    ) -> bool {
        let step = int_core_spec(*self, token);
        post == step.0 && r == (match step.1 {
            IntCoreOut::More => Ok::<DeserResult<u32>, DeserError>(DeserResult::Continue),
            IntCoreOut::Done => complete_u32(step.0),
            IntCoreOut::Fail(e) => Err(e),
        })
    }

    fn feed_token(&mut self, token: Token) -> (r: Result<DeserResult<u32>, DeserError>) {
        match self.feed_core(token) {
            IntCoreOut::More => Ok(DeserResult::Continue),
            IntCoreOut::Fail(e) => Err(e),
            IntCoreOut::Done => {
                if self.overflow {
                    Err(DeserError::IntegerOverflow)
                } else if self.neg && self.value > 0 {
                    Err(DeserError::IntegerOverflow)
                } else if self.value <= u32::MAX as u128 {
                    Ok(DeserResult::CompleteWithRollback(self.value as u32))
                } else {
                    Err(DeserError::IntegerOverflow)
                }
            },
        }
    }
}

impl DefaultDeserializable<u32> for u32 {
    type DefaultDeserializer = IntegerDeserializer;

    open spec fn is_default(d: &IntegerDeserializer) -> bool {
        d.is_fresh(false)
    }

    fn default_deserializer() -> (r: IntegerDeserializer) {
        IntegerDeserializer::new_fresh(false)
    }
}

/// The outcome once a number aimed at `u64` ends.
pub open spec fn complete_u64(d: IntegerDeserializer) -> Result<DeserResult<u64>, DeserError> {
    if d.overflow {
        Err(DeserError::IntegerOverflow)
    } else if int_value(d) < 0 || int_value(d) > u64::MAX {
        Err(DeserError::IntegerOverflow)
    } else {
        Ok(DeserResult::CompleteWithRollback(int_value(d) as u64))
    }
}

impl Deserializer<u64> for IntegerDeserializer {
    open spec fn inv(&self) -> bool {
        self.radix_wf()
    }

    open spec fn feed_spec(
        &self,
        post: Self,
        token: Token,
        r: Result<DeserResult<u64>, DeserError>,
    ) -> bool {
        let step = int_core_spec(*self, token);
        post == step.0 && r == (match step.1 {
            IntCoreOut::More => Ok::<DeserResult<u64>, DeserError>(DeserResult::Continue),
            IntCoreOut::Done => complete_u64(step.0),
            IntCoreOut::Fail(e) => Err(e),
        })
    }

    fn feed_token(&mut self, token: Token) -> (r: Result<DeserResult<u64>, DeserError>) {
        match self.feed_core(token) {
            IntCoreOut::More => Ok(DeserResult::Continue),
            IntCoreOut::Fail(e) => Err(e),
            IntCoreOut::Done => {
                if self.overflow {
                    Err(DeserError::IntegerOverflow)
                } else if self.neg && self.value > 0 {
                    Err(DeserError::IntegerOverflow)
                } else if self.value <= u64::MAX as u128 {
                    Ok(DeserResult::CompleteWithRollback(self.value as u64))
                } else {
                    Err(DeserError::IntegerOverflow)
                }
            },
        }
    }
}

impl DefaultDeserializable<u64> for u64 {
    type DefaultDeserializer = IntegerDeserializer;

    open spec fn is_default(d: &IntegerDeserializer) -> bool {
        d.is_fresh(false)
    }

    fn default_deserializer() -> (r: IntegerDeserializer) {
        IntegerDeserializer::new_fresh(false)
    }
}

/// The outcome once a number aimed at `u128` ends.
pub open spec fn complete_u128(d: IntegerDeserializer) -> Result<DeserResult<u128>, DeserError> {
    if d.overflow {
        Err(DeserError::IntegerOverflow)
    } else if int_value(d) < 0 || int_value(d) > u128::MAX {
        Err(DeserError::IntegerOverflow)
    } else {
        Ok(DeserResult::CompleteWithRollback(int_value(d) as u128))
    }
}

impl Deserializer<u128> for IntegerDeserializer {
    open spec fn inv(&self) -> bool {
        self.radix_wf()
    }

    open spec fn feed_spec(
        &self,
        post: Self,
        token: Token,
        r: Result<DeserResult<u128>, DeserError>,
    ) -> bool {
        let step = int_core_spec(*self, token);
        post == step.0 && r == (match step.1 {
            IntCoreOut::More => Ok::<DeserResult<u128>, DeserError>(DeserResult::Continue),
            IntCoreOut::Done => complete_u128(step.0),
            IntCoreOut::Fail(e) => Err(e),
        })
    }

    fn feed_token(&mut self, token: Token) -> (r: Result<DeserResult<u128>, DeserError>) {
        match self.feed_core(token) {
            IntCoreOut::More => Ok(DeserResult::Continue),
            IntCoreOut::Fail(e) => Err(e),
            IntCoreOut::Done => {
                if self.overflow {
                    Err(DeserError::IntegerOverflow)
                } else if self.neg && self.value > 0 {
                    Err(DeserError::IntegerOverflow)
                } else if self.value <= u128::MAX as u128 {
                    Ok(DeserResult::CompleteWithRollback(self.value as u128))
                } else {
                    Err(DeserError::IntegerOverflow)
                }
            },
        }
    }
}

impl DefaultDeserializable<u128> for u128 {
    type DefaultDeserializer = IntegerDeserializer;

    open spec fn is_default(d: &IntegerDeserializer) -> bool {
        d.is_fresh(false)
    }

    fn default_deserializer() -> (r: IntegerDeserializer) {
        IntegerDeserializer::new_fresh(false)
    }
}

/// The outcome once a number aimed at `usize` ends.
pub open spec fn complete_usize(d: IntegerDeserializer) -> Result<DeserResult<usize>, DeserError> {
    if d.overflow {
        Err(DeserError::IntegerOverflow)
    } else if int_value(d) < 0 || int_value(d) > usize::MAX {
        Err(DeserError::IntegerOverflow)
    } else {
        Ok(DeserResult::CompleteWithRollback(int_value(d) as usize))
    }
}

impl Deserializer<usize> for IntegerDeserializer {
    open spec fn inv(&self) -> bool {
        self.radix_wf()
    }

    open spec fn feed_spec(
        &self,
        post: Self,
        token: Token,
        r: Result<DeserResult<usize>, DeserError>,
    ) -> bool {
        let step = int_core_spec(*self, token);
        post == step.0 && r == (match step.1 {
            IntCoreOut::More => Ok::<DeserResult<usize>, DeserError>(DeserResult::Continue),
            IntCoreOut::Done => complete_usize(step.0),
            IntCoreOut::Fail(e) => Err(e),
        })
    }

    fn feed_token(&mut self, token: Token) -> (r: Result<DeserResult<usize>, DeserError>) {
        match self.feed_core(token) {
            IntCoreOut::More => Ok(DeserResult::Continue),
            IntCoreOut::Fail(e) => Err(e),
            IntCoreOut::Done => {
                if self.overflow {
                    Err(DeserError::IntegerOverflow)
                } else if self.neg && self.value > 0 {
                    Err(DeserError::IntegerOverflow)
                } else if self.value <= usize::MAX as u128 {
                    Ok(DeserResult::CompleteWithRollback(self.value as usize))
                } else {
                    Err(DeserError::IntegerOverflow)
                }
            },
        }
    }
}

impl DefaultDeserializable<usize> for usize {
    type DefaultDeserializer = IntegerDeserializer;

    open spec fn is_default(d: &IntegerDeserializer) -> bool {
        d.is_fresh(false)
    }

    fn default_deserializer() -> (r: IntegerDeserializer) {
        IntegerDeserializer::new_fresh(false)
    }
}

} // verus!
