//! An incremental, push-driven JSON / JSON5 / JSONC parser.
//!
//! The stream parser accepts one Unicode scalar value at a time and emits,
//! for each accepted character, a classified token describing that
//! character's role in the evolving document. A compositional deserializer
//! framework drives typed values out of the token stream.

pub mod chars;
pub mod deserialize;
pub mod errors;
pub mod machine;
pub mod options;
pub mod stream_laws;
pub mod stream_parser;
pub mod token;

pub use options::ParserOption;
