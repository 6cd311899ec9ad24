//! Feature toggles controlling which JSON5/JSONC extensions the parser accepts.

use vstd::prelude::*;

verus! {

/// A set of independent feature toggles. With every toggle off the parser
/// accepts exactly the strict JSON grammar; each toggle only enlarges the
/// accepted language.
#[derive(Clone, Copy, Debug, PartialEq, Eq, Structural)]
pub struct ParserOption {
    /// accept the extended JSON5 whitespace set
    pub json5_whitespace: bool,
    /// accept a single trailing comma in an array (for example, `[1,]`)
    pub trailing_comma_in_array: bool,
    /// accept a single trailing comma in an object (for example, `{"a":1,}`)
    pub trailing_comma_in_object: bool,
    /// accept an identifier as an object key (for example, `{a:1}`)
    pub identifier_key: bool,
    /// accept single-quoted strings (for example, `'a'`)
    pub single_quote: bool,
    /// accept line continuations and raw line terminators in strings
    pub multiline_string: bool,
    /// accept the JSON5 string escapes (`\x01`, `\v`, `\0`, `\'`)
    pub json5_string_escape: bool,
    /// accept a leading positive sign in a number (for example, `+1`)
    pub positive_sign: bool,
    /// accept an empty fraction part (for example, `1.`)
    pub empty_fraction: bool,
    /// accept an empty integer part (for example, `.5`)
    pub empty_integer: bool,
    /// accept `NaN`
    pub nan: bool,
    /// accept `Infinity` and `-Infinity`
    pub infinity: bool,
    /// accept hexadecimal integers (for example, `0x10`)
    pub hexadecimal_integer: bool,
    /// accept octal integers (for example, `0o17`)
    pub octal_integer: bool,
    /// accept binary integers (for example, `0b101`)
    pub binary_integer: bool,
    /// accept single-line comments (`// ...`)
    pub single_line_comment: bool,
    /// accept multi-line comments (`/* ... */`)
    pub multi_line_comment: bool,
    /// accept a document that holds no value at all
    pub allow_empty_value: bool,
}

impl ParserOption {
    /// The strict JSON preset: every toggle off.
    pub fn make_strict() -> (r: ParserOption)
        ensures
            r == ParserOption::strict_spec(),
    {
        ParserOption {
            json5_whitespace: false,
            trailing_comma_in_array: false,
            trailing_comma_in_object: false,
            identifier_key: false,
            single_quote: false,
            multiline_string: false,
            json5_string_escape: false,
            positive_sign: false,
            empty_fraction: false,
            empty_integer: false,
            nan: false,
            infinity: false,
            hexadecimal_integer: false,
            octal_integer: false,
            binary_integer: false,
            single_line_comment: false,
            multi_line_comment: false,
            allow_empty_value: false,
        }
    }

    /// The JSONC preset: comments only.
    pub fn make_jsonc() -> (r: ParserOption)
        ensures
            r == ParserOption::jsonc_spec(),
    {
        ParserOption {
            single_line_comment: true,
            multi_line_comment: true,
            ..ParserOption::make_strict()
        }
    }

    /// The JSON5 preset: every toggle on except octal and binary
    /// integers.
    pub fn make_json5() -> (r: ParserOption)
        ensures
            r == ParserOption::json5_spec(),
    {
        ParserOption {
            json5_whitespace: true,
            trailing_comma_in_array: true,
            trailing_comma_in_object: true,
            identifier_key: true,
            single_quote: true,
            multiline_string: true,
            json5_string_escape: true,
            positive_sign: true,
            empty_fraction: true,
            empty_integer: true,
            nan: true,
            infinity: true,
            hexadecimal_integer: true,
            single_line_comment: true,
            multi_line_comment: true,
            allow_empty_value: true,
            ..ParserOption::make_strict()
        }
    }

    /// The strict preset, as a specification value.
    pub open spec fn strict_spec() -> ParserOption {
        ParserOption {
            json5_whitespace: false,
            trailing_comma_in_array: false,
            trailing_comma_in_object: false,
            identifier_key: false,
            single_quote: false,
            multiline_string: false,
            json5_string_escape: false,
            positive_sign: false,
            empty_fraction: false,
            empty_integer: false,
            nan: false,
            infinity: false,
            hexadecimal_integer: false,
            octal_integer: false,
            binary_integer: false,
            single_line_comment: false,
            multi_line_comment: false,
            allow_empty_value: false,
        }
    }

    /// The JSONC preset, as a specification value.
    pub open spec fn jsonc_spec() -> ParserOption {
        ParserOption {
            single_line_comment: true,
            multi_line_comment: true,
            ..ParserOption::strict_spec()
        }
    }

    /// The JSON5 preset, as a specification value.
    pub open spec fn json5_spec() -> ParserOption {
        ParserOption {
            json5_whitespace: true,
            trailing_comma_in_array: true,
            trailing_comma_in_object: true,
            identifier_key: true,
            single_quote: true,
            multiline_string: true,
            json5_string_escape: true,
            positive_sign: true,
            empty_fraction: true,
            empty_integer: true,
            nan: true,
            infinity: true,
            hexadecimal_integer: true,
            single_line_comment: true,
            multi_line_comment: true,
            allow_empty_value: true,
            ..ParserOption::strict_spec()
        }
    }

    /// Pointwise inclusion of feature sets: every toggle on in `self` is on
    /// in `other`.
    pub open spec fn le(self, other: ParserOption) -> bool {
        &&& self.json5_whitespace ==> other.json5_whitespace
        &&& self.trailing_comma_in_array ==> other.trailing_comma_in_array
        &&& self.trailing_comma_in_object ==> other.trailing_comma_in_object
        &&& self.identifier_key ==> other.identifier_key
        &&& self.single_quote ==> other.single_quote
        &&& self.multiline_string ==> other.multiline_string
        &&& self.json5_string_escape ==> other.json5_string_escape
        &&& self.positive_sign ==> other.positive_sign
        &&& self.empty_fraction ==> other.empty_fraction
        &&& self.empty_integer ==> other.empty_integer
        &&& self.nan ==> other.nan
        &&& self.infinity ==> other.infinity
        &&& self.hexadecimal_integer ==> other.hexadecimal_integer
        &&& self.octal_integer ==> other.octal_integer
        &&& self.binary_integer ==> other.binary_integer
        &&& self.single_line_comment ==> other.single_line_comment
        &&& self.multi_line_comment ==> other.multi_line_comment
        &&& self.allow_empty_value ==> other.allow_empty_value
    }
}

impl Default for ParserOption {
    /// The default option set is the strict JSON preset.
    fn default() -> (r: ParserOption)
        ensures
            r == ParserOption::strict_spec(),
    {
        ParserOption::make_strict()
    }
}

} // verus!
