//! Character class predicates over Unicode scalar values.

use vstd::prelude::*;
use vstd::std_specs::iter::IteratorSpec;

verus! {

/// The strict JSON whitespace set: space, tab, line feed, carriage return.
pub open spec fn is_json_whitespace(c: char) -> bool {
    c == ' ' || c == '\t' || c == '\n' || c == '\r'
}

/// The extra whitespace accepted under the JSON5 whitespace toggle:
/// vertical tab, form feed, no-break space, the byte-order mark, the line
/// and paragraph separators, and the Unicode space separators.
pub open spec fn is_json5_extra_whitespace(c: char) -> bool {
    ||| c as u32 == 0x0B
    ||| c as u32 == 0x0C
    ||| c as u32 == 0xA0
    ||| c as u32 == 0xFEFF
    ||| c as u32 == 0x2028
    ||| c as u32 == 0x2029
    ||| c as u32 == 0x1680
    ||| (0x2000 <= c as u32 && c as u32 <= 0x200A)
    ||| c as u32 == 0x202F
    ||| c as u32 == 0x205F
    ||| c as u32 == 0x3000
}

/// Whitespace under the given whitespace toggle.
pub open spec fn is_whitespace(c: char, json5: bool) -> bool {
    is_json_whitespace(c) || (json5 && is_json5_extra_whitespace(c))
}

/// Line terminators: line feed, carriage return, line separator, paragraph
/// separator.
pub open spec fn is_next_line(c: char) -> bool {
    c == '\n' || c == '\r' || c as u32 == 0x2028 || c as u32 == 0x2029
}

/// Control characters, which are forbidden raw inside strings.
pub open spec fn is_control(c: char) -> bool {
    (c as u32) < 0x20
}

/// Hexadecimal digits.
pub open spec fn is_hex(c: char) -> bool {
    ||| ('0' <= c && c <= '9')
    ||| ('a' <= c && c <= 'f')
    ||| ('A' <= c && c <= 'F')
}

/// Decimal digits.
pub open spec fn is_digit(c: char) -> bool {
    '0' <= c && c <= '9'
}

/// Octal digits.
pub open spec fn is_octal(c: char) -> bool {
    '0' <= c && c <= '7'
}

/// Binary digits.
pub open spec fn is_binary(c: char) -> bool {
    c == '0' || c == '1'
}

/// The numeric value of a decimal digit.
pub open spec fn digit_value(c: char) -> u32 {
    (c as u32 - '0' as u32) as u32
}

/// The numeric value of a hexadecimal digit.
pub open spec fn hex_value(c: char) -> u32 {
    if '0' <= c && c <= '9' {
        (c as u32 - '0' as u32) as u32
    } else if 'a' <= c && c <= 'f' {
        (c as u32 - 'a' as u32 + 10) as u32
    } else {
        (c as u32 - 'A' as u32 + 10) as u32
    }
}

/// Whether a character has the Unicode `Alphabetic` property; the name of
/// what [`char::is_alphabetic`] returns.
pub uninterp spec fn is_alphabetic_char(c: char) -> bool;

/// Whether a character is a Unicode numeral; the name of what
/// [`char::is_numeric`] returns.
pub uninterp spec fn is_numeric_char(c: char) -> bool;

/// Characters able to open an identifier key: dollar, underscore and the
/// Unicode alphabetic characters. The Unicode identifier-start class
/// proper differs from the alphabetic class on a few scalars; this
/// library draws the line at the alphabetic property. Whitespace is
/// carved out definitionally (no whitespace scalar is alphabetic, but
/// nothing here says so of the named property).
pub open spec fn is_identifier_start(c: char) -> bool {
    ||| c == '$'
    ||| c == '_'
    ||| (is_alphabetic_char(c) && !is_whitespace(c, true))
}

/// Characters able to continue an identifier key: the start set, the
/// Unicode numerals, and the zero-width joiners. Combining marks beyond
/// these are not recognised.
pub open spec fn is_identifier_next(c: char) -> bool {
    ||| is_identifier_start(c)
    ||| is_digit(c)
    ||| (is_numeric_char(c) && !is_whitespace(c, true))
    ||| c as u32 == 0x200C
    ||| c as u32 == 0x200D
}

/// The character produced by a simple string escape, if the escape is
/// accepted under the given JSON5 escape toggle.
pub open spec fn escape_of(c: char, json5: bool) -> Option<char> {
    if c == '"' {
        Some('"')
    } else if c == '\\' {
        Some('\\')
    } else if c == '/' {
        Some('/')
    } else if c == 'b' {
        Some('\u{0008}')
    } else if c == 'f' {
        Some('\u{000C}')
    } else if c == 'n' {
        Some('\n')
    } else if c == 'r' {
        Some('\r')
    } else if c == 't' {
        Some('\t')
    } else if json5 && c == '\'' {
        Some('\'')
    } else if json5 && c == 'v' {
        Some('\u{000B}')
    } else if json5 && c == '0' {
        Some('\u{0000}')
    } else {
        None
    }
}

/// Characters that terminate a number atom: whitespace (under the given
/// whitespace toggle), the structural separators, the comment opener and
/// the end-of-input sentinel.
pub open spec fn is_number_separator(c: char, json5_ws: bool) -> bool {
    ||| is_whitespace(c, json5_ws)
    ||| c == ','
    ||| c == ']'
    ||| c == '}'
    ||| c == '/'
    ||| c == '\0'
}

pub fn check_whitespace(c: char, json5: bool) -> (r: bool)
    ensures
        r == is_whitespace(c, json5),
{
    let u = c as u32;
    u == 0x20 || u == 0x09 || u == 0x0A || u == 0x0D || (json5 && (u == 0x0B || u == 0x0C
        || u == 0xA0 || u == 0xFEFF || u == 0x2028 || u == 0x2029 || u == 0x1680 || (0x2000 <= u
        && u <= 0x200A) || u == 0x202F || u == 0x205F || u == 0x3000))
}

pub fn check_next_line(c: char) -> (r: bool)
    ensures
        r == is_next_line(c),
{
    let u = c as u32;
    u == 0x0A || u == 0x0D || u == 0x2028 || u == 0x2029
}

pub fn check_control(c: char) -> (r: bool)
    ensures
        r == is_control(c),
{
    (c as u32) < 0x20
}

pub fn check_hex(c: char) -> (r: bool)
    ensures
        r == is_hex(c),
{
    ('0' <= c && c <= '9') || ('a' <= c && c <= 'f') || ('A' <= c && c <= 'F')
}

pub fn check_digit(c: char) -> (r: bool)
    ensures
        r == is_digit(c),
{
    '0' <= c && c <= '9'
}

pub fn check_octal(c: char) -> (r: bool)
    ensures
        r == is_octal(c),
{
    '0' <= c && c <= '7'
}

pub fn check_binary(c: char) -> (r: bool)
    ensures
        r == is_binary(c),
{
    c == '0' || c == '1'
}

/// The numeric value of a hexadecimal digit.
pub fn to_hexdigit(c: char) -> (r: u32)
    requires
        is_hex(c),
    ensures
        r == hex_value(c),
        r < 16,
{
    let u = c as u32;
    if u < 0x40 {
        u - 0x30
    } else if u < 0x60 {
        u - 0x41 + 10
    } else {
        u - 0x61 + 10
    }
}

/// The numeric value of a decimal digit.
pub fn to_digit(c: char) -> (r: u32)
    requires
        is_digit(c),
    ensures
        r == digit_value(c),
        r < 10,
{
    c as u32 - 0x30
}

/// Relies on `char::is_alphabetic`: the Unicode `Alphabetic` property,
/// a function of the character alone.
#[verifier::external_body]
fn char_is_alphabetic(c: char) -> (r: bool)
    ensures
        r == is_alphabetic_char(c),
{
    c.is_alphabetic()
}

/// Relies on `char::is_numeric`: the Unicode numeral classes, a function
/// of the character alone.
#[verifier::external_body]
fn char_is_numeric(c: char) -> (r: bool)
    ensures
        r == is_numeric_char(c),
{
    c.is_numeric()
}

pub fn check_identifier_start(c: char) -> (r: bool)
    ensures
        r == is_identifier_start(c),
{
    c == '$' || c == '_' || (char_is_alphabetic(c) && !check_whitespace(c, true))
}

pub fn check_identifier_next(c: char) -> (r: bool)
    ensures
        r == is_identifier_next(c),
{
    check_identifier_start(c) || check_digit(c) || (char_is_numeric(c) && !check_whitespace(
        c,
        true,
    )) || c as u32 == 0x200C || c as u32 == 0x200D
}

pub fn simple_escape(c: char, json5: bool) -> (r: Option<char>)
    ensures
        r == escape_of(c, json5),
{
    if c == '"' {
        Some('"')
    } else if c == '\\' {
        Some('\\')
    } else if c == '/' {
        Some('/')
    } else if c == 'b' {
        Some('\u{0008}')
    } else if c == 'f' {
        Some('\u{000C}')
    } else if c == 'n' {
        Some('\n')
    } else if c == 'r' {
        Some('\r')
    } else if c == 't' {
        Some('\t')
    } else if json5 && c == '\'' {
        Some('\'')
    } else if json5 && c == 'v' {
        Some('\u{000B}')
    } else if json5 && c == '0' {
        Some('\u{0000}')
    } else {
        None
    }
}

pub fn check_number_separator(c: char, json5_ws: bool) -> (r: bool)
    ensures
        r == is_number_separator(c, json5_ws),
{
    check_whitespace(c, json5_ws) || c == ',' || c == ']' || c == '}' || c == '/' || c == '\0'
}

/// The characters of the string, in order, collected off the standard
/// character iterator.
pub fn str_to_chars(s: &str) -> (r: Vec<char>)
    ensures
        r@ == s@,
{
    broadcast use vstd::string::axiom_spec_iter, vstd::string::next_postcondition;

    let mut it = s.chars();
    let mut out: Vec<char> = Vec::new();
    loop
        invariant
            it.obeys_prophetic_iter_laws(),
            it.decrease() is Some,
            out@ + it.remaining() == s@,
        decreases it.decrease()->0,
    {
        match it.next() {
            Some(c) => {
                out.push(c);
                proof {
                    assert(out@ + it.remaining() =~= s@);
                }
            },
            None => {
                proof {
                    assert(out@ =~= s@);
                }
                return out;
            },
        }
    }
}

/// Relies on `char::from_u32`: returns the character with the given scalar
/// value, and `None` exactly on surrogate values and values above the
/// Unicode range.
#[verifier::external_body]
pub fn char_from_u32(n: u32) -> (r: Option<char>)
    ensures
        r is Some <==> (n < 0xD800 || (0xE000 <= n && n <= 0x10FFFF)),
        r is Some ==> r == Some(n as char),
        r matches Some(c) ==> c as u32 == n,
{
    char::from_u32(n)
}

} // verus!
