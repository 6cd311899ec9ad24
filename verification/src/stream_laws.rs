//! The laws of the stream parser: position monotonicity, failure
//! idempotence, and option monotonicity.

use vstd::prelude::*;

use crate::chars::is_next_line;
use crate::errors::ErrorKind;
use crate::machine::{
    spec_close_array, spec_close_object, spec_feed, spec_feed_all, spec_handle_eof,
    spec_handle_slash, spec_number_separator, spec_step, spec_step_empty, stack_top, LocState, ParserModel, ValState,
};
use crate::options::ParserOption;
use crate::token::{Location, Token};

verus! {

/// Position monotonicity: every accepted scalar advances the position by
/// exactly one.
pub proof fn lemma_position_monotonic(m: ParserModel, c: char)
    requires
        spec_feed(m, c) is Ok,
    ensures
        spec_feed(m, c)->Ok_0.1.position == m.position + 1,
{
}

/// A line feed, with no carriage return pending, advances the line by
/// exactly one and resets the column.
pub proof fn lemma_newline_lf(m: ParserModel, m2: ParserModel, t: Token)
    requires
        !m.meet_cr,
        spec_feed(m, '\n') == Ok::<(Token, ParserModel), ErrorKind>((t, m2)),
    ensures
        m2.line == m.line + 1,
        m2.column == 0,
{
}

/// A carriage return followed by a line feed advances the line by exactly
/// one across the two characters.
pub proof fn lemma_newline_crlf(m: ParserModel, m2: ParserModel, m3: ParserModel, t1: Token, t2: Token)
    requires
        !m.meet_cr,
        spec_feed(m, '\r') == Ok::<(Token, ParserModel), ErrorKind>((t1, m2)),
        spec_feed(m2, '\n') == Ok::<(Token, ParserModel), ErrorKind>((t2, m3)),
    ensures
        m3.line == m.line + 1,
        m3.column == 0,
{
}

/// A carriage return alone advances the line by exactly one, seen at the
/// next scalar that is not a line feed and no line terminator itself.
pub proof fn lemma_newline_cr_alone(m: ParserModel, m2: ParserModel, m3: ParserModel, t1: Token, t2: Token, c: char)
    requires
        !m.meet_cr,
        spec_feed(m, '\r') == Ok::<(Token, ParserModel), ErrorKind>((t1, m2)),
        spec_feed(m2, c) == Ok::<(Token, ParserModel), ErrorKind>((t2, m3)),
        c != '\n',
        c != '\0',
        !is_next_line(c),
    ensures
        m3.line == m.line + 1,
        m3.column == 1,
{
}

/// The same model state under a larger option set.
pub open spec fn with_option(m: ParserModel, o: ParserOption) -> ParserModel {
    ParserModel { option: o, ..m }
}

/// Option monotonicity, one step: a scalar the machine accepts under an
/// option set it accepts under every larger option set, with the same
/// token and the same next state.
pub proof fn lemma_step_option_monotone(
    loc: LocState,
    val: ValState,
    pending: u16,
    top: Option<LocState>,
    c: char,
    o1: ParserOption,
    o2: ParserOption,
)
    requires
        o1.le(o2),
        spec_step(loc, val, pending, top, c, o1) is Ok,
    ensures
        spec_step(loc, val, pending, top, c, o2) == spec_step(loc, val, pending, top, c, o1),
{
    reveal(spec_step);
    match val {
        ValState::Empty => {
            lemma_mono_step_empty(loc, top, c, o1, o2);
        },
        ValState::Num(_)
        | ValState::NumFraction(_, _)
        | ValState::NumExponent(_)
        | ValState::NumHex(_)
        | ValState::NumOct(_)
        | ValState::NumBin(_) => {
            lemma_mono_number(loc, val, pending, top, c, o1, o2);
        },
        _ => {
            lemma_mono_other(loc, val, pending, top, c, o1, o2);
        },
    }
}

/// The monotonicity of the end-of-input handler.
proof fn lemma_mono_eof(loc: LocState, tokloc: Location, o1: ParserOption, o2: ParserOption)
    requires
        o1.le(o2),
    ensures
        spec_handle_eof(loc, tokloc, o1) is Ok ==> spec_handle_eof(loc, tokloc, o2)
            == spec_handle_eof(loc, tokloc, o1),
{
}

/// The monotonicity of the comment opener.
proof fn lemma_mono_slash(loc: LocState, o1: ParserOption, o2: ParserOption)
    requires
        o1.le(o2),
    ensures
        spec_handle_slash(loc, o1) is Ok ==> spec_handle_slash(loc, o2) == spec_handle_slash(
            loc,
            o1,
        ),
{
}

/// The monotonicity of closing a container.
proof fn lemma_mono_close(
    loc: LocState,
    top: Option<LocState>,
    o1: ParserOption,
    o2: ParserOption,
)
    requires
        o1.le(o2),
    ensures
        spec_close_array(loc, top, o1) is Ok ==> spec_close_array(loc, top, o2)
            == spec_close_array(loc, top, o1),
        spec_close_object(loc, top, o1) is Ok ==> spec_close_object(loc, top, o2)
            == spec_close_object(loc, top, o1),
{
}

/// The monotonicity of ending a number at a separator.
proof fn lemma_mono_separator(
    loc: LocState,
    top: Option<LocState>,
    c: char,
    o1: ParserOption,
    o2: ParserOption,
)
    requires
        o1.le(o2),
    ensures
        spec_number_separator(loc, top, c, o1) is Ok ==> spec_number_separator(loc, top, c, o2)
            == spec_number_separator(loc, top, c, o1),
{
    let nl = crate::machine::next_location(loc);
    lemma_mono_close(nl, top, o1, o2);
    lemma_mono_eof(nl, crate::machine::transform_location(loc), o1, o2);
    lemma_mono_slash(nl, o1, o2);
}

/// The case of [`lemma_step_option_monotone`] between atoms.
#[verifier::rlimit(100)]
#[verifier::spinoff_prover]
proof fn lemma_mono_step_empty(
    loc: LocState,
    top: Option<LocState>,
    c: char,
    o1: ParserOption,
    o2: ParserOption,
)
    requires
        o1.le(o2),
        spec_step_empty(loc, top, c, o1) is Ok,
    ensures
        spec_step_empty(loc, top, c, o2) == spec_step_empty(loc, top, c, o1),
{
    lemma_mono_eof(loc, crate::machine::transform_location(loc), o1, o2);
    lemma_mono_slash(loc, o1, o2);
    lemma_mono_close(loc, top, o1, o2);
}

/// The case of [`lemma_step_option_monotone`] inside a number.
#[verifier::rlimit(100)]
#[verifier::spinoff_prover]
proof fn lemma_mono_number(
    loc: LocState,
    val: ValState,
    pending: u16,
    top: Option<LocState>,
    c: char,
    o1: ParserOption,
    o2: ParserOption,
)
    requires
        o1.le(o2),
        val matches ValState::Num(_) || val matches ValState::NumFraction(_, _) || val
            matches ValState::NumExponent(_) || val matches ValState::NumHex(_) || val
            matches ValState::NumOct(_) || val matches ValState::NumBin(_),
        spec_step(loc, val, pending, top, c, o1) is Ok,
    ensures
        spec_step(loc, val, pending, top, c, o2) == spec_step(loc, val, pending, top, c, o1),
{
    reveal(spec_step);
    lemma_mono_separator(loc, top, c, o1, o2);
}

/// The case of [`lemma_step_option_monotone`] inside a keyword, a string,
/// a comment or an identifier.
#[verifier::rlimit(100)]
#[verifier::spinoff_prover]
proof fn lemma_mono_other(
    loc: LocState,
    val: ValState,
    pending: u16,
    top: Option<LocState>,
    c: char,
    o1: ParserOption,
    o2: ParserOption,
)
    requires
        o1.le(o2),
        !(val matches ValState::Empty),
        !(val matches ValState::Num(_)),
        !(val matches ValState::NumFraction(_, _)),
        !(val matches ValState::NumExponent(_)),
        !(val matches ValState::NumHex(_)),
        !(val matches ValState::NumOct(_)),
        !(val matches ValState::NumBin(_)),
        spec_step(loc, val, pending, top, c, o1) is Ok,
    ensures
        spec_step(loc, val, pending, top, c, o2) == spec_step(loc, val, pending, top, c, o1),
{
    reveal(spec_step);
    match val {
        ValState::CommentLine => {
            if c == '\0' {
                lemma_mono_eof(loc, crate::machine::transform_location(loc), o1, o2);
            }
        },
        _ => {
        },
    }
}

/// Option monotonicity, a whole feed: the counters advance the same way.
pub proof fn lemma_feed_option_monotone(m: ParserModel, o2: ParserOption, c: char)
    requires
        m.option.le(o2),
        spec_feed(m, c) is Ok,
    ensures
        spec_feed(with_option(m, o2), c) matches Ok(p2) && p2.0 == spec_feed(m, c)->Ok_0.0 && p2.1
            == with_option(spec_feed(m, c)->Ok_0.1, o2),
{
    let m2 = with_option(m, o2);
    lemma_step_option_monotone(m.loc, m.val, m.pending, stack_top(m.stack), c, m.option, o2);
    let out = spec_step(m.loc, m.val, m.pending, stack_top(m.stack), c, m.option)->Ok_0;
    let p1 = spec_feed(m, c)->Ok_0;
    assert(spec_feed(m2, c) matches Ok(p2) && p2.0 == p1.0 && p2.1 == with_option(p1.1, o2)) by {
        assert(with_option(p1.1, o2) =~= spec_feed(m2, c)->Ok_0.1);
    }
}

/// Option monotonicity, a whole document: every input accepted under an
/// option set is accepted under every larger option set, and produces the
/// same token sequence.
pub proof fn lemma_feed_all_option_monotone(m: ParserModel, o2: ParserOption, cs: Seq<char>)
    requires
        m.option.le(o2),
        spec_feed_all(m, cs).err is None,
    ensures
        ({
            let f1 = spec_feed_all(m, cs);
            let f2 = spec_feed_all(with_option(m, o2), cs);
            f2.err is None && f2.tokens == f1.tokens && f2.state == with_option(f1.state, o2)
        }),
    decreases cs.len(),
{
    let f1 = spec_feed_all(m, cs);
    let f2 = spec_feed_all(with_option(m, o2), cs);
    if cs.len() == 0 {
        assert(f2.state =~= with_option(f1.state, o2));
    } else {
        match spec_feed(m, cs[0]) {
            Err(_) => {
                assert(false);
            },
            Ok((t, mn)) => {
                lemma_feed_option_monotone(m, o2, cs[0]);
                lemma_feed_all_option_monotone(mn, o2, cs.drop_first());
            },
        }
    }
}

} // verus!
