//! The leaf parsers: one character, one literal.

use crate::error::{ErrorView, ParseError};
use crate::parser::{Outcome, Parser, Rule};
use std::str::Chars;
use vstd::prelude::*;
use vstd::std_specs::iter::IteratorSpec;

verus! {

broadcast use vstd::string::group_string_axioms;

/// `char::to_string` of the standard library: the text made of the one
/// character `c`.
#[verifier::external_body]
fn char_to_string(c: char) -> (s: String)
    ensures
        s@ == seq![c],
{
    c.to_string()
}

/// `Chars::as_str` of the standard library: the part of the text that the
/// iterator has not yet walked, which holds exactly the characters it will
/// still hand out.
pub assume_specification<'a>[ Chars::<'a>::as_str ](chars: &Chars<'a>) -> (rest: &'a str)
    ensures
        rest@ == chars.remaining(),
;

/// `str::strip_prefix` of the standard library, with a text as the pattern:
/// where `inp` starts with `prefix`, the rest of `inp` after it; else
/// nothing.
#[verifier::external_body]
fn strip_prefix<'a>(inp: &'a str, prefix: &str) -> (rest: Option<&'a str>)
    ensures
        match rest {
            Some(rest) => inp@ == prefix@ + rest@,
            None => !prefix@.is_prefix_of(inp@),
        },
{
    inp.strip_prefix(prefix)
}

/// What the parser of the character `c` answers on `inp`: on a first
/// character equal to `c`, that character and all that follows it; on
/// another first character, a mismatch that names both; on empty input,
/// the end of input where `c` was expected.
pub open spec fn char_spec(c: char, inp: Seq<char>) -> Outcome<char, ErrorView> {
    if inp.len() == 0 {
        Err(ErrorView::EOF(seq![c]))
    } else if inp[0] == c {
        Ok((c, inp.drop_first()))
    } else {
        Err(ErrorView::Mismatch(seq![c], seq![inp[0]]))
    }
}

pub(crate) struct CharRule {
    pub(crate) c: char,
}

impl Rule<char, ParseError> for CharRule {
    open spec fn wf(&self) -> bool {
        true
    }

    open spec fn yields(&self, inp: Seq<char>, out: Outcome<char, ErrorView>) -> bool {
        out == char_spec(self.c, inp)
    }

    fn apply<'a>(&self, inp: &'a str) -> (r: Result<(char, &'a str), ParseError>) {
        let mut chars = inp.chars();
        let next = chars.next();
        match next {
            Some(found) => {
                if found == self.c {
                    Ok((self.c, chars.as_str()))
                } else {
                    Err(ParseError::Mismatch(char_to_string(self.c), char_to_string(found)))
                }
            },
            None => Err(ParseError::EOF(char_to_string(self.c))),
        }
    }
}

/// The parser that consumes exactly one character equal to `c`. On every
/// input it has one answer, the one that `char_spec` gives.
pub fn p_char(c: char) -> (p: Parser<char, ParseError>)
    ensures
        forall|inp: Seq<char>, out: Outcome<char, ErrorView>|
            #![trigger p.yields(inp, out)]
            p.yields(inp, out) <==> out == char_spec(c, inp),
{
    Parser { rule: Box::new(CharRule { c }) }
}

/// What the parser of the literal `s` answers on `inp`: where `inp` starts
/// with the characters of `s`, the literal itself and what follows it; in
/// every other case, also where `inp` is too short, a mismatch that names
/// the literal and the whole of `inp`.
pub open spec fn literal_spec(s: String, inp: Seq<char>) -> Outcome<String, ErrorView> {
    if s@.is_prefix_of(inp) {
        Ok((s, inp.skip(s@.len() as int)))
    } else {
        Err(ErrorView::Mismatch(s@, inp))
    }
}

pub(crate) struct LiteralRule {
    pub(crate) s: String,
}

impl Rule<String, ParseError> for LiteralRule {
    open spec fn wf(&self) -> bool {
        true
    }

    open spec fn yields(&self, inp: Seq<char>, out: Outcome<String, ErrorView>) -> bool {
        out == literal_spec(self.s, inp)
    }

    fn apply<'a>(&self, inp: &'a str) -> (r: Result<(String, &'a str), ParseError>) {
        match strip_prefix(inp, self.s.as_str()) {
            Some(rest) => {
                assert(rest@ =~= inp@.skip(self.s@.len() as int));
                Ok((self.s.clone(), rest))
            },
            None => Err(ParseError::Mismatch(self.s.clone(), inp.to_string())),
        }
    }
}

/// The parser that consumes exactly the characters of `s` and yields `s`.
/// On every input it has one answer, the one that `literal_spec` gives.
pub fn p_str(s: String) -> (p: Parser<String, ParseError>)
    ensures
        forall|inp: Seq<char>, out: Outcome<String, ErrorView>|
            #![trigger p.yields(inp, out)]
            p.yields(inp, out) <==> out == literal_spec(s, inp),
{
    Parser { rule: Box::new(LiteralRule { s }) }
}

} // verus!
