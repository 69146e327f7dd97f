//! Infix notation for alternation and substitution.

use crate::combinators::{as_yields, or_yields, p_as, p_or};
use crate::error::{ErrorView, ParseError};
use crate::parser::{Outcome, Parser};
use vstd::prelude::*;

verus! {

impl<A: 'static> std::ops::BitOr for Parser<A, ParseError> {
    type Output = Parser<A, ParseError>;

    /// `left | right` is `p_or(left, right)`.
    fn bitor(self, rhs: Self) -> (p: Parser<A, ParseError>)
        ensures
            forall|inp: Seq<char>, out: Outcome<A, ErrorView>|
                #![trigger p.yields(inp, out)]
                p.yields(inp, out) <==> or_yields(self, rhs, inp, out),
    {
        p_or(self, rhs)
    }
}

/// The operator is described by the contract of `bitor` alone: what it
/// builds is known by its answers, not as a value.
impl<A: 'static> vstd::std_specs::ops::BitOrSpecImpl for Parser<A, ParseError> {
    open spec fn obeys_bitor_spec() -> bool {
        false
    }

    open spec fn bitor_req(self, rhs: Self) -> bool {
        true
    }

    open spec fn bitor_spec(self, rhs: Self) -> Parser<A, ParseError> {
        arbitrary()
    }
}

impl<A: 'static, B: Copy + 'static> std::ops::BitXor<B> for Parser<A, ParseError> {
    type Output = Parser<B, ParseError>;

    /// `parser ^ value` is `p_as(parser, value)`.
    fn bitxor(self, rhs: B) -> (p: Parser<B, ParseError>)
        ensures
            forall|inp: Seq<char>, out: Outcome<B, ErrorView>|
                #![trigger p.yields(inp, out)]
                p.yields(inp, out) <==> as_yields(self, rhs, inp, out),
    {
        p_as(self, rhs)
    }
}

/// The operator is described by the contract of `bitxor` alone: what it
/// builds is known by its answers, not as a value.
impl<A: 'static, B: Copy + 'static> vstd::std_specs::ops::BitXorSpecImpl<B> for Parser<A, ParseError> {
    open spec fn obeys_bitxor_spec() -> bool {
        false
    }

    open spec fn bitxor_req(self, rhs: B) -> bool {
        true
    }

    open spec fn bitxor_spec(self, rhs: B) -> Parser<B, ParseError> {
        arbitrary()
    }
}

} // verus!
