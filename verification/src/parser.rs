//! The parser abstraction: a value that can be run on an input any number
//! of times, and that consumes a prefix of it or fails.
//!
//! A parser is described by a relation, [`Parser::yields`], between an
//! input and an answer. The function that builds a parser says which
//! answers its parser has on each input, and [`Parser::run`] returns one of
//! them. A parser built from the primitives alone has exactly one answer on
//! each input; one built over a caller's function has those answers that
//! the function's own contract allows.

use vstd::prelude::*;

verus! {

/// What a parser answers on one input, as a mathematical value: the parsed
/// value with the unconsumed remainder, or the view of the failure.
pub type Outcome<A, EV> = Result<(A, Seq<char>), EV>;

/// The mathematical value of what `run` returned.
pub open spec fn outcome<A, E: View>(r: Result<(A, &str), E>) -> Outcome<A, E::V> {
    match r {
        Ok((value, rest)) => Ok((value, rest@)),
        Err(e) => Err(e@),
    }
}

/// Where `out` is a success, its remainder is the end of `inp`.
pub open spec fn leaves_suffix<A, EV>(inp: Seq<char>, out: Outcome<A, EV>) -> bool {
    out matches Ok((_, rest)) ==> rest.is_suffix_of(inp)
}

/// One way of parsing. Each primitive and each combinator is a rule; a
/// [`Parser`] owns one rule and hides which.
pub(crate) trait Rule<A, E: View> {
    /// What the rule needs of its parts in order to be applied.
    spec fn wf(&self) -> bool;

    /// `out` is an answer of the rule on `inp`.
    spec fn yields(&self, inp: Seq<char>, out: Outcome<A, E::V>) -> bool;

    fn apply<'a>(&self, inp: &'a str) -> (r: Result<(A, &'a str), E>)
        requires
            self.wf(),
        ensures
            self.yields(inp@, outcome(r)),
            leaves_suffix(inp@, outcome(r)),
    ;
}

/// A parser of values of type `A` that fails with errors of type `E`.
#[verifier::reject_recursive_types(A)]
#[verifier::reject_recursive_types(E)]
pub struct Parser<A, E: View> {
    pub(crate) rule: Box<dyn Rule<A, E>>,
}

impl<A, E: View> Parser<A, E> {
    #[verifier::type_invariant]
    pub(crate) open spec fn inv(&self) -> bool {
        self.rule.wf()
    }

    /// The model of the parser: `out` is an answer of the parser on `inp`.
    pub open(crate) spec fn yields(&self, inp: Seq<char>, out: Outcome<A, E::V>) -> bool {
        self.rule.yields(inp, out)
    }

    /// The parser succeeds on `inp`: it has an answer there, and each of
    /// its answers there is a success.
    pub open spec fn succeeds_on(&self, inp: Seq<char>) -> bool {
        &&& exists|out: Outcome<A, E::V>| #[trigger] self.yields(inp, out)
        &&& forall|out: Outcome<A, E::V>| #[trigger] self.yields(inp, out) ==> out is Ok
    }

    /// The parser fails on `inp`: it has an answer there, and each of its
    /// answers there is a failure.
    pub open spec fn fails_on(&self, inp: Seq<char>) -> bool {
        &&& exists|out: Outcome<A, E::V>| #[trigger] self.yields(inp, out)
        &&& forall|out: Outcome<A, E::V>| #[trigger] self.yields(inp, out) ==> out is Err
    }

    /// The parser has at most one answer on each input.
    pub open spec fn deterministic(&self) -> bool {
        forall|inp: Seq<char>, x: Outcome<A, E::V>, y: Outcome<A, E::V>|
            #![trigger self.yields(inp, x), self.yields(inp, y)]
            self.yields(inp, x) && self.yields(inp, y) ==> x == y
    }

    /// What the parser leaves is the end of what it was given: a success
    /// consumes a prefix of the input and nothing else.
    pub open spec fn consumes_prefix(&self) -> bool {
        forall|inp: Seq<char>, out: Outcome<A, E::V>|
            #![trigger self.yields(inp, out)]
            self.yields(inp, out) ==> leaves_suffix(inp, out)
    }

    /// Runs the parser on `inp`. What it returns is an answer of the model
    /// on the characters of `inp`, and the remainder of a success is the end
    /// of `inp`. Where the parser is deterministic this is its one answer
    /// there, so that every run on equal input returns it. The parser is
    /// left as it was and can be run again.
    pub fn run<'a>(&self, inp: &'a str) -> (r: Result<(A, &'a str), E>)
        ensures
            self.yields(inp@, outcome(r)),
            leaves_suffix(inp@, outcome(r)),
            self.deterministic() ==> forall|out: Outcome<A, E::V>|
                #![trigger self.yields(inp@, out)]
                self.yields(inp@, out) ==> out == outcome(r),
    {
        proof {
            use_type_invariant(self);
        }
        self.rule.apply(inp)
    }
}

} // verus!
