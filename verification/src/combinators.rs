//! The combinators: parsers built from parsers.
//!
//! Each combinator comes with a relation that says which answers the parser
//! it builds has on an input, in terms of the answers of its parts. None of
//! them looks at the input itself.

use crate::error::{ErrorView, ParseError};
use crate::parser::{outcome, Outcome, Parser, Rule};
use vstd::prelude::*;

verus! {

/// `out` is an answer of `then(a, b)` on `inp`: `a` has an answer on `inp`
/// that is either a success, and `out` is then an answer of `b` on the
/// remainder that `a` left, or a failure, and `out` is then that failure.
pub open spec fn then_yields<A, B, E: View>(
    a: Parser<A, E>,
    b: Parser<B, E>,
    inp: Seq<char>,
    out: Outcome<B, E::V>,
) -> bool {
    exists|first: Outcome<A, E::V>|
        #![trigger a.yields(inp, first)]
        a.yields(inp, first) && match first {
            Ok((_, rest)) => b.yields(rest, out),
            Err(e) => out == Err::<(B, Seq<char>), E::V>(e),
        }
}

#[verifier::reject_recursive_types(A)]
#[verifier::reject_recursive_types(B)]
#[verifier::reject_recursive_types(E)]
pub(crate) struct ThenRule<A, B, E: View> {
    pub(crate) first: Parser<A, E>,
    pub(crate) second: Parser<B, E>,
}

impl<A, B, E: View> Rule<B, E> for ThenRule<A, B, E> {
    open spec fn wf(&self) -> bool {
        true
    }

    open spec fn yields(&self, inp: Seq<char>, out: Outcome<B, E::V>) -> bool {
        then_yields(self.first, self.second, inp, out)
    }

    fn apply<'a>(&self, inp: &'a str) -> (r: Result<(B, &'a str), E>) {
        match self.first.run(inp) {
            Ok((_, rest)) => self.second.run(rest),
            Err(e) => Err(e),
        }
    }
}

/// Runs `a`, drops its value, and runs `b` on what `a` left. A failure of
/// `a` is returned as it is, and `b` is then not run.
pub fn then<A: 'static, B: 'static, E: View + 'static>(a: Parser<A, E>, b: Parser<B, E>) -> (p:
    Parser<B, E>)
    ensures
        forall|inp: Seq<char>, out: Outcome<B, E::V>|
            #![trigger p.yields(inp, out)]
            p.yields(inp, out) <==> then_yields(a, b, inp, out),
{
    Parser { rule: Box::new(ThenRule { first: a, second: b }) }
}

/// `out` is an answer of `bind(a, f)` on `inp`: `a` has an answer on `inp`
/// that is either a success with a value, and `out` is then an answer, on
/// the remainder that `a` left, of a parser that `f` returns for that value,
/// or a failure, and `out` is then that failure.
pub open spec fn bind_yields<A, B, E: View, F: Fn(A) -> Parser<B, E>>(
    a: Parser<A, E>,
    f: F,
    inp: Seq<char>,
    out: Outcome<B, E::V>,
) -> bool {
    exists|first: Outcome<A, E::V>|
        #![trigger a.yields(inp, first)]
        a.yields(inp, first) && match first {
            Ok((v, rest)) => exists|next: Parser<B, E>|
                #![trigger call_ensures(f, (v,), next)]
                call_ensures(f, (v,), next) && next.yields(rest, out),
            Err(e) => out == Err::<(B, Seq<char>), E::V>(e),
        }
}

#[verifier::reject_recursive_types(A)]
#[verifier::reject_recursive_types(E)]
#[verifier::reject_recursive_types(F)]
pub(crate) struct BindRule<A, E: View, F> {
    pub(crate) first: Parser<A, E>,
    pub(crate) f: F,
}

impl<A, B, E: View, F: Fn(A) -> Parser<B, E>> Rule<B, E> for BindRule<A, E, F> {
    open spec fn wf(&self) -> bool {
        forall|v: A| call_requires(self.f, (v,))
    }

    open spec fn yields(&self, inp: Seq<char>, out: Outcome<B, E::V>) -> bool {
        bind_yields(self.first, self.f, inp, out)
    }

    fn apply<'a>(&self, inp: &'a str) -> (r: Result<(B, &'a str), E>) {
        match self.first.run(inp) {
            Ok((v, rest)) => {
                let ghost value = v;
                let next = (self.f)(v);
                let r = next.run(rest);
                proof {
                    // The witnesses: what the first parser answered, and the
                    // parser that `f` made of its value.
                    let first: Outcome<A, E::V> = Ok((value, rest@));
                    assert(call_ensures(self.f, (first->Ok_0.0,), next));
                }
                r
            },
            Err(e) => Err(e),
        }
    }
}

/// Runs `a`, hands its value to `f`, and runs the parser that `f` returns
/// on what `a` left. A failure of `a` is returned as it is, and `f` is then
/// not called. `f` must accept every value.
pub fn bind<A: 'static, B: 'static, E: View + 'static, F: Fn(A) -> Parser<B, E> + 'static>(
    a: Parser<A, E>,
    f: F,
) -> (p: Parser<B, E>)
    requires
        forall|v: A| call_requires(f, (v,)),
    ensures
        forall|inp: Seq<char>, out: Outcome<B, E::V>|
            #![trigger p.yields(inp, out)]
            p.yields(inp, out) <==> bind_yields(a, f, inp, out),
{
    Parser { rule: Box::new(BindRule { first: a, f }) }
}

/// `out` is an answer of `map(a, f)` on `inp`: `a` has an answer on `inp`
/// that is either a success with a value, and `out` is then a success with
/// a result of `f` on that value and the same remainder, or a failure, and
/// `out` is then that failure.
pub open spec fn map_yields<A, B, E: View, F: Fn(A) -> B>(
    a: Parser<A, E>,
    f: F,
    inp: Seq<char>,
    out: Outcome<B, E::V>,
) -> bool {
    exists|first: Outcome<A, E::V>|
        #![trigger a.yields(inp, first)]
        a.yields(inp, first) && match first {
            Ok((v, rest)) => out matches Ok((w, after)) && after == rest && call_ensures(
                f,
                (v,),
                w,
            ),
            Err(e) => out == Err::<(B, Seq<char>), E::V>(e),
        }
}

#[verifier::reject_recursive_types(A)]
#[verifier::reject_recursive_types(E)]
#[verifier::reject_recursive_types(F)]
pub(crate) struct MapRule<A, E: View, F> {
    pub(crate) first: Parser<A, E>,
    pub(crate) f: F,
}

impl<A, B, E: View, F: Fn(A) -> B> Rule<B, E> for MapRule<A, E, F> {
    open spec fn wf(&self) -> bool {
        forall|v: A| call_requires(self.f, (v,))
    }

    open spec fn yields(&self, inp: Seq<char>, out: Outcome<B, E::V>) -> bool {
        map_yields(self.first, self.f, inp, out)
    }

    fn apply<'a>(&self, inp: &'a str) -> (r: Result<(B, &'a str), E>) {
        match self.first.run(inp) {
            Ok((v, rest)) => {
                let w = (self.f)(v);
                Ok((w, rest))
            },
            Err(e) => Err(e),
        }
    }
}

/// Runs `a` and applies `f` to its value. The remainder and a failure of
/// `a` are returned as they are. `f` must accept every value.
pub fn map<A: 'static, B: 'static, E: View + 'static, F: Fn(A) -> B + 'static>(
    a: Parser<A, E>,
    f: F,
) -> (p: Parser<B, E>)
    requires
        forall|v: A| call_requires(f, (v,)),
    ensures
        forall|inp: Seq<char>, out: Outcome<B, E::V>|
            #![trigger p.yields(inp, out)]
            p.yields(inp, out) <==> map_yields(a, f, inp, out),
{
    Parser { rule: Box::new(MapRule { first: a, f }) }
}

/// `out` is an answer of `p_as(a, b)` on `inp`: `a` has an answer on `inp`
/// that is either a success, and `out` is then a success with the value `b`
/// and the same remainder, or a failure, and `out` is then that failure.
pub open spec fn as_yields<A, B, E: View>(
    a: Parser<A, E>,
    b: B,
    inp: Seq<char>,
    out: Outcome<B, E::V>,
) -> bool {
    exists|first: Outcome<A, E::V>|
        #![trigger a.yields(inp, first)]
        a.yields(inp, first) && match first {
            Ok((_, rest)) => out == Ok::<(B, Seq<char>), E::V>((b, rest)),
            Err(e) => out == Err::<(B, Seq<char>), E::V>(e),
        }
}

#[verifier::reject_recursive_types(A)]
#[verifier::reject_recursive_types(E)]
pub(crate) struct AsRule<A, B, E: View> {
    pub(crate) first: Parser<A, E>,
    pub(crate) value: B,
}

impl<A, B: Copy, E: View> Rule<B, E> for AsRule<A, B, E> {
    open spec fn wf(&self) -> bool {
        true
    }

    open spec fn yields(&self, inp: Seq<char>, out: Outcome<B, E::V>) -> bool {
        as_yields(self.first, self.value, inp, out)
    }

    fn apply<'a>(&self, inp: &'a str) -> (r: Result<(B, &'a str), E>) {
        match self.first.run(inp) {
            Ok((_, rest)) => Ok((self.value, rest)),
            Err(e) => Err(e),
        }
    }
}

/// Runs `a` and puts `b` in the place of its value. The remainder and a
/// failure of `a` are returned as they are.
pub fn p_as<A: 'static, B: Copy + 'static, E: View + 'static>(a: Parser<A, E>, b: B) -> (p: Parser<
    B,
    E,
>)
    ensures
        forall|inp: Seq<char>, out: Outcome<B, E::V>|
            #![trigger p.yields(inp, out)]
            p.yields(inp, out) <==> as_yields(a, b, inp, out),
{
    Parser { rule: Box::new(AsRule { first: a, value: b }) }
}

/// `out` is an answer of `p_or(left, right)` on `inp`: `left` has an answer
/// on `inp` that is either a success, and `out` is then that success, or a
/// failure; `right` then has an answer on the same `inp` that is either a
/// success, and `out` is then that success, or a failure, and `out` is then
/// the aggregate of the two failures, that of `left` first.
pub open spec fn or_yields<A>(
    left: Parser<A, ParseError>,
    right: Parser<A, ParseError>,
    inp: Seq<char>,
    out: Outcome<A, ErrorView>,
) -> bool {
    exists|l: Outcome<A, ErrorView>|
        #![trigger left.yields(inp, l)]
        left.yields(inp, l) && match l {
            Ok(found) => out == Ok::<(A, Seq<char>), ErrorView>(found),
            Err(e1) => exists|r: Outcome<A, ErrorView>|
                #![trigger right.yields(inp, r)]
                right.yields(inp, r) && match r {
                    Ok(found) => out == Ok::<(A, Seq<char>), ErrorView>(found),
                    Err(e2) => out == Err::<(A, Seq<char>), ErrorView>(
                        ErrorView::Multiple(seq![e1, e2]),
                    ),
                },
        }
}

#[verifier::reject_recursive_types(A)]
pub(crate) struct OrRule<A> {
    pub(crate) left: Parser<A, ParseError>,
    pub(crate) right: Parser<A, ParseError>,
}

impl<A> Rule<A, ParseError> for OrRule<A> {
    open spec fn wf(&self) -> bool {
        true
    }

    open spec fn yields(&self, inp: Seq<char>, out: Outcome<A, ErrorView>) -> bool {
        or_yields(self.left, self.right, inp, out)
    }

    fn apply<'a>(&self, inp: &'a str) -> (r: Result<(A, &'a str), ParseError>) {
        match self.left.run(inp) {
            Ok(found) => Ok(found),
            Err(e1) => match self.right.run(inp) {
                Ok(found) => Ok(found),
                Err(e2) => {
                    let ghost both = seq![e1@, e2@];
                    let e = ParseError::Multiple(vec![e1, e2]);
                    assert(e@->Multiple_0 =~= both);
                    Err(e)
                },
            },
        }
    }
}

/// Tries `left`, and `right` on the same input where `left` failed. A
/// success of `left` is returned as it is, and `right` is then not run.
/// Where both fail, the error holds both failures, that of `left` first.
pub fn p_or<A: 'static>(left: Parser<A, ParseError>, right: Parser<A, ParseError>) -> (p: Parser<
    A,
    ParseError,
>)
    ensures
        forall|inp: Seq<char>, out: Outcome<A, ErrorView>|
            #![trigger p.yields(inp, out)]
            p.yields(inp, out) <==> or_yields(left, right, inp, out),
{
    Parser { rule: Box::new(OrRule { left, right }) }
}

} // verus!
