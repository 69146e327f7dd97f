//! What holds of the combinators on every input.

use crate::combinators::{as_yields, bind_yields, map_yields, or_yields, then_yields};
use crate::error::{ErrorView, ParseError};
use crate::parser::{leaves_suffix, Outcome, Parser};
use crate::primitives::{char_spec, literal_spec};
use vstd::prelude::*;

verus! {

/// Alternation prefers its left branch: where `left` succeeds on `inp`,
/// `p_or(left, right)` answers there exactly as `left` does, whatever
/// `right` is.
pub proof fn lemma_or_left_succeeds<A>(
    left: Parser<A, ParseError>,
    right: Parser<A, ParseError>,
    inp: Seq<char>,
)
    requires
        left.succeeds_on(inp),
    ensures
        forall|out: Outcome<A, ErrorView>|
            #![trigger or_yields(left, right, inp, out)]
            #![trigger left.yields(inp, out)]
            or_yields(left, right, inp, out) <==> left.yields(inp, out),
{
}

/// Alternation backtracks: where `left` fails on `inp` and `right` succeeds
/// on the same `inp`, `p_or(left, right)` answers there exactly as `right`
/// does on the whole of `inp`.
pub proof fn lemma_or_right_succeeds<A>(
    left: Parser<A, ParseError>,
    right: Parser<A, ParseError>,
    inp: Seq<char>,
)
    requires
        left.fails_on(inp),
        right.succeeds_on(inp),
    ensures
        forall|out: Outcome<A, ErrorView>|
            #![trigger or_yields(left, right, inp, out)]
            #![trigger right.yields(inp, out)]
            or_yields(left, right, inp, out) <==> right.yields(inp, out),
{
}

/// Alternation loses no failure: where both branches fail on `inp`, the
/// answers of `p_or(left, right)` there are exactly the aggregates of a
/// failure of `left` followed by a failure of `right`.
pub proof fn lemma_or_both_fail<A>(
    left: Parser<A, ParseError>,
    right: Parser<A, ParseError>,
    inp: Seq<char>,
)
    requires
        left.fails_on(inp),
        right.fails_on(inp),
    ensures
        forall|out: Outcome<A, ErrorView>|
            #![trigger or_yields(left, right, inp, out)]
            or_yields(left, right, inp, out) <==> exists|e1: ErrorView, e2: ErrorView|
                #![trigger left.yields(inp, Err(e1)), right.yields(inp, Err(e2))]
                left.yields(inp, Err(e1)) && right.yields(inp, Err(e2)) && out == Err::<
                    (A, Seq<char>),
                    ErrorView,
                >(ErrorView::Multiple(seq![e1, e2])),
{
}

/// Sequencing stops at the first failure: where `a` fails on `inp`, the
/// answers of `then(a, b)` there are exactly the failures of `a`, whatever
/// `b` is.
pub proof fn lemma_then_short_circuit<A, B, E: View>(
    a: Parser<A, E>,
    b: Parser<B, E>,
    inp: Seq<char>,
)
    requires
        a.fails_on(inp),
    ensures
        forall|out: Outcome<B, E::V>|
            #![trigger then_yields(a, b, inp, out)]
            then_yields(a, b, inp, out) <==> (out matches Err(e) && a.yields(
                inp,
                Err::<(A, Seq<char>), E::V>(e),
            )),
{
}

/// Binding stops at the first failure: where `a` fails on `inp`, the
/// answers of `bind(a, f)` there are exactly the failures of `a`, whatever
/// `f` is.
pub proof fn lemma_bind_short_circuit<A, B, E: View, F: Fn(A) -> Parser<B, E>>(
    a: Parser<A, E>,
    f: F,
    inp: Seq<char>,
)
    requires
        a.fails_on(inp),
    ensures
        forall|out: Outcome<B, E::V>|
            #![trigger bind_yields(a, f, inp, out)]
            bind_yields(a, f, inp, out) <==> (out matches Err(e) && a.yields(
                inp,
                Err::<(A, Seq<char>), E::V>(e),
            )),
{
}

/// Mapping hands a failure on as it is: where `a` fails on `inp`, the
/// answers of `map(a, f)` there are exactly the failures of `a`, whatever
/// `f` is.
pub proof fn lemma_map_keeps_failure<A, B, E: View, F: Fn(A) -> B>(
    a: Parser<A, E>,
    f: F,
    inp: Seq<char>,
)
    requires
        a.fails_on(inp),
    ensures
        forall|out: Outcome<B, E::V>|
            #![trigger map_yields(a, f, inp, out)]
            map_yields(a, f, inp, out) <==> (out matches Err(e) && a.yields(
                inp,
                Err::<(A, Seq<char>), E::V>(e),
            )),
{
}

/// Substitution hands a failure on as it is: where `a` fails on `inp`, the
/// answers of `p_as(a, b)` there are exactly the failures of `a`.
pub proof fn lemma_as_keeps_failure<A, B, E: View>(a: Parser<A, E>, b: B, inp: Seq<char>)
    requires
        a.fails_on(inp),
    ensures
        forall|out: Outcome<B, E::V>|
            #![trigger as_yields(a, b, inp, out)]
            as_yields(a, b, inp, out) <==> (out matches Err(e) && a.yields(
                inp,
                Err::<(A, Seq<char>), E::V>(e),
            )),
{
}

/// Mapping with the identity changes nothing. Where `f` returns nothing but
/// its argument, every answer of `map(a, f)` is an answer of `a`; and every
/// answer of `a` is an answer of `map(a, f)`, a success provided that `f`
/// does return on its value.
pub proof fn lemma_map_identity<A, E: View, F: Fn(A) -> A>(a: Parser<A, E>, f: F, inp: Seq<char>)
    requires
        forall|v: A, w: A| call_ensures(f, (v,), w) ==> w == v,
    ensures
        forall|out: Outcome<A, E::V>|
            #![trigger map_yields(a, f, inp, out)]
            map_yields(a, f, inp, out) ==> a.yields(inp, out),
        forall|out: Outcome<A, E::V>|
            #![trigger a.yields(inp, out)]
            a.yields(inp, out) && (out matches Ok((v, _)) ==> call_ensures(f, (v,), v))
                ==> map_yields(a, f, inp, out),
{
}

/// Substitution forgets the value: every success of `p_as(a, b)` carries
/// `b`, and it has one, with the same remainder, for every success of `a`,
/// whatever value that one carries.
pub proof fn lemma_as_constant<A, B, E: View>(a: Parser<A, E>, b: B, inp: Seq<char>)
    ensures
        forall|w: B, rest: Seq<char>|
            #![trigger as_yields(a, b, inp, Ok::<(B, Seq<char>), E::V>((w, rest)))]
            as_yields(a, b, inp, Ok::<(B, Seq<char>), E::V>((w, rest))) ==> w == b,
        forall|v: A, rest: Seq<char>|
            #![trigger a.yields(inp, Ok::<(A, Seq<char>), E::V>((v, rest)))]
            a.yields(inp, Ok::<(A, Seq<char>), E::V>((v, rest))) ==> as_yields(
                a,
                b,
                inp,
                Ok::<(B, Seq<char>), E::V>((b, rest)),
            ),
{
}

/// Substitution is mapping with a constant function: where `f` returns
/// nothing but `b`, every answer of `map(a, f)` is an answer of
/// `p_as(a, b)`.
pub proof fn lemma_map_constant_is_as<A, B, E: View, F: Fn(A) -> B>(
    a: Parser<A, E>,
    f: F,
    b: B,
    inp: Seq<char>,
)
    requires
        forall|v: A, w: B| call_ensures(f, (v,), w) ==> w == b,
    ensures
        forall|out: Outcome<B, E::V>|
            #![trigger map_yields(a, f, inp, out)]
            map_yields(a, f, inp, out) ==> as_yields(a, b, inp, out),
{
}

/// Sequencing is binding that ignores the value: where every parser that
/// `f` returns answers as `b` does, every answer of `bind(a, f)` is an
/// answer of `then(a, b)`.
pub proof fn lemma_bind_constant_is_then<A, B, E: View, F: Fn(A) -> Parser<B, E>>(
    a: Parser<A, E>,
    f: F,
    b: Parser<B, E>,
    inp: Seq<char>,
)
    requires
        forall|v: A, next: Parser<B, E>, rest: Seq<char>, out: Outcome<B, E::V>|
            #![trigger call_ensures(f, (v,), next), next.yields(rest, out)]
            call_ensures(f, (v,), next) && next.yields(rest, out) ==> b.yields(rest, out),
    ensures
        forall|out: Outcome<B, E::V>|
            #![trigger bind_yields(a, f, inp, out)]
            bind_yields(a, f, inp, out) ==> then_yields(a, b, inp, out),
{
}

/// The parser of a character has exactly one answer on every input, and a
/// success leaves the end of the input.
pub proof fn lemma_char_well_behaved(p: Parser<char, ParseError>, c: char)
    requires
        forall|inp: Seq<char>, out: Outcome<char, ErrorView>|
            #![trigger p.yields(inp, out)]
            p.yields(inp, out) <==> out == char_spec(c, inp),
    ensures
        p.deterministic(),
        p.consumes_prefix(),
{
}

/// The parser of a literal has exactly one answer on every input, and a
/// success leaves the end of the input.
pub proof fn lemma_literal_well_behaved(p: Parser<String, ParseError>, s: String)
    requires
        forall|inp: Seq<char>, out: Outcome<String, ErrorView>|
            #![trigger p.yields(inp, out)]
            p.yields(inp, out) <==> out == literal_spec(s, inp),
    ensures
        p.deterministic(),
        p.consumes_prefix(),
{
}

/// Sequencing two deterministic parsers is deterministic.
pub proof fn lemma_then_deterministic<A, B, E: View>(a: Parser<A, E>, b: Parser<B, E>)
    requires
        a.deterministic(),
        b.deterministic(),
    ensures
        forall|inp: Seq<char>, x: Outcome<B, E::V>, y: Outcome<B, E::V>|
            #![trigger then_yields(a, b, inp, x), then_yields(a, b, inp, y)]
            then_yields(a, b, inp, x) && then_yields(a, b, inp, y) ==> x == y,
{
}

/// Sequencing two parsers that consume prefixes consumes a prefix.
pub proof fn lemma_then_consumes_prefix<A, B, E: View>(a: Parser<A, E>, b: Parser<B, E>)
    requires
        a.consumes_prefix(),
        b.consumes_prefix(),
    ensures
        forall|inp: Seq<char>, out: Outcome<B, E::V>|
            #![trigger then_yields(a, b, inp, out)]
            then_yields(a, b, inp, out) ==> leaves_suffix(inp, out),
{
}

/// Binding is deterministic where the first parser is, and where the
/// parsers that `f` returns for one value agree and are deterministic.
pub proof fn lemma_bind_deterministic<A, B, E: View, F: Fn(A) -> Parser<B, E>>(
    a: Parser<A, E>,
    f: F,
)
    requires
        a.deterministic(),
        forall|
            v: A,
            p: Parser<B, E>,
            q: Parser<B, E>,
            rest: Seq<char>,
            x: Outcome<B, E::V>,
            y: Outcome<B, E::V>,
        |
            #![trigger call_ensures(f, (v,), p), p.yields(rest, x), q.yields(rest, y)]
            call_ensures(f, (v,), p) && call_ensures(f, (v,), q) && p.yields(rest, x) && q.yields(
                rest,
                y,
            ) ==> x == y,
    ensures
        forall|inp: Seq<char>, x: Outcome<B, E::V>, y: Outcome<B, E::V>|
            #![trigger bind_yields(a, f, inp, x), bind_yields(a, f, inp, y)]
            bind_yields(a, f, inp, x) && bind_yields(a, f, inp, y) ==> x == y,
{
}

/// Binding consumes a prefix where the first parser does and every parser
/// that `f` returns does.
pub proof fn lemma_bind_consumes_prefix<A, B, E: View, F: Fn(A) -> Parser<B, E>>(
    a: Parser<A, E>,
    f: F,
)
    requires
        a.consumes_prefix(),
        forall|v: A, next: Parser<B, E>| call_ensures(f, (v,), next) ==> next.consumes_prefix(),
    ensures
        forall|inp: Seq<char>, out: Outcome<B, E::V>|
            #![trigger bind_yields(a, f, inp, out)]
            bind_yields(a, f, inp, out) ==> leaves_suffix(inp, out),
{
}

/// Mapping is deterministic where the parser is and `f` returns one result
/// for each value.
pub proof fn lemma_map_deterministic<A, B, E: View, F: Fn(A) -> B>(a: Parser<A, E>, f: F)
    requires
        a.deterministic(),
        forall|v: A, x: B, y: B|
            #![trigger call_ensures(f, (v,), x), call_ensures(f, (v,), y)]
            call_ensures(f, (v,), x) && call_ensures(f, (v,), y) ==> x == y,
    ensures
        forall|inp: Seq<char>, x: Outcome<B, E::V>, y: Outcome<B, E::V>|
            #![trigger map_yields(a, f, inp, x), map_yields(a, f, inp, y)]
            map_yields(a, f, inp, x) && map_yields(a, f, inp, y) ==> x == y,
{
}

/// Mapping leaves the split of the input as it is: it consumes a prefix
/// where the parser does.
pub proof fn lemma_map_consumes_prefix<A, B, E: View, F: Fn(A) -> B>(a: Parser<A, E>, f: F)
    requires
        a.consumes_prefix(),
    ensures
        forall|inp: Seq<char>, out: Outcome<B, E::V>|
            #![trigger map_yields(a, f, inp, out)]
            map_yields(a, f, inp, out) ==> leaves_suffix(inp, out),
{
}

/// Substitution is deterministic where the parser is.
pub proof fn lemma_as_deterministic<A, B, E: View>(a: Parser<A, E>, b: B)
    requires
        a.deterministic(),
    ensures
        forall|inp: Seq<char>, x: Outcome<B, E::V>, y: Outcome<B, E::V>|
            #![trigger as_yields(a, b, inp, x), as_yields(a, b, inp, y)]
            as_yields(a, b, inp, x) && as_yields(a, b, inp, y) ==> x == y,
{
}

/// Substitution leaves the split of the input as it is: it consumes a
/// prefix where the parser does.
pub proof fn lemma_as_consumes_prefix<A, B, E: View>(a: Parser<A, E>, b: B)
    requires
        a.consumes_prefix(),
    ensures
        forall|inp: Seq<char>, out: Outcome<B, E::V>|
            #![trigger as_yields(a, b, inp, out)]
            as_yields(a, b, inp, out) ==> leaves_suffix(inp, out),
{
}

/// Alternation of two deterministic parsers is deterministic.
pub proof fn lemma_or_deterministic<A>(left: Parser<A, ParseError>, right: Parser<A, ParseError>)
    requires
        left.deterministic(),
        right.deterministic(),
    ensures
        forall|inp: Seq<char>, x: Outcome<A, ErrorView>, y: Outcome<A, ErrorView>|
            #![trigger or_yields(left, right, inp, x), or_yields(left, right, inp, y)]
            or_yields(left, right, inp, x) && or_yields(left, right, inp, y) ==> x == y,
{
}

/// Alternation of two parsers that consume prefixes consumes a prefix:
/// nothing that a failed left branch read is missing from what the right
/// branch leaves.
pub proof fn lemma_or_consumes_prefix<A>(left: Parser<A, ParseError>, right: Parser<A, ParseError>)
    requires
        left.consumes_prefix(),
        right.consumes_prefix(),
    ensures
        forall|inp: Seq<char>, out: Outcome<A, ErrorView>|
            #![trigger or_yields(left, right, inp, out)]
            or_yields(left, right, inp, out) ==> leaves_suffix(inp, out),
{
}

} // verus!
