//! The failures a parser can report.

use vstd::prelude::*;

verus! {

/// Why a parse failed.
#[derive(Debug)]
pub enum ParseError {
    /// The input ended where `expected` was required.
    EOF(String),
    /// The input held `found` where `expected` was required.
    Mismatch(String, String),
    /// Every branch of an alternation failed; the causes are kept in the
    /// order in which the branches were tried.
    Multiple(Vec<ParseError>),
}

/// The mathematical value of a [`ParseError`]: texts are sequences of
/// characters and the causes of an aggregate form a sequence.
pub enum ErrorView {
    EOF(Seq<char>),
    Mismatch(Seq<char>, Seq<char>),
    Multiple(Seq<ErrorView>),
}

impl View for ParseError {
    type V = ErrorView;

    open spec fn view(&self) -> ErrorView
        decreases self,
    {
        match self {
            ParseError::EOF(expected) => ErrorView::EOF(expected@),
            ParseError::Mismatch(expected, found) => ErrorView::Mismatch(expected@, found@),
            ParseError::Multiple(causes) => ErrorView::Multiple(
                Seq::new(
                    causes@.len(),
                    |i: int|
                        if 0 <= i < causes@.len() {
                            causes@[i].view()
                        } else {
                            ErrorView::Multiple(Seq::empty())
                        },
                ),
            ),
        }
    }
}

impl PartialEq for ParseError {
    /// Two errors are equal where they say the same: the same variant, the
    /// same texts, and equal causes in the same order.
    fn eq(&self, other: &ParseError) -> (equal: bool)
        decreases self,
    {
        match (self, other) {
            (ParseError::EOF(a), ParseError::EOF(b)) => *a == *b,
            (ParseError::Mismatch(a, x), ParseError::Mismatch(b, y)) => *a == *b && *x == *y,
            (ParseError::Multiple(xs), ParseError::Multiple(ys)) => {
                if xs.len() != ys.len() {
                    assert(self@->Multiple_0.len() != other@->Multiple_0.len());
                    return false;
                }
                let mut i: usize = 0;
                while i < xs.len()
                    invariant
                        i <= xs.len(),
                        xs.len() == ys.len(),
                        *self == ParseError::Multiple(*xs),
                        *other == ParseError::Multiple(*ys),
                        forall|j: int| 0 <= j < i ==> xs@[j]@ == ys@[j]@,
                    decreases xs.len() - i,
                {
                    if !xs[i].eq(&ys[i]) {
                        assert(self@->Multiple_0[i as int] != other@->Multiple_0[i as int]);
                        return false;
                    }
                    i += 1;
                }
                assert(self@->Multiple_0 =~= other@->Multiple_0);
                true
            },
            _ => false,
        }
    }
}

impl vstd::std_specs::cmp::PartialEqSpecImpl for ParseError {
    open spec fn obeys_eq_spec() -> bool {
        true
    }

    open spec fn eq_spec(&self, other: &ParseError) -> bool {
        self@ == other@
    }
}

} // verus!
