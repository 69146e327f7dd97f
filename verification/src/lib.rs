//! A small parser-combinator core over text.
//!
//! A [`Parser`] consumes a prefix of its input and yields either a value
//! together with the unconsumed remainder, or a [`ParseError`]. The
//! primitive parsers of [`primitives`] recognise one character or one
//! literal; the functions of [`combinators`] sequence, transform and choose
//! between parsers, and [`sugar`] gives two of them an infix notation.
//!
//! Every parser has a mathematical model, [`Parser::yields`], and
//! [`Parser::run`] is proved to return an answer of that model. [`laws`]
//! holds what is proved of the combinators on all inputs: the order and the
//! backtracking of alternation, the short circuit of sequencing, the
//! identities of mapping, and that determinism and the consumption of a
//! prefix carry over from the parts to the whole.

pub mod combinators;
pub mod error;
pub mod laws;
pub mod parser;
pub mod primitives;
pub mod sugar;

pub use error::{ErrorView, ParseError};
pub use parser::{leaves_suffix, outcome, Outcome, Parser};
