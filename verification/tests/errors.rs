use parcomb::ParseError;

fn eof(expected: &str) -> ParseError {
    ParseError::EOF(expected.to_string())
}

fn mismatch(expected: &str, found: &str) -> ParseError {
    ParseError::Mismatch(expected.to_string(), found.to_string())
}

#[test]
fn errors_with_the_same_content_are_equal() {
    assert_eq!(eof("a"), eof("a"));
    assert_eq!(mismatch("a", "b"), mismatch("a", "b"));
    assert_eq!(
        ParseError::Multiple(vec![eof("a"), mismatch("b", "c")]),
        ParseError::Multiple(vec![eof("a"), mismatch("b", "c")])
    );
}

#[test]
fn errors_with_other_texts_differ() {
    assert_ne!(eof("a"), eof("b"));
    assert_ne!(mismatch("a", "b"), mismatch("a", "c"));
    assert_ne!(mismatch("a", "b"), mismatch("c", "b"));
    assert_ne!(mismatch("a", "b"), mismatch("b", "a"));
}

#[test]
fn errors_of_other_variants_differ() {
    assert_ne!(eof("a"), mismatch("a", ""));
    assert_ne!(eof("a"), ParseError::Multiple(vec![eof("a")]));
    assert_ne!(mismatch("a", "b"), ParseError::Multiple(vec![mismatch("a", "b")]));
}

#[test]
fn aggregates_compare_cause_by_cause_and_in_order() {
    let both = ParseError::Multiple(vec![eof("a"), eof("b")]);
    assert_ne!(both, ParseError::Multiple(vec![eof("b"), eof("a")]));
    assert_ne!(both, ParseError::Multiple(vec![eof("a")]));
    assert_ne!(both, ParseError::Multiple(vec![eof("a"), eof("b"), eof("c")]));
    assert_ne!(both, ParseError::Multiple(vec![eof("a"), eof("c")]));
}

#[test]
fn nested_aggregates_compare_in_depth() {
    let deep = ParseError::Multiple(vec![
        ParseError::Multiple(vec![eof("a"), eof("b")]),
        eof("c"),
    ]);
    let same = ParseError::Multiple(vec![
        ParseError::Multiple(vec![eof("a"), eof("b")]),
        eof("c"),
    ]);
    let other = ParseError::Multiple(vec![
        ParseError::Multiple(vec![eof("a"), eof("x")]),
        eof("c"),
    ]);
    assert_eq!(deep, same);
    assert_ne!(deep, other);
}

#[test]
fn errors_print_their_variant_and_texts() {
    assert_eq!(format!("{:?}", mismatch("a", "b")), "Mismatch(\"a\", \"b\")");
    assert_eq!(format!("{:?}", eof("a")), "EOF(\"a\")");
}
