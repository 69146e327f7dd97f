use parcomb::combinators::{p_as, p_or, then};
use parcomb::primitives::{p_char, p_str};
use parcomb::ParseError;

#[derive(PartialEq, Debug, Clone, Copy)]
enum Scheme {
    HTTP,
    HTTPS,
}

fn mismatch(expected: &str, found: &str) -> ParseError {
    ParseError::Mismatch(expected.to_string(), found.to_string())
}

#[test]
fn test_scheme() {
    let scheme =
        (p_str("https".to_string()) ^ Scheme::HTTPS) | (p_str("http".to_string()) ^ Scheme::HTTP);

    assert_eq!(Ok(((Scheme::HTTP), "")), scheme.run("http"));
    assert_eq!(Ok(((Scheme::HTTPS), "")), scheme.run("https"))
}

#[test]
fn it_works() {
    let char = p_or(p_char('c'), p_char('h'));
    assert_eq!(Ok(('h', "ello")), char.run("hello"));
    assert_eq!(Ok(('c', "ello")), char.run("cello"));

    let full = then(char, p_str("ello".to_string())).run("hello");
    println!("{:?}", full)
}

#[test]
fn scheme_by_named_combinators() {
    let scheme = p_or(
        p_as(p_str("https".to_string()), Scheme::HTTPS),
        p_as(p_str("http".to_string()), Scheme::HTTP),
    );
    assert_eq!(scheme.run("http"), Ok((Scheme::HTTP, "")));
    assert_eq!(scheme.run("https"), Ok((Scheme::HTTPS, "")));
}

#[test]
fn scheme_rejects_other_protocols_with_both_causes() {
    let scheme =
        (p_str("https".to_string()) ^ Scheme::HTTPS) | (p_str("http".to_string()) ^ Scheme::HTTP);
    assert_eq!(
        scheme.run("ftp"),
        Err(ParseError::Multiple(vec![mismatch("https", "ftp"), mismatch("http", "ftp")]))
    );
}

#[test]
fn scheme_leaves_what_follows() {
    let scheme =
        (p_str("https".to_string()) ^ Scheme::HTTPS) | (p_str("http".to_string()) ^ Scheme::HTTP);
    assert_eq!(scheme.run("https://example.org"), Ok((Scheme::HTTPS, "://example.org")));
    assert_eq!(scheme.run("http://example.org"), Ok((Scheme::HTTP, "://example.org")));
}

#[test]
fn greeting_after_either_first_letter() {
    let full = then(p_or(p_char('c'), p_char('h')), p_str("ello".to_string()));
    assert_eq!(full.run("hello"), Ok(("ello".to_string(), "")));
    assert_eq!(full.run("cello"), Ok(("ello".to_string(), "")));
}

#[test]
fn greeting_fails_on_another_first_letter() {
    let full = then(p_or(p_char('c'), p_char('h')), p_str("ello".to_string()));
    assert_eq!(
        full.run("jello"),
        Err(ParseError::Multiple(vec![mismatch("c", "j"), mismatch("h", "j")]))
    );
}

#[test]
fn greeting_fails_after_the_first_letter() {
    let full = then(p_or(p_char('c'), p_char('h')), p_str("ello".to_string()));
    assert_eq!(full.run("help"), Err(mismatch("ello", "elp")));
}
