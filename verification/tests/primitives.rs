use parcomb::primitives::{p_char, p_str};
use parcomb::ParseError;

#[test]
fn char_consumes_exactly_one_character() {
    assert_eq!(p_char('h').run("hello"), Ok(('h', "ello")));
    assert_eq!(p_char('h').run("h"), Ok(('h', "")));
    assert_eq!(p_char('h').run("hh"), Ok(('h', "h")));
}

#[test]
fn char_reports_the_character_it_found() {
    assert_eq!(
        p_char('c').run("xello"),
        Err(ParseError::Mismatch("c".to_string(), "x".to_string()))
    );
}

#[test]
fn char_reports_the_end_of_input() {
    assert_eq!(p_char('c').run(""), Err(ParseError::EOF("c".to_string())));
}

#[test]
fn char_is_case_sensitive() {
    assert_eq!(
        p_char('h').run("Hello"),
        Err(ParseError::Mismatch("h".to_string(), "H".to_string()))
    );
}

#[test]
fn char_takes_a_whole_character_of_several_bytes() {
    assert_eq!(p_char('é').run("été"), Ok(('é', "té")));
    assert_eq!(
        p_char('e').run("été"),
        Err(ParseError::Mismatch("e".to_string(), "é".to_string()))
    );
    assert_eq!(p_char('日').run("日本"), Ok(('日', "本")));
}

#[test]
fn literal_consumes_exactly_its_length() {
    assert_eq!(p_str("http".to_string()).run("http://x"), Ok(("http".to_string(), "://x")));
    assert_eq!(p_str("http".to_string()).run("http"), Ok(("http".to_string(), "")));
}

#[test]
fn literal_reports_a_mismatch_on_short_input() {
    assert_eq!(
        p_str("http".to_string()).run("htt"),
        Err(ParseError::Mismatch("http".to_string(), "htt".to_string()))
    );
    assert_eq!(
        p_str("http".to_string()).run(""),
        Err(ParseError::Mismatch("http".to_string(), "".to_string()))
    );
}

#[test]
fn literal_reports_a_mismatch_on_other_content() {
    assert_eq!(
        p_str("https".to_string()).run("httpz"),
        Err(ParseError::Mismatch("https".to_string(), "httpz".to_string()))
    );
    assert_eq!(
        p_str("http".to_string()).run("htxp://x"),
        Err(ParseError::Mismatch("http".to_string(), "htxp://x".to_string()))
    );
}

#[test]
fn literal_succeeds_whatever_follows_it() {
    assert_eq!(p_str("http".to_string()).run("httpz"), Ok(("http".to_string(), "z")));
    assert_eq!(p_str("http".to_string()).run("https"), Ok(("http".to_string(), "s")));
}

#[test]
fn literal_is_case_sensitive() {
    assert_eq!(
        p_str("http".to_string()).run("HTTP"),
        Err(ParseError::Mismatch("http".to_string(), "HTTP".to_string()))
    );
}

#[test]
fn empty_literal_consumes_nothing() {
    assert_eq!(p_str(String::new()).run("abc"), Ok((String::new(), "abc")));
    assert_eq!(p_str(String::new()).run(""), Ok((String::new(), "")));
}

#[test]
fn literal_of_several_bytes_per_character() {
    assert_eq!(p_str("日本".to_string()).run("日本語"), Ok(("日本".to_string(), "語")));
}

#[test]
fn a_parser_answers_the_same_each_time() {
    let p = p_str("ab".to_string());
    let first = p.run("abc");
    let second = p.run("abc");
    assert_eq!(first, second);
    assert_eq!(first, Ok(("ab".to_string(), "c")));
    let q = p_char('a');
    assert_eq!(q.run("b"), q.run("b"));
}
