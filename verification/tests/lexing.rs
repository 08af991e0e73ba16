//! The lexer on its own: token shapes, dropped characters, the sentinel.

use fily::lexer::Lexer;
use fily::token::Token;

fn lex(src: &str) -> Vec<Token> {
    Lexer::run(String::from(src))
}

fn id(s: &str) -> Token {
    Token::ID(String::from(s))
}

#[test]
fn empty_input_lexes_to_the_sentinel_alone() {
    assert_eq!(lex(""), vec![Token::EOF]);
}

#[test]
fn whitespace_only_input_lexes_to_the_sentinel_alone() {
    assert_eq!(lex(" \t\n"), vec![Token::EOF]);
}

#[test]
fn single_character_tokens() {
    assert_eq!(lex(">"), vec![Token::Pipe, Token::EOF]);
    assert_eq!(lex("*"), vec![Token::Glob, Token::EOF]);
    assert_eq!(lex("&"), vec![Token::Bind, Token::EOF]);
}

#[test]
fn identifiers_are_maximal_word_runs() {
    assert_eq!(lex("abc"), vec![id("abc"), Token::EOF]);
    assert_eq!(lex("a_b9 c"), vec![id("a_b9"), id("c"), Token::EOF]);
}

#[test]
fn digits_start_identifiers() {
    assert_eq!(lex("123"), vec![id("123"), Token::EOF]);
    assert_eq!(lex("12ab"), vec![id("12ab"), Token::EOF]);
}

#[test]
fn command_names_follow_a_colon() {
    assert_eq!(lex(":q"), vec![Token::Command(String::from("q")), Token::EOF]);
    assert_eq!(lex(":win next"), vec![Token::Command(String::from("win")), id("next"), Token::EOF]);
}

#[test]
fn empty_command_name() {
    assert_eq!(lex(": x"), vec![Token::Command(String::new()), id("x"), Token::EOF]);
}

#[test]
fn string_literals_strip_their_quotes() {
    assert_eq!(lex("\"hello\""), vec![Token::Str(String::from("hello")), Token::EOF]);
    assert_eq!(lex("\"a b\"c"), vec![Token::Str(String::from("a b")), id("c"), Token::EOF]);
}

#[test]
fn unterminated_string_is_truncated_at_end_of_input() {
    assert_eq!(lex("\"abc"), vec![Token::Str(String::from("abc")), Token::EOF]);
}

#[test]
fn extension_wraps_the_next_token() {
    assert_eq!(lex(".txt"), vec![Token::Extension(Box::new(id("txt"))), Token::EOF]);
    assert_eq!(
        lex(".."),
        vec![
            Token::Extension(Box::new(Token::Extension(Box::new(Token::Unknown)))),
            Token::EOF
        ]
    );
    assert_eq!(lex(".*"), vec![Token::Extension(Box::new(Token::Glob)), Token::EOF]);
}

#[test]
fn unclassifiable_characters_are_dropped() {
    assert_eq!(lex("?"), vec![Token::EOF]);
    assert_eq!(lex("a ? b"), vec![id("a"), id("b"), Token::EOF]);
    assert!(lex("#$%^?").iter().all(|t| *t != Token::Unknown));
}

#[test]
fn statement_embeds_its_own_lexing() {
    assert_eq!(
        lex("|:q|"),
        vec![
            Token::Statement(vec![Token::Command(String::from("q")), Token::EOF]),
            Token::EOF
        ]
    );
}

#[test]
fn statement_relexes_identically() {
    let embedded = match &lex("|a > \"x\"| rest")[0] {
        Token::Statement(ts) => ts.clone(),
        other => panic!("expected a statement, got {:?}", other),
    };
    assert_eq!(embedded, lex("a > \"x\""));
}

#[test]
fn sentinel_stands_once_at_the_end() {
    for src in ["", ":q", "a > b", "|x|", "?? ??", "\"s\""] {
        let toks = lex(src);
        assert_eq!(toks.last(), Some(&Token::EOF));
        assert_eq!(toks.iter().filter(|t| **t == Token::EOF).count(), 1);
    }
}

#[test]
fn unterminated_statement_is_truncated_at_end_of_input() {
    assert_eq!(
        lex("|a"),
        vec![Token::Statement(vec![id("a"), Token::EOF]), Token::EOF]
    );
}

#[test]
fn embedded_nul_stops_the_lexer() {
    assert_eq!(lex("a\0b"), vec![id("a"), Token::EOF]);
}

#[test]
fn atomic_tokens_can_stand_alone_as_operands() {
    assert!(id("a").is_atomic());
    assert!(Token::Str(String::from("s")).is_atomic());
    assert!(Token::Num(String::from("1")).is_atomic());
    assert!(Token::Command(String::from("q")).is_atomic());
    assert!(Token::Statement(vec![]).is_atomic());
    assert!(Token::Glob.is_atomic());
    assert!(!Token::Pipe.is_atomic());
    assert!(!Token::Bind.is_atomic());
    assert!(!Token::Extension(Box::new(id("x"))).is_atomic());
    assert!(!Token::Unknown.is_atomic());
    assert!(!Token::EOF.is_atomic());
}

#[test]
fn string_values_expose_inner_text_verbatim() {
    assert_eq!(id("a").get_string_value(), String::from("a"));
    assert_eq!(Token::Str(String::from("s t")).get_string_value(), String::from("s t"));
    assert_eq!(Token::Command(String::from("q")).get_string_value(), String::from("q"));
    assert_eq!(Token::Glob.get_string_value(), String::new());
    assert_eq!(Token::Num(String::from("1")).get_string_value(), String::new());
    assert_eq!(Token::Statement(vec![]).get_string_value(), String::new());
}

#[test]
fn mixed_line() {
    assert_eq!(
        lex("\"hi\" > :win"),
        vec![
            Token::Str(String::from("hi")),
            Token::Pipe,
            Token::Command(String::from("win")),
            Token::EOF
        ]
    );
}
