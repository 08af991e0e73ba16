//! The command pipeline end to end: lexing, parsing and evaluation.

use fily::eval::{execute_fily_regex, name_to_command, Command};
use fily::lexer::Lexer;
use fily::node::{token_of, Node};
use fily::parser::Parser;
use fily::token::Token;

fn run(src: &str) -> Vec<Command> {
    execute_fily_regex(None, String::from(src))
}

#[test]
fn close_window_shortcut() {
    assert_eq!(run(":q"), vec![Command::Quit()]);
}

#[test]
fn win_fallback_content() {
    assert_eq!(run(":win"), vec![Command::Win(String::from("win"))]);
}

#[test]
fn win_piped_content() {
    assert_eq!(run("\"hello\" > :win"), vec![Command::Win(String::from("hello"))]);
}

#[test]
fn focus_shortcuts_are_independent_calls() {
    assert_eq!(run(":lf"), vec![Command::FocusLeft()]);
    assert_eq!(run(":rf"), vec![Command::FocusRight()]);
}

#[test]
fn every_table_name_resolves() {
    assert_eq!(run(":e"), vec![Command::Explorer()]);
    assert_eq!(run(":c"), vec![Command::CopyWin()]);
    assert_eq!(run(":exit"), vec![Command::RequestExit()]);
}

#[test]
fn unknown_name_resolves_to_unknown() {
    assert_eq!(run(":zz"), vec![Command::Unknown]);
    assert_eq!(run("\"stuff\" > :zz"), vec![Command::Unknown]);
}

#[test]
fn piped_argument_does_not_change_argumentless_commands() {
    assert_eq!(run("\"x\" > :q"), vec![Command::Quit()]);
    assert_eq!(run("abc > :lf"), vec![Command::FocusLeft()]);
}

#[test]
fn identifier_pipes_its_text() {
    assert_eq!(run("notes > :win"), vec![Command::Win(String::from("notes"))]);
}

#[test]
fn glob_pipes_the_empty_string() {
    assert_eq!(run("* > :win"), vec![Command::Win(String::from("win"))]);
}

#[test]
fn bind_node_evaluates_to_unknown() {
    assert_eq!(run("a & :q"), vec![Command::Unknown]);
}

#[test]
fn bare_leaf_evaluates_to_unknown() {
    assert_eq!(run("hello"), vec![Command::Unknown]);
}

#[test]
fn empty_input_yields_no_commands() {
    assert_eq!(run(""), Vec::<Command>::new());
    assert_eq!(run("   "), Vec::<Command>::new());
}

#[test]
fn name_table_direct() {
    let n = |s: &str, a: &str| name_to_command(String::from(s), String::from(a));
    assert_eq!(n("win", ""), Command::Win(String::from("win")));
    assert_eq!(n("win", "body"), Command::Win(String::from("body")));
    assert_eq!(n("q", "ignored"), Command::Quit());
    assert_eq!(n("e", ""), Command::Explorer());
    assert_eq!(n("c", ""), Command::CopyWin());
    assert_eq!(n("lf", ""), Command::FocusLeft());
    assert_eq!(n("rf", ""), Command::FocusRight());
    assert_eq!(n("exit", ""), Command::RequestExit());
    assert_eq!(n("", ""), Command::Unknown);
    assert_eq!(n("quit", ""), Command::Unknown);
    assert_eq!(n("Win", "x"), Command::Unknown);
}

#[test]
fn pipe_chain_parses_right_nested_and_evaluates_unknown() {
    let tokens = Lexer::run(String::from("a > b > :q"));
    let nodes = Parser::run(tokens);
    assert_eq!(nodes.len(), 1);
    let outer = &nodes[0];
    assert_eq!(outer.value, Token::Pipe);
    assert_eq!(token_of(&outer.left), Token::ID(String::from("a")));
    let inner = outer.right.as_ref().expect("right branch of the outer pipe");
    assert_eq!(inner.value, Token::Pipe);
    assert_eq!(token_of(&inner.left), Token::ID(String::from("b")));
    assert_eq!(token_of(&inner.right), Token::Command(String::from("q")));
    assert!(inner.right.as_ref().expect("command leaf").left.is_none());

    assert_eq!(run("a > b > :q"), vec![Command::Unknown]);
}

#[test]
fn expected_node_shape_built_by_hand() {
    let tokens = Lexer::run(String::from("a > :q"));
    let nodes = Parser::run(tokens);
    let expected = Node::new_with_branches(
        Token::Pipe,
        Node::new(Token::ID(String::from("a"))).package(),
        Node::new(Token::Command(String::from("q"))).package(),
    );
    assert_eq!(nodes, vec![expected]);
}

#[test]
fn statement_left_of_pipe_is_atomic() {
    assert_eq!(run("|:q| > :win"), vec![Command::Win(String::from("win"))]);
}

#[test]
fn extension_after_a_term_is_read_twice() {
    // The term rule wraps the factor under the extension token without
    // stepping past it, so the same extension token also starts the next
    // expression, as a defensive EOF leaf.
    let tokens = Lexer::run(String::from("a.txt"));
    let nodes = Parser::run(tokens);
    assert_eq!(nodes.len(), 2);
    assert_eq!(
        nodes[0].value,
        Token::Extension(Box::new(Token::ID(String::from("txt"))))
    );
    assert_eq!(token_of(&nodes[0].left), Token::ID(String::from("a")));
    assert!(nodes[0].right.is_none());
    assert_eq!(nodes[1], Node::new(Token::EOF));

    assert_eq!(run("a.txt"), vec![Command::Unknown, Command::Unknown]);
}

#[test]
fn extension_left_of_pipe_is_not_atomic() {
    assert_eq!(run(".txt > :q"), vec![Command::Unknown]);
}
