//! The evaluator: lowers each parsed tree into one structured application
//! command, in order.
//!
//! `MapVar` and `NoOp` are reserved commands: the grammar has a `Bind` slot for
//! piped-variable binding, but no evaluation rule completes it, so a `Bind`
//! node lowers to `Unknown` like every other unrecognized shape.

use vstd::prelude::*;

use crate::token::Token;
use crate::token::Tok;
use crate::node::Node;
use crate::node::NodeV;
use crate::node::branch_tok;
use crate::node::nodes_view;
use crate::node::token_of;
use crate::lexer::Lexer;
use crate::lexer::lex_full;
use crate::parser::Parser;
use crate::parser::parse_all_from;
use vstd::string::StringExecFns;

verus! {

broadcast use vstd::string::group_string_axioms;

/// A structured instruction for the surrounding window-management
/// application.  `Unknown` is a no-op for the consumer, never an error.
#[derive(Debug, PartialEq)]
pub enum Command {
    Win(String),
    Explorer(),
    CopyWin(),
    Quit(),
    FocusLeft(),
    FocusRight(),
    RequestExit(),
    MapVar(String, Token),
    NoOp,
    Unknown,
}

/// The mathematical model of a [`Command`].
#[verifier::ext_equal]
pub enum Cmd {
    Win(Seq<char>),
    Explorer,
    CopyWin,
    Quit,
    FocusLeft,
    FocusRight,
    RequestExit,
    MapVar(Seq<char>, Tok),
    NoOp,
    Unknown,
}

impl View for Command {
    type V = Cmd;

    open spec fn view(&self) -> Cmd {
        match self {
            Command::Win(s) => Cmd::Win(s@),
            Command::Explorer() => Cmd::Explorer,
            Command::CopyWin() => Cmd::CopyWin,
            Command::Quit() => Cmd::Quit,
            Command::FocusLeft() => Cmd::FocusLeft,
            Command::FocusRight() => Cmd::FocusRight,
            Command::RequestExit() => Cmd::RequestExit,
            Command::MapVar(s, t) => Cmd::MapVar(s@, t@),
            Command::NoOp => Cmd::NoOp,
            Command::Unknown => Cmd::Unknown,
        }
    }
}

impl DeepView for Command {
    type V = Cmd;

    open spec fn deep_view(&self) -> Cmd {
        self.view()
    }
}

/// The models of a sequence of commands, elementwise.
pub open spec fn cmds(cs: Seq<Command>) -> Seq<Cmd> {
    Seq::new(cs.len(), |i: int| cs[i]@)
}

/// The name table: the command a name resolves to, given the piped argument.
/// `win` takes the piped text as window content, or its own name as
/// placeholder content when nothing was piped; every name outside the table
/// resolves to `Unknown`, whatever the argument.
pub open spec fn resolve_name(name: Seq<char>, piped: Seq<char>) -> Cmd {
    if name == "win"@ {
        if piped != Seq::<char>::empty() {
            Cmd::Win(piped)
        } else {
            Cmd::Win(name)
        }
    } else if name == "q"@ {
        Cmd::Quit
    } else if name == "e"@ {
        Cmd::Explorer
    } else if name == "c"@ {
        Cmd::CopyWin
    } else if name == "lf"@ {
        Cmd::FocusLeft
    } else if name == "rf"@ {
        Cmd::FocusRight
    } else if name == "exit"@ {
        Cmd::RequestExit
    } else {
        Cmd::Unknown
    }
}

/// The command one node lowers to.  A bare `CommandName` leaf resolves with
/// an empty piped argument.  A `Pipe` node needs an atomic token on its left
/// branch and a `CommandName` on its right branch, which then resolves with
/// the left branch's string value; any other shape is `Unknown`.
pub open spec fn eval_node(n: NodeV) -> Cmd {
    match n.value {
        Tok::Command(name) => resolve_name(name, Seq::empty()),
        Tok::Pipe => {
            if !branch_tok(n.left).is_atomic() {
                Cmd::Unknown
            } else {
                match branch_tok(n.right) {
                    Tok::Command(name) => resolve_name(name, branch_tok(n.left).string_value()),
                    _ => Cmd::Unknown,
                }
            }
        },
        _ => Cmd::Unknown,
    }
}

/// One command per node, order preserved.
pub open spec fn eval_all(ns: Seq<NodeV>) -> Seq<Cmd> {
    Seq::new(ns.len(), |i: int| eval_node(ns[i]))
}

/// The whole pipeline on one line of text: lex, parse, evaluate.
pub open spec fn pipeline(s: Seq<char>) -> Seq<Cmd> {
    eval_all(parse_all_from(lex_full(s), 0))
}

/// Resolves a command name with an optional piped argument.
pub fn name_to_command(name: String, piped_value: String) -> (c: Command)
    ensures
        c@ == resolve_name(name@, piped_value@),
{
    if name == String::from_str("win") {
        if piped_value != String::new() {
            return Command::Win(piped_value);
        }
        Command::Win(name)
    } else if name == String::from_str("q") {
        Command::Quit()
    } else if name == String::from_str("e") {
        Command::Explorer()
    } else if name == String::from_str("c") {
        Command::CopyWin()
    } else if name == String::from_str("lf") {
        Command::FocusLeft()
    } else if name == String::from_str("rf") {
        Command::FocusRight()
    } else if name == String::from_str("exit") {
        Command::RequestExit()
    } else {
        Command::Unknown
    }
}

/// Lowers one node into its command.
fn eval_one(n: &Node) -> (c: Command)
    ensures
        c@ == eval_node(n@),
{
    match &n.value {
        Token::Command(name) => name_to_command(name.clone(), String::new()),
        Token::Pipe => {
            let left = token_of(&n.left);
            if !left.is_atomic() {
                return Command::Unknown;
            }
            let right = token_of(&n.right);
            match right {
                Token::Command(name) => name_to_command(name, left.get_string_value()),
                _ => Command::Unknown,
            }
        },
        _ => Command::Unknown,
    }
}

/// Lowers every node in order: one command per node.
pub fn eval_into_commands(nodes: Vec<Node>) -> (r: Vec<Command>)
    ensures
        cmds(r@) == eval_all(nodes_view(nodes@)),
{
    let mut r: Vec<Command> = Vec::new();
    let n = nodes.len();
    for i in 0..n
        invariant
            n == nodes.len(),
            r.len() == i,
            forall|k: int| 0 <= k < i ==> r@[k]@ == eval_node(nodes@[k]@),
    {
        let c = eval_one(&nodes[i]);
        r.push(c);
    }
    proof {
        assert(cmds(r@) =~= eval_all(nodes_view(nodes@)));
    }
    r
}

/// Runs the whole pipeline on one line of text.  The current-directory
/// context is reserved for directory-relative resolution and is not consumed
/// by the grammar.
pub fn execute_fily_regex(_curr_dir: Option<String>, src: String) -> (r: Vec<Command>)
    ensures
        cmds(r@) == pipeline(src@),
{
    let tokens = Lexer::run(src);
    let nodes = Parser::run(tokens);
    eval_into_commands(nodes)
}

/// Every name in the table resolves to exactly one command kind, whatever
/// the piped argument: `win` to `Win`, `q` to `Quit`, `e` to `Explorer`,
/// `c` to `CopyWin`, `lf` to `FocusLeft`, `rf` to `FocusRight` and `exit` to
/// `RequestExit`; and every name outside the table resolves to `Unknown`,
/// whatever the piped argument.
pub proof fn lemma_name_table_round_trip(name: Seq<char>, arg: Seq<char>)
    ensures
        resolve_name(name, arg) is Win <==> name == "win"@,
        resolve_name(name, arg) is Quit <==> name == "q"@,
        resolve_name(name, arg) is Explorer <==> name == "e"@,
        resolve_name(name, arg) is CopyWin <==> name == "c"@,
        resolve_name(name, arg) is FocusLeft <==> name == "lf"@,
        resolve_name(name, arg) is FocusRight <==> name == "rf"@,
        resolve_name(name, arg) is RequestExit <==> name == "exit"@,
        name != "win"@ && name != "q"@ && name != "e"@ && name != "c"@ && name != "lf"@ && name
            != "rf"@ && name != "exit"@ ==> resolve_name(name, arg) is Unknown,
{
    reveal_strlit("win");
    reveal_strlit("q");
    reveal_strlit("e");
    reveal_strlit("c");
    reveal_strlit("lf");
    reveal_strlit("rf");
    reveal_strlit("exit");
    assert("win"@.len() == 3 && "q"@.len() == 1 && "e"@.len() == 1 && "c"@.len() == 1 && "lf"@.len()
        == 2 && "rf"@.len() == 2 && "exit"@.len() == 4);
    assert("q"@[0] == 'q' && "e"@[0] == 'e' && "c"@[0] == 'c' && "lf"@[0] == 'l' && "rf"@[0] == 'r');
}

} // verus!
