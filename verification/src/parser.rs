//! The parser: recursive descent over the token stream, one binary tree per
//! top-level expression.
//!
//! The grammar is modelled by [`parse_factor`], [`parse_term`], [`parse_expr`]
//! and [`parse_all_from`]; the executable [`Parser`] is proved to produce
//! exactly `parse_all_from` of its stream.  Malformed input never aborts: a
//! non-atomic token found where an operand is expected becomes a defensive
//! `EOF` leaf and the cursor still advances.

use vstd::prelude::*;

use crate::token::Token;
use crate::token::Tok;
use crate::token::toks;
use crate::node::Node;
use crate::node::NodeV;
use crate::node::nodes_view;
use crate::node::lemma_nodes_view_push;

verus! {

/// The token the parser reads at position `i`: past either end of the stream
/// it reads the `EOF` sentinel.
pub open spec fn token_at(ts: Seq<Tok>, i: int) -> Tok {
    if 0 <= i < ts.len() {
        ts[i]
    } else {
        Tok::EOF
    }
}

/// `factor`: an atomic token becomes a leaf; anything else becomes a
/// defensive `EOF` leaf.  Either way the cursor advances one position (it is
/// never moved past the end of the stream).
pub open spec fn parse_factor(ts: Seq<Tok>, i: int) -> (NodeV, int) {
    let t = token_at(ts, i);
    let j = if 0 <= i < ts.len() {
        i + 1
    } else {
        i
    };
    if t.is_atomic() {
        (NodeV::leaf(t), j)
    } else {
        (NodeV::leaf(Tok::EOF), j)
    }
}

/// `term`: a factor, wrapped under an `Extension` token if one stands next.
/// The extension token itself is not stepped past: the cursor stays on it.
pub open spec fn parse_term(ts: Seq<Tok>, i: int) -> (NodeV, int) {
    let (f, j) = parse_factor(ts, i);
    let t = token_at(ts, j);
    if t is Extension {
        (NodeV { value: t, left: Some(Box::new(f)), right: None }, j)
    } else {
        (f, j)
    }
}

/// `expr`: a term, then optionally a `Pipe` or `Bind` operator with the rest
/// of the expression on its right.  Chains are right-associative.
pub open spec fn parse_expr(ts: Seq<Tok>, i: int) -> (NodeV, int)
    decreases ts.len() - i,
{
    let (tm, j) = parse_term(ts, i);
    let t = token_at(ts, j);
    if t is Pipe || t is Bind {
        let (rhs, e) = parse_expr(ts, j + 1);
        (NodeV { value: t, left: Some(Box::new(tm)), right: Some(Box::new(rhs)) }, e)
    } else {
        (tm, j)
    }
}

/// The whole program: one node per expression, until the cursor reads `EOF`.
pub open spec fn parse_all_from(ts: Seq<Tok>, i: int) -> Seq<NodeV>
    decreases ts.len() - i,
{
    if token_at(ts, i) is EOF {
        Seq::empty()
    } else {
        let (n, j) = parse_expr(ts, i);
        let rest = if i < j <= ts.len() {
            parse_all_from(ts, j)
        } else {
            Seq::empty()
        };
        seq![n] + rest
    }
}

/// An expression consumes at least one token and never moves the cursor past
/// the end of the stream.
pub proof fn lemma_parse_expr_pos(ts: Seq<Tok>, i: int)
    requires
        0 <= i < ts.len(),
    ensures
        i < parse_expr(ts, i).1 <= ts.len(),
    decreases ts.len() - i,
{
    let (tm, j) = parse_term(ts, i);
    let t = token_at(ts, j);
    if t is Pipe || t is Bind {
        if j + 1 < ts.len() {
            lemma_parse_expr_pos(ts, j + 1);
        } else {
            assert(parse_expr(ts, j + 1).1 == ts.len());
        }
    }
}

/// The parser's cursor over a token stream, with the nodes built so far.
pub struct Parser {
    tokens: Vec<Token>,
    index: usize,
    nodes: Vec<Node>,
    curr_token: Token,
}

impl Parser {
    /// The models of the tokens the parser walks.
    pub closed spec fn stream(self) -> Seq<Tok> {
        toks(self.tokens@)
    }

    /// The cursor position.
    pub closed spec fn pos(self) -> int {
        self.index as int
    }

    /// The models of the nodes built so far.
    pub closed spec fn parsed(self) -> Seq<NodeV> {
        nodes_view(self.nodes@)
    }

    /// The held current token mirrors the stream at the cursor (an empty
    /// stream holds the `Unknown` placeholder, which `run` never reads).
    pub closed spec fn wf(self) -> bool {
        &&& self.index as int <= self.tokens@.len()
        &&& self.tokens@.len() > 0 ==> self.curr_token@ == token_at(
            toks(self.tokens@),
            self.index as int,
        )
    }

    pub fn new(tokens: Vec<Token>) -> (p: Parser)
        ensures
            p.stream() == toks(tokens@),
            p.pos() == 0,
            p.parsed() == Seq::<NodeV>::empty(),
            p.wf(),
    {
        let tok = if tokens.len() > 0 {
            tokens[0].clone()
        } else {
            Token::Unknown
        };
        let p = Parser { tokens, index: 0, nodes: Vec::new(), curr_token: tok };
        proof {
            assert(nodes_view(p.nodes@) =~= Seq::<NodeV>::empty());
        }
        p
    }

    /// Advances the cursor and refreshes the held current token; past the end
    /// of the stream the held token is the `EOF` sentinel.
    fn step(&mut self)
        requires
            old(self).wf(),
            old(self).tokens@.len() > 0,
        ensures
            final(self).tokens == old(self).tokens,
            final(self).nodes == old(self).nodes,
            final(self).wf(),
            final(self).index as int == (if old(self).index < old(self).tokens@.len() {
                old(self).index + 1
            } else {
                old(self).index as int
            }),
    {
        if self.index < self.tokens.len() {
            self.index = self.index + 1;
        }
        self.curr_token = if self.index < self.tokens.len() {
            self.tokens[self.index].clone()
        } else {
            Token::EOF
        };
    }

    fn factor(&mut self) -> (n: Node)
        requires
            old(self).wf(),
            old(self).tokens@.len() > 0,
        ensures
            final(self).tokens == old(self).tokens,
            final(self).nodes == old(self).nodes,
            final(self).wf(),
            (n@, final(self).index as int) == parse_factor(
                old(self).stream(),
                old(self).index as int,
            ),
    {
        let token = self.curr_token.clone();
        match token {
            Token::Str(_) | Token::Command(_) | Token::ID(_) | Token::Num(_) | Token::Statement(_)
                | Token::Glob => {
                self.step();
                Node::new(token)
            },
            _ => {
                self.step();
                Node::new(Token::EOF)
            },
        }
    }

    fn term(&mut self) -> (n: Node)
        requires
            old(self).wf(),
            old(self).tokens@.len() > 0,
        ensures
            final(self).tokens == old(self).tokens,
            final(self).nodes == old(self).nodes,
            final(self).wf(),
            (n@, final(self).index as int) == parse_term(
                old(self).stream(),
                old(self).index as int,
            ),
    {
        let factor = self.factor();
        match &self.curr_token {
            Token::Extension(_) => Node::new_with_branches(
                self.curr_token.clone(),
                factor.package(),
                None,
            ),
            _ => factor,
        }
    }

    fn expr(&mut self) -> (n: Node)
        requires
            old(self).wf(),
            old(self).tokens@.len() > 0,
        ensures
            final(self).tokens == old(self).tokens,
            final(self).nodes == old(self).nodes,
            final(self).wf(),
            (n@, final(self).index as int) == parse_expr(
                old(self).stream(),
                old(self).index as int,
            ),
        decreases old(self).tokens@.len() - old(self).index,
    {
        let term = self.term();
        match &self.curr_token {
            Token::Pipe | Token::Bind => {
                let tok = self.curr_token.clone();
                self.step();
                let rhs = self.expr();
                Node::new_with_branches(tok, term.package(), rhs.package())
            },
            _ => term,
        }
    }

    /// Parses a whole stream: one node per top-level expression, until the
    /// cursor reads `EOF`.  An empty stream yields no nodes.
    pub fn run(tokens: Vec<Token>) -> (r: Vec<Node>)
        ensures
            nodes_view(r@) == parse_all_from(toks(tokens@), 0),
    {
        let ghost ts = toks(tokens@);
        if tokens.len() == 0 {
            let r: Vec<Node> = Vec::new();
            proof {
                assert(nodes_view(r@) =~= parse_all_from(ts, 0));
            }
            return r;
        }
        let mut parser = Parser::new(tokens);
        loop
            invariant
                parser.wf(),
                parser.tokens@.len() > 0,
                parser.stream() == ts,
                parser.index as int <= ts.len(),
                nodes_view(parser.nodes@) + parse_all_from(ts, parser.index as int)
                    == parse_all_from(ts, 0),
            ensures
                nodes_view(parser.nodes@) == parse_all_from(ts, 0),
            decreases ts.len() - parser.index,
        {
            let is_eof = match &parser.curr_token {
                Token::EOF => true,
                _ => false,
            };
            if is_eof {
                proof {
                    assert(parse_all_from(ts, parser.index as int) =~= Seq::<NodeV>::empty());
                }
                break ;
            }
            let ghost i0 = parser.index as int;
            let ghost pre = nodes_view(parser.nodes@);
            let res = parser.expr();
            proof {
                lemma_parse_expr_pos(ts, i0);
                lemma_nodes_view_push(parser.nodes@, res);
                assert(pre.push(res@) + parse_all_from(ts, parser.index as int) =~= pre + (seq![
                    res@,
                ] + parse_all_from(ts, parser.index as int)));
            }
            parser.nodes.push(res);
        }
        parser.nodes
    }
}

} // verus!
