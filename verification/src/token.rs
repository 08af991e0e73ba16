//! The lexical units of the command language, and their mathematical model.

use vstd::prelude::*;

verus! {

broadcast use vstd::std_specs::vec::axiom_vec_index_decreases;

/// A minimal lexical unit produced from raw text.
///
/// `Extension` wraps exactly one sub-token (the token lexed right after a
/// `.`), and `Statement` embeds a whole sub-program: the token sequence of a
/// `|...|` block, lexed recursively.  A numeral is kept as its source text in
/// `Num`; the grammar treats it purely as an atomic operand and never reads a
/// numeric value out of it.
#[derive(Debug, PartialEq)]
pub enum Token {
    ID(String),
    Str(String),
    Num(String),
    Extension(Box<Token>),
    Command(String),
    Statement(Vec<Token>),
    Bind,
    Glob,
    Pipe,
    Unknown,
    EOF,
}

/// The mathematical model of a [`Token`]: the same tree with every piece of
/// text abstracted to a sequence of characters.
#[verifier::ext_equal]
pub enum Tok {
    ID(Seq<char>),
    Str(Seq<char>),
    Num(Seq<char>),
    Extension(Box<Tok>),
    Command(Seq<char>),
    Statement(Seq<Tok>),
    Bind,
    Glob,
    Pipe,
    Unknown,
    EOF,
}

impl View for Token {
    type V = Tok;

    open spec fn view(&self) -> Tok
        decreases self,
    {
        match self {
            Token::ID(s) => Tok::ID(s@),
            Token::Str(s) => Tok::Str(s@),
            Token::Num(s) => Tok::Num(s@),
            Token::Extension(inner) => Tok::Extension(Box::new((**inner).view())),
            Token::Command(s) => Tok::Command(s@),
            Token::Statement(ts) => Tok::Statement(
                Seq::new(
                    ts@.len(),
                    |i: int|
                        if 0 <= i < ts@.len() {
                            ts@[i].view()
                        } else {
                            Tok::Unknown
                        },
                ),
            ),
            Token::Bind => Tok::Bind,
            Token::Glob => Tok::Glob,
            Token::Pipe => Tok::Pipe,
            Token::Unknown => Tok::Unknown,
            Token::EOF => Tok::EOF,
        }
    }
}

impl DeepView for Token {
    type V = Tok;

    open spec fn deep_view(&self) -> Tok {
        self.view()
    }
}

/// The models of a sequence of tokens, elementwise.
pub open spec fn toks(ts: Seq<Token>) -> Seq<Tok> {
    Seq::new(ts.len(), |i: int| ts[i]@)
}

/// Appending a token appends its model.
pub proof fn lemma_toks_push(ts: Seq<Token>, t: Token)
    ensures
        toks(ts.push(t)) == toks(ts).push(t@),
{
    assert(toks(ts.push(t)) =~= toks(ts).push(t@));
}

/// The model of a `Statement` token is the elementwise model of its parts.
pub broadcast proof fn lemma_statement_view(ts: Vec<Token>)
    ensures
        (#[trigger] Token::Statement(ts)@) == Tok::Statement(toks(ts@)),
{
    assert(Token::Statement(ts)@->Statement_0 =~= toks(ts@));
    assert(Token::Statement(ts)@ =~= Tok::Statement(toks(ts@)));
}

impl Tok {
    /// An atomic token can stand alone as an operand.
    pub open spec fn is_atomic(self) -> bool {
        match self {
            Tok::ID(_) | Tok::Str(_) | Tok::Num(_) | Tok::Command(_) | Tok::Statement(_)
            | Tok::Glob => true,
            _ => false,
        }
    }

    /// The text an operand hands to a piped command: identifiers, string
    /// literals and command names expose their inner text verbatim; every
    /// other kind of token yields the empty string.
    pub open spec fn string_value(self) -> Seq<char> {
        match self {
            Tok::ID(v) | Tok::Str(v) | Tok::Command(v) => v,
            _ => Seq::empty(),
        }
    }
}

impl Token {
    pub fn is_atomic(&self) -> (r: bool)
        ensures
            r == self@.is_atomic(),
    {
        match self {
            Token::ID(_) | Token::Str(_) | Token::Num(_) | Token::Command(_) | Token::Statement(_)
                | Token::Glob => true,
            _ => false,
        }
    }

    pub fn get_string_value(&self) -> (r: String)
        ensures
            r@ == self@.string_value(),
    {
        match self {
            Token::ID(v) | Token::Str(v) | Token::Command(v) => v.clone(),
            _ => String::new(),
        }
    }
}

/// Clones element by element so that the model of the copy is known to match.
fn clone_tokens(ts: &Vec<Token>) -> (r: Vec<Token>)
    ensures
        toks(r@) == toks(ts@),
    decreases *ts,
{
    let mut r: Vec<Token> = Vec::new();
    let n = ts.len();
    for i in 0..n
        invariant
            n == ts.len(),
            r.len() == i,
            forall|k: int| 0 <= k < i ==> r@[k]@ == ts@[k]@,
    {
        r.push(ts[i].clone());
    }
    proof {
        assert(toks(r@) =~= toks(ts@));
    }
    r
}

impl Clone for Token {
    /// The copy has the same model as the original.
    fn clone(&self) -> (r: Token)
        ensures
            r@ == self@,
        decreases self,
    {
        match self {
            Token::ID(s) => Token::ID(s.clone()),
            Token::Str(s) => Token::Str(s.clone()),
            Token::Num(s) => Token::Num(s.clone()),
            Token::Extension(inner) => Token::Extension(Box::new((**inner).clone())),
            Token::Command(s) => Token::Command(s.clone()),
            Token::Statement(ts) => {
                let cloned = clone_tokens(ts);
                proof {
                    lemma_statement_view(cloned);
                    lemma_statement_view(*ts);
                }
                Token::Statement(cloned)
            },
            Token::Bind => Token::Bind,
            Token::Glob => Token::Glob,
            Token::Pipe => Token::Pipe,
            Token::Unknown => Token::Unknown,
            Token::EOF => Token::EOF,
        }
    }
}

} // verus!
