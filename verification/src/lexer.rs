//! The lexer: a single left-to-right pass that turns a line of text into a
//! sequence of [`Token`]s.
//!
//! The whole pass is modelled by the spec functions [`lex_one`], [`lex_from`]
//! and [`lex_full`]; the executable [`Lexer`] is proved to produce exactly
//! `lex_full` of its input.  Lexing is total: unrecognized characters become
//! `Unknown` tokens that the driving loop drops, so the emitted stream never
//! holds one (see [`lemma_lex_no_unknown`]).

use vstd::prelude::*;

use crate::token::Token;
use crate::token::Tok;
use crate::token::toks;
use crate::token::lemma_statement_view;
use crate::token::lemma_toks_push;
use vstd::string::StrSliceExecFns;
use vstd::string::StringExecFns;

verus! {

/// A word character: an ASCII letter, an ASCII digit or an underscore.
/// Identifiers and command names are maximal runs of these.
pub open spec fn is_word_char(c: char) -> bool {
    (('a' as u32) <= (c as u32) && (c as u32) <= ('z' as u32)) || (('A' as u32) <= (c as u32) && (
    c as u32) <= ('Z' as u32)) || (('0' as u32) <= (c as u32) && (c as u32) <= ('9' as u32)) || c
        == '_'
}

/// The blank characters the lexer skips between tokens.
pub open spec fn is_space_char(c: char) -> bool {
    c == ' ' || c == '\t' || c == '\n'
}

/// The character under the cursor, with a NUL sentinel past either end.
pub open spec fn char_at(s: Seq<char>, i: int) -> char {
    if 0 <= i < s.len() {
        s[i]
    } else {
        '\0'
    }
}

/// The first position at or after `i` that does not hold a blank character.
pub open spec fn skip_ws(s: Seq<char>, i: int) -> int
    decreases s.len() - i,
{
    if 0 <= i < s.len() && is_space_char(s[i]) {
        skip_ws(s, i + 1)
    } else {
        i
    }
}

/// The first position at or after `i` that does not hold a word character.
pub open spec fn scan_word_end(s: Seq<char>, i: int) -> int
    decreases s.len() - i,
{
    if 0 <= i < s.len() && is_word_char(s[i]) {
        scan_word_end(s, i + 1)
    } else {
        i
    }
}

/// The first position at or after `i` holding `stop` or a NUL, or the end of
/// the text.
pub open spec fn scan_delim_end(s: Seq<char>, i: int, stop: char) -> int
    decreases s.len() - i,
{
    if 0 <= i < s.len() && s[i] != stop && s[i] != '\0' {
        scan_delim_end(s, i + 1, stop)
    } else {
        i
    }
}

pub proof fn lemma_skip_ws_bounds(s: Seq<char>, i: int)
    ensures
        i <= skip_ws(s, i),
        i <= s.len() ==> skip_ws(s, i) <= s.len(),
    decreases s.len() - i,
{
    if 0 <= i < s.len() && is_space_char(s[i]) {
        lemma_skip_ws_bounds(s, i + 1);
    }
}

pub proof fn lemma_scan_word_bounds(s: Seq<char>, i: int)
    ensures
        i <= scan_word_end(s, i),
        i <= s.len() ==> scan_word_end(s, i) <= s.len(),
    decreases s.len() - i,
{
    if 0 <= i < s.len() && is_word_char(s[i]) {
        lemma_scan_word_bounds(s, i + 1);
    }
}

pub proof fn lemma_scan_delim_bounds(s: Seq<char>, i: int, stop: char)
    ensures
        i <= scan_delim_end(s, i, stop),
        i <= s.len() ==> scan_delim_end(s, i, stop) <= s.len(),
    decreases s.len() - i,
{
    if 0 <= i < s.len() && s[i] != stop && s[i] != '\0' {
        lemma_scan_delim_bounds(s, i + 1, stop);
    }
}

/// One step of the lexer: the token recognized at or after position `i`, and
/// the position at which the pass resumes.  A `.` wraps the token lexed right
/// after it in `Extension`; a `|` captures text up to the closing `|` and
/// embeds its own lexing as a `Statement`.
pub open spec fn lex_one(s: Seq<char>, i: int) -> (Tok, int)
    decreases s.len() - i, 0int,
{
    let k = skip_ws(s, i);
    let c = char_at(s, k);
    if c == '>' {
        (Tok::Pipe, k + 1)
    } else if c == '*' {
        (Tok::Glob, k + 1)
    } else if c == '&' {
        (Tok::Bind, k + 1)
    } else if c == '.' {
        proof {
            lemma_skip_ws_bounds(s, i);
        }
        let (t, n) = lex_one(s, k + 1);
        (Tok::Extension(Box::new(t)), n)
    } else if c == ':' {
        let e = scan_word_end(s, k + 1);
        (Tok::Command(s.subrange(k + 1, e)), e)
    } else if c == '"' {
        let e = scan_delim_end(s, k + 1, '"');
        (Tok::Str(s.subrange(k + 1, e)), if e < s.len() {
            e + 1
        } else {
            e
        })
    } else if c == '|' {
        proof {
            lemma_skip_ws_bounds(s, i);
            lemma_scan_delim_bounds(s, k + 1, '|');
        }
        let e = scan_delim_end(s, k + 1, '|');
        (Tok::Statement(lex_full(s.subrange(k + 1, e))), if e < s.len() {
            e + 1
        } else {
            e
        })
    } else if is_word_char(c) {
        let e = scan_word_end(s, k);
        (Tok::ID(s.subrange(k, e)), e)
    } else {
        (Tok::Unknown, if k < s.len() {
            k + 1
        } else {
            k
        })
    }
}

/// The token stream lexed from position `i` on: tokens in order, `Unknown`
/// dropped, stopping at the end of the text or at a NUL under the cursor.
pub open spec fn lex_from(s: Seq<char>, i: int) -> Seq<Tok>
    decreases s.len() - i, 1int,
{
    if 0 <= i < s.len() && s[i] != '\0' {
        let (t, n) = lex_one(s, i);
        let rest = if i < n <= s.len() {
            lex_from(s, n)
        } else {
            Seq::empty()
        };
        if t is Unknown {
            rest
        } else {
            seq![t] + rest
        }
    } else {
        Seq::empty()
    }
}

/// The complete lexing of a text: the stream from position 0 with the
/// `EOF` sentinel appended once at the end.
pub open spec fn lex_full(s: Seq<char>) -> Seq<Tok>
    decreases s.len(), 2int,
{
    lex_from(s, 0) + seq![Tok::EOF]
}

/// The resumption position moves forward, and never past the end.
pub proof fn lemma_lex_one_pos(s: Seq<char>, i: int)
    requires
        0 <= i <= s.len(),
    ensures
        i <= lex_one(s, i).1 <= s.len(),
        i < s.len() ==> i < lex_one(s, i).1,
    decreases s.len() - i,
{
    lemma_skip_ws_bounds(s, i);
    let k = skip_ws(s, i);
    let c = char_at(s, k);
    if c == '.' {
        lemma_lex_one_pos(s, k + 1);
    } else if c == ':' {
        lemma_scan_word_bounds(s, k + 1);
    } else if c == '"' || c == '|' {
        lemma_scan_delim_bounds(s, k + 1, c);
    } else if is_word_char(c) {
        lemma_scan_word_bounds(s, k + 1);
    }
}

/// No step of the lexer ever recognizes the `EOF` sentinel itself.
proof fn lemma_lex_one_not_eof(s: Seq<char>, i: int)
    ensures
        !(lex_one(s, i).0 is EOF),
    decreases s.len() - i,
{
    lemma_skip_ws_bounds(s, i);
    let k = skip_ws(s, i);
    if char_at(s, k) == '.' {
        lemma_lex_one_not_eof(s, k + 1);
    }
}

proof fn lemma_lex_from_clean(s: Seq<char>, i: int)
    ensures
        forall|k: int|
            0 <= k < lex_from(s, i).len() ==> !((#[trigger] lex_from(s, i)[k]) is Unknown) && !(
            lex_from(s, i)[k] is EOF),
    decreases s.len() - i,
{
    if 0 <= i < s.len() && s[i] != '\0' {
        let (t, n) = lex_one(s, i);
        lemma_lex_one_not_eof(s, i);
        if i < n <= s.len() {
            lemma_lex_from_clean(s, n);
        }
    }
}

/// Lexing never emits `Unknown`: the driving loop drops every unclassifiable
/// character.  The `EOF` sentinel stands exactly once, as the last element.
pub proof fn lemma_lex_no_unknown(s: Seq<char>)
    ensures
        lex_full(s).len() >= 1,
        lex_full(s).last() == Tok::EOF,
        forall|k: int| 0 <= k < lex_full(s).len() ==> !((#[trigger] lex_full(s)[k]) is Unknown),
        forall|k: int| 0 <= k < lex_full(s).len() - 1 ==> !((#[trigger] lex_full(s)[k]) is EOF),
{
    lemma_lex_from_clean(s, 0);
}

/// The text captured between the `|` delimiters of the token recognized at
/// position `i`, when that token is a `Statement`.
pub open spec fn statement_text(s: Seq<char>, i: int) -> Seq<char> {
    let k = skip_ws(s, i);
    s.subrange(k + 1, scan_delim_end(s, k + 1, '|'))
}

/// Re-lexing the text captured inside a `Statement` token in isolation
/// yields exactly the token sequence embedded in that `Statement`.
pub proof fn lemma_statement_relex(s: Seq<char>, i: int)
    requires
        lex_one(s, i).0 is Statement,
    ensures
        lex_one(s, i).0->Statement_0 == lex_full(statement_text(s, i)),
{
}

/// The lexer's cursor: a single pass over the source with one character of
/// lookahead, accumulating the emitted tokens.
pub struct Lexer {
    src: String,
    index: usize,
    tokens: Vec<Token>,
}

impl Lexer {
    /// The source text under the cursor.
    pub closed spec fn src_model(self) -> Seq<char> {
        self.src@
    }

    /// The cursor position, in characters.
    pub closed spec fn pos(self) -> int {
        self.index as int
    }

    /// The models of the tokens emitted so far.
    pub closed spec fn emitted(self) -> Seq<Tok> {
        toks(self.tokens@)
    }

    pub fn new(src: String) -> (l: Lexer)
        ensures
            l.src_model() == src@,
            l.pos() == 0,
            l.emitted() == Seq::<Tok>::empty(),
    {
        let l = Lexer { src, index: 0, tokens: Vec::new() };
        proof {
            assert(toks(l.tokens@) =~= Seq::<Tok>::empty());
        }
        l
    }

    /// The character under the cursor, or NUL at the end of the source.
    fn curr_char(&self) -> (c: char)
        ensures
            c == char_at(self.src@, self.index as int),
            self.src@.len() <= usize::MAX,
    {
        let n = self.src.as_str().unicode_len();
        if self.index < n {
            self.src.as_str().get_char(self.index)
        } else {
            '\0'
        }
    }

    fn skip_whitespace(&mut self)
        requires
            old(self).index as int <= old(self).src@.len(),
        ensures
            final(self).src == old(self).src,
            final(self).tokens == old(self).tokens,
            final(self).index as int == skip_ws(old(self).src@, old(self).index as int),
            old(self).index <= final(self).index,
            final(self).index as int <= old(self).src@.len(),
    {
        loop
            invariant
                self.src == old(self).src,
                self.tokens == old(self).tokens,
                old(self).index <= self.index,
                self.index as int <= self.src@.len(),
                skip_ws(self.src@, self.index as int) == skip_ws(
                    old(self).src@,
                    old(self).index as int,
                ),
            ensures
                self.src == old(self).src,
                self.tokens == old(self).tokens,
                old(self).index <= self.index,
                self.index as int <= self.src@.len(),
                self.index as int == skip_ws(old(self).src@, old(self).index as int),
            decreases self.src@.len() - self.index,
        {
            let c = self.curr_char();
            if c == ' ' || c == '\t' || c == '\n' {
                self.index = self.index + 1;
            } else {
                break ;
            }
        }
    }

    /// Steps the cursor over a maximal run of word characters.
    fn scan_word(&mut self)
        requires
            old(self).index as int <= old(self).src@.len(),
        ensures
            final(self).src == old(self).src,
            final(self).tokens == old(self).tokens,
            final(self).index as int == scan_word_end(old(self).src@, old(self).index as int),
            old(self).index <= final(self).index,
            final(self).index as int <= old(self).src@.len(),
    {
        loop
            invariant
                self.src == old(self).src,
                self.tokens == old(self).tokens,
                old(self).index <= self.index,
                self.index as int <= self.src@.len(),
                scan_word_end(self.src@, self.index as int) == scan_word_end(
                    old(self).src@,
                    old(self).index as int,
                ),
            ensures
                self.src == old(self).src,
                self.tokens == old(self).tokens,
                old(self).index <= self.index,
                self.index as int <= self.src@.len(),
                self.index as int == scan_word_end(old(self).src@, old(self).index as int),
            decreases self.src@.len() - self.index,
        {
            let c = self.curr_char();
            if word_char(c) {
                self.index = self.index + 1;
            } else {
                break ;
            }
        }
    }

    /// Steps the cursor up to the next `stop` character, NUL, or the end of
    /// the source.
    fn scan_delim(&mut self, stop: char)
        requires
            old(self).index as int <= old(self).src@.len(),
        ensures
            final(self).src == old(self).src,
            final(self).tokens == old(self).tokens,
            final(self).index as int == scan_delim_end(
                old(self).src@,
                old(self).index as int,
                stop,
            ),
            old(self).index <= final(self).index,
            final(self).index as int <= old(self).src@.len(),
    {
        loop
            invariant
                self.src == old(self).src,
                self.tokens == old(self).tokens,
                old(self).index <= self.index,
                self.index as int <= self.src@.len(),
                scan_delim_end(self.src@, self.index as int, stop) == scan_delim_end(
                    old(self).src@,
                    old(self).index as int,
                    stop,
                ),
            ensures
                self.src == old(self).src,
                self.tokens == old(self).tokens,
                old(self).index <= self.index,
                self.index as int <= self.src@.len(),
                self.index as int == scan_delim_end(old(self).src@, old(self).index as int, stop),
            decreases self.src@.len() - self.index,
        {
            let c = self.curr_char();
            if c != stop && c != '\0' {
                self.index = self.index + 1;
            } else {
                break ;
            }
        }
    }

    /// Copies the characters between two cursor positions.
    fn capture(&self, from: usize, to: usize) -> (r: String)
        requires
            from <= to,
            to as int <= self.src@.len(),
        ensures
            r@ == self.src@.subrange(from as int, to as int),
    {
        String::from_str(self.src.as_str().substring_char(from, to))
    }

    /// Recognizes one token at the cursor and leaves the cursor at the
    /// position where the pass resumes.
    fn lex(&mut self) -> (t: Token)
        requires
            old(self).index as int <= old(self).src@.len(),
        ensures
            final(self).src == old(self).src,
            final(self).tokens == old(self).tokens,
            t@ == lex_one(old(self).src@, old(self).index as int).0,
            final(self).index as int == lex_one(old(self).src@, old(self).index as int).1,
            old(self).index <= final(self).index,
            final(self).index as int <= old(self).src@.len(),
        decreases old(self).src@.len() - old(self).index, 0int,
    {
        self.skip_whitespace();
        let c = self.curr_char();
        if c == '>' {
            self.index = self.index + 1;
            Token::Pipe
        } else if c == '*' {
            self.index = self.index + 1;
            Token::Glob
        } else if c == '&' {
            self.index = self.index + 1;
            Token::Bind
        } else if c == '.' {
            self.index = self.index + 1;
            let inner = self.lex();
            Token::Extension(Box::new(inner))
        } else if c == ':' {
            self.index = self.index + 1;
            let start = self.index;
            self.scan_word();
            let text = self.capture(start, self.index);
            Token::Command(text)
        } else if c == '"' {
            self.index = self.index + 1;
            let start = self.index;
            self.scan_delim('"');
            let text = self.capture(start, self.index);
            let n = self.src.as_str().unicode_len();
            if self.index < n {
                self.index = self.index + 1;
            }
            Token::Str(text)
        } else if c == '|' {
            self.index = self.index + 1;
            let start = self.index;
            self.scan_delim('|');
            let text = self.capture(start, self.index);
            let n = self.src.as_str().unicode_len();
            if self.index < n {
                self.index = self.index + 1;
            }
            let sub = Lexer::run(text);
            proof {
                lemma_statement_view(sub);
            }
            Token::Statement(sub)
        } else if word_char(c) {
            let start = self.index;
            self.scan_word();
            let text = self.capture(start, self.index);
            Token::ID(text)
        } else {
            let n = self.src.as_str().unicode_len();
            if self.index < n {
                self.index = self.index + 1;
            }
            Token::Unknown
        }
    }

    /// Lexes a whole line: tokens in order, `Unknown` dropped, with the `EOF`
    /// sentinel appended once at the end.
    pub fn run(src: String) -> (r: Vec<Token>)
        ensures
            toks(r@) == lex_full(src@),
        decreases src@.len(), 1int,
    {
        let mut lexer = Lexer::new(src);
        loop
            invariant
                lexer.src@ == src@,
                lexer.index as int <= src@.len(),
                toks(lexer.tokens@) + lex_from(src@, lexer.index as int) == lex_from(src@, 0),
            ensures
                toks(lexer.tokens@) == lex_from(src@, 0),
            decreases src@.len() - lexer.index,
        {
            let n = lexer.src.as_str().unicode_len();
            if !(lexer.index < n) {
                proof {
                    assert(lex_from(src@, lexer.index as int) =~= Seq::<Tok>::empty());
                }
                break ;
            }
            let c = lexer.curr_char();
            if c == '\0' {
                proof {
                    assert(lex_from(src@, lexer.index as int) =~= Seq::<Tok>::empty());
                }
                break ;
            }
            let ghost i0 = lexer.index as int;
            let ghost pre = toks(lexer.tokens@);
            let ghost t = lex_one(src@, i0).0;
            let ghost rest = lex_from(src@, lex_one(src@, i0).1);
            let tok = lexer.lex();
            proof {
                lemma_lex_one_pos(src@, i0);
            }
            match tok {
                Token::Unknown => {},
                tok => {
                    proof {
                        lemma_toks_push(lexer.tokens@, tok);
                        assert(pre.push(t) + rest =~= pre + (seq![t] + rest));
                    }
                    lexer.tokens.push(tok);
                },
            }
        }
        proof {
            lemma_toks_push(lexer.tokens@, Token::EOF);
        }
        lexer.tokens.push(Token::EOF);
        proof {
            assert(toks(lexer.tokens@) =~= lex_full(src@));
        }
        lexer.tokens
    }
}

/// A word character test on one character.
fn word_char(c: char) -> (b: bool)
    ensures
        b == is_word_char(c),
{
    let u = c as u32;
    (('a' as u32) <= u && u <= ('z' as u32)) || (('A' as u32) <= u && u <= ('Z' as u32)) || (('0'
        as u32) <= u && u <= ('9' as u32)) || c == '_'
}

} // verus!
