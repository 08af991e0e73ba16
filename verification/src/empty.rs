//! A plain content window: scrollable text and the command-entry
//! accumulator that feeds the command pipeline.

use vstd::prelude::*;

use crate::key::Key;
use crate::eval::Command;
use crate::eval::Cmd;
use crate::eval::cmds;
use crate::eval::pipeline;
use crate::eval::execute_fily_regex;
use crate::text::push_char;
use crate::text::pop_last;
use crate::text::drop_last_char;
use crate::text::line_count;
use crate::text::newline_count;

verus! {

/// A content window: its text, the line the cursor rests on, and the
/// command-entry accumulator with its mode flag.
#[derive(Debug)]
pub struct Empty {
    contents: String,
    line_index: usize,
    is_searching: bool,
    curr_regex: String,
}

/// The mathematical model of an [`Empty`] window.
#[verifier::ext_equal]
pub struct EmptyV {
    pub contents: Seq<char>,
    pub line_index: int,
    pub is_searching: bool,
    pub curr_regex: Seq<char>,
}

impl View for Empty {
    type V = EmptyV;

    closed spec fn view(&self) -> EmptyV {
        EmptyV {
            contents: self.contents@,
            line_index: self.line_index as int,
            is_searching: self.is_searching,
            curr_regex: self.curr_regex@,
        }
    }
}

/// How one key press changes a content window, and what it hands back:
/// the arrows move the cursor line within the text's line count; in entry
/// mode, characters accumulate, backspace removes one, escape leaves the
/// mode, and enter runs the accumulator through the command pipeline and
/// resets it; outside entry mode, `s` and `:` enter it, `:` seeding the
/// accumulator with itself.
pub open spec fn empty_step(e: EmptyV, key: Key) -> (EmptyV, Option<Seq<Cmd>>) {
    if key is Up {
        (
            EmptyV {
                line_index: if e.line_index >= 1 {
                    e.line_index - 1
                } else {
                    e.line_index
                },
                ..e
            },
            None,
        )
    } else if key is Down {
        (
            EmptyV {
                line_index: if e.line_index + 1 < line_count(e.contents) {
                    e.line_index + 1
                } else {
                    e.line_index
                },
                ..e
            },
            None,
        )
    } else if key is Backspace {
        if e.is_searching {
            (EmptyV { curr_regex: pop_last(e.curr_regex), ..e }, None)
        } else {
            (e, None)
        }
    } else if key is Enter {
        if e.is_searching {
            (
                EmptyV { is_searching: false, curr_regex: Seq::empty(), ..e },
                Some(pipeline(e.curr_regex)),
            )
        } else {
            (e, None)
        }
    } else if key == Key::Char('s') && !e.is_searching {
        (EmptyV { is_searching: true, ..e }, None)
    } else if key == Key::Char(':') && !e.is_searching {
        (EmptyV { curr_regex: e.curr_regex.push(':'), is_searching: true, ..e }, None)
    } else if key is Esc {
        if e.is_searching {
            (EmptyV { is_searching: false, ..e }, None)
        } else {
            (e, None)
        }
    } else if key is Char && e.is_searching {
        (EmptyV { curr_regex: e.curr_regex.push(key->Char_0), ..e }, None)
    } else {
        (e, None)
    }
}

impl Empty {
    pub fn new(contents: String) -> (e: Empty)
        ensures
            e@ == (EmptyV {
                contents: contents@,
                line_index: 0,
                is_searching: false,
                curr_regex: Seq::<char>::empty(),
            }),
    {
        Empty { contents, line_index: 0, is_searching: false, curr_regex: String::new() }
    }

    /// Whether the window is in command-entry mode, pulling keys.
    pub fn searching(&self) -> (r: bool)
        ensures
            r == self@.is_searching,
    {
        self.is_searching
    }

    /// The command-entry accumulator as typed so far.
    pub fn pulling_info(&self) -> (r: String)
        ensures
            r@ == self@.curr_regex,
    {
        self.curr_regex.clone()
    }

    /// The text the window shows.
    pub fn contents(&self) -> (r: &String)
        ensures
            r@ == self@.contents,
    {
        &self.contents
    }

    /// The line the cursor rests on.
    pub fn line_index(&self) -> (r: usize)
        ensures
            r as int == self@.line_index,
    {
        self.line_index
    }

    /// Dispatches one key press; in command-entry mode, enter hands back the
    /// commands the accumulator evaluates to.
    pub fn handle_input(&mut self, key: Key) -> (r: Option<Vec<Command>>)
        ensures
            final(self)@ == empty_step(old(self)@, key).0,
            (match (r, empty_step(old(self)@, key).1) {
                (Some(v), Some(m)) => cmds(v@) == m,
                (None, None) => true,
                _ => false,
            }),
    {
        match key {
            Key::Up => {
                if self.line_index >= 1 {
                    self.line_index = self.line_index - 1;
                }
            },
            Key::Down => {
                let nl = newline_count(&self.contents);
                if self.line_index < nl {
                    self.line_index = self.line_index + 1;
                }
            },
            Key::Backspace => {
                if self.is_searching {
                    self.curr_regex = drop_last_char(&self.curr_regex);
                }
            },
            Key::Enter => {
                if self.is_searching {
                    let res = self.execute_fily_regex();
                    self.is_searching = false;
                    self.curr_regex = String::new();
                    return Some(res);
                }
            },
            Key::Char(c) => {
                if !self.is_searching {
                    if c == 's' {
                        self.is_searching = true;
                    } else if c == ':' {
                        push_char(&mut self.curr_regex, ':');
                        self.is_searching = true;
                    }
                } else {
                    push_char(&mut self.curr_regex, c);
                }
            },
            Key::Esc => {
                if self.is_searching {
                    self.is_searching = false;
                }
            },
            Key::Other => {},
        }
        None
    }

    /// Runs the accumulator through the command pipeline.
    fn execute_fily_regex(&self) -> (r: Vec<Command>)
        ensures
            cmds(r@) == pipeline(self@.curr_regex),
    {
        execute_fily_regex(None, self.curr_regex.clone())
    }
}

impl Clone for Empty {
    /// The copy has the same model as the original.
    fn clone(&self) -> (r: Empty)
        ensures
            r@ == self@,
    {
        Empty {
            contents: self.contents.clone(),
            line_index: self.line_index,
            is_searching: self.is_searching,
            curr_regex: self.curr_regex.clone(),
        }
    }
}

} // verus!
