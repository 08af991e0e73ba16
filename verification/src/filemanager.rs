//! The directory-browser window: a current directory, its listed entries,
//! the selection cursor, and the same command-entry accumulator as a content
//! window.
//!
//! The browser itself never touches the file system: stepping into an entry
//! or back up only names the directory whose listing the surrounding layer
//! must read and hand back through [`FileManager::set_dirs`].

use vstd::prelude::*;

use crate::key::Key;
use crate::eval::Command;
use crate::eval::Cmd;
use crate::eval::cmds;
use crate::eval::pipeline;
use crate::eval::execute_fily_regex;
use crate::text::push_char;
use crate::text::pop_last;
use crate::text::drop_last_char;
use vstd::string::StrSliceExecFns;
use vstd::string::StringExecFns;

verus! {

/// What one key press asks of the surrounding layer: nothing, a batch of
/// commands to apply, or a fresh listing of the named directory.
#[derive(Debug, PartialEq)]
pub enum InputOutcome {
    Quiet,
    Commands(Vec<Command>),
    RefreshDirs(String),
}

/// The mathematical model of an [`InputOutcome`].
#[verifier::ext_equal]
pub enum OutcomeV {
    Quiet,
    Commands(Seq<Cmd>),
    RefreshDirs(Seq<char>),
}

impl View for InputOutcome {
    type V = OutcomeV;

    open spec fn view(&self) -> OutcomeV {
        match self {
            InputOutcome::Quiet => OutcomeV::Quiet,
            InputOutcome::Commands(cs) => OutcomeV::Commands(cmds(cs@)),
            InputOutcome::RefreshDirs(d) => OutcomeV::RefreshDirs(d@),
        }
    }
}

/// A directory-browser window.
#[derive(Debug)]
pub struct FileManager {
    curr_dir: String,
    dirs: Vec<String>,
    file_index: usize,
    curr_regex: String,
    is_searching: bool,
}

/// The mathematical model of a [`FileManager`].
#[verifier::ext_equal]
pub struct FmV {
    pub curr_dir: Seq<char>,
    pub dirs: Seq<Seq<char>>,
    pub file_index: int,
    pub curr_regex: Seq<char>,
    pub is_searching: bool,
}

impl View for FileManager {
    type V = FmV;

    closed spec fn view(&self) -> FmV {
        FmV {
            curr_dir: self.curr_dir@,
            dirs: self.dirs.deep_view(),
            file_index: self.file_index as int,
            curr_regex: self.curr_regex@,
            is_searching: self.is_searching,
        }
    }
}

/// The position just after the last `/` that stands strictly before
/// position `i`, or `-1` when there is none.
pub open spec fn last_slash(s: Seq<char>, i: int) -> int
    decreases i,
{
    if i <= 0 {
        -1
    } else if s[i - 1] == '/' {
        i - 1
    } else {
        last_slash(s, i - 1)
    }
}

/// One step up the directory tree: the path cut just after the last `/`
/// that stands before its final character.  A path with no such separator
/// is already at its top and stays as it is.
pub open spec fn back_spec(p: Seq<char>) -> Seq<char> {
    let j = last_slash(p, p.len() - 1);
    if j >= 0 {
        p.subrange(0, j + 1)
    } else {
        p
    }
}

/// How one key press changes the browser, and what it asks of the
/// surrounding layer.  The arrows move the selection within the listing.
/// Outside entry mode, backspace steps up the tree and enter steps into the
/// selected entry; both reset the selection and ask for a fresh listing.
/// In entry mode the accumulator behaves as in a content window, except
/// that only `s` enters the mode.
pub open spec fn fm_step(f: FmV, key: Key) -> (FmV, OutcomeV) {
    if key is Up {
        (
            FmV {
                file_index: if f.file_index >= 1 {
                    f.file_index - 1
                } else {
                    f.file_index
                },
                ..f
            },
            OutcomeV::Quiet,
        )
    } else if key is Down {
        (
            FmV {
                file_index: if f.file_index + 1 < f.dirs.len() {
                    f.file_index + 1
                } else {
                    f.file_index
                },
                ..f
            },
            OutcomeV::Quiet,
        )
    } else if key is Backspace {
        if f.is_searching {
            (FmV { curr_regex: pop_last(f.curr_regex), ..f }, OutcomeV::Quiet)
        } else {
            let up = back_spec(f.curr_dir);
            (FmV { curr_dir: up, file_index: 0, ..f }, OutcomeV::RefreshDirs(up))
        }
    } else if key is Enter {
        if f.is_searching {
            (
                FmV { is_searching: false, curr_regex: Seq::empty(), ..f },
                OutcomeV::Commands(pipeline(f.curr_regex)),
            )
        } else if 0 <= f.file_index < f.dirs.len() {
            let into = f.dirs[f.file_index];
            (FmV { curr_dir: into, file_index: 0, ..f }, OutcomeV::RefreshDirs(into))
        } else {
            (f, OutcomeV::Quiet)
        }
    } else if key == Key::Char('s') && !f.is_searching {
        (FmV { is_searching: true, ..f }, OutcomeV::Quiet)
    } else if key is Esc {
        if f.is_searching {
            (FmV { is_searching: false, ..f }, OutcomeV::Quiet)
        } else {
            (f, OutcomeV::Quiet)
        }
    } else if key is Char && f.is_searching {
        (FmV { curr_regex: f.curr_regex.push(key->Char_0), ..f }, OutcomeV::Quiet)
    } else {
        (f, OutcomeV::Quiet)
    }
}

impl FileManager {
    /// A browser standing in the given directory with its listing.
    pub fn new(curr_dir: String, dirs: Vec<String>) -> (f: FileManager)
        ensures
            f@ == (FmV {
                curr_dir: curr_dir@,
                dirs: dirs.deep_view(),
                file_index: 0,
                curr_regex: Seq::<char>::empty(),
                is_searching: false,
            }),
    {
        FileManager {
            curr_dir,
            dirs,
            file_index: 0,
            curr_regex: String::new(),
            is_searching: false,
        }
    }

    /// Whether the browser is in command-entry mode, pulling keys.
    pub fn searching(&self) -> (r: bool)
        ensures
            r == self@.is_searching,
    {
        self.is_searching
    }

    /// The command-entry accumulator as typed so far.
    pub fn pulling_info(&self) -> (r: String)
        ensures
            r@ == self@.curr_regex,
    {
        self.curr_regex.clone()
    }

    /// The directory the browser stands in.
    pub fn curr_dir(&self) -> (r: &String)
        ensures
            r@ == self@.curr_dir,
    {
        &self.curr_dir
    }

    /// The listed entries.
    pub fn dirs(&self) -> (r: &Vec<String>)
        ensures
            r.deep_view() == self@.dirs,
    {
        &self.dirs
    }

    /// The selection cursor.
    pub fn file_index(&self) -> (r: usize)
        ensures
            r as int == self@.file_index,
    {
        self.file_index
    }

    /// Replaces the listing, as read by the surrounding layer.
    pub fn set_dirs(&mut self, dirs: Vec<String>)
        ensures
            final(self)@ == (FmV { dirs: dirs.deep_view(), ..old(self)@ }),
    {
        self.dirs = dirs;
    }

    /// One step up the directory tree (see [`back_spec`]).
    pub fn back(path: String) -> (r: String)
        ensures
            r@ == back_spec(path@),
    {
        let n = path.as_str().unicode_len();
        if n == 0 {
            return path;
        }
        let ghost p = path@;
        let mut k: usize = n - 1;
        loop
            invariant
                p == path@,
                n as int == p.len(),
                k as int <= p.len() - 1,
                last_slash(p, k as int) == last_slash(p, p.len() - 1),
            ensures
                p == path@,
                n as int == p.len(),
                k as int <= p.len() - 1,
                k as int - 1 == last_slash(p, p.len() - 1),
            decreases k,
        {
            if k == 0 {
                break ;
            }
            let c = path.as_str().get_char(k - 1);
            if c == '/' {
                break ;
            }
            k = k - 1;
        }
        if k == 0 {
            path
        } else {
            String::from_str(path.as_str().substring_char(0, k))
        }
    }

    /// Dispatches one key press (see [`fm_step`]).
    pub fn handle_input(&mut self, key: Key) -> (r: InputOutcome)
        ensures
            final(self)@ == fm_step(old(self)@, key).0,
            r@ == fm_step(old(self)@, key).1,
    {
        match key {
            Key::Up => {
                if self.file_index >= 1 {
                    self.file_index = self.file_index - 1;
                }
                InputOutcome::Quiet
            },
            Key::Down => {
                if self.dirs.len() > 0 && self.file_index < self.dirs.len() - 1 {
                    self.file_index = self.file_index + 1;
                }
                InputOutcome::Quiet
            },
            Key::Backspace => {
                if self.is_searching {
                    self.curr_regex = drop_last_char(&self.curr_regex);
                    InputOutcome::Quiet
                } else {
                    let up = FileManager::back(self.curr_dir.clone());
                    self.curr_dir = up.clone();
                    self.file_index = 0;
                    InputOutcome::RefreshDirs(up)
                }
            },
            Key::Enter => {
                if self.is_searching {
                    let res = self.execute_fily_regex();
                    self.is_searching = false;
                    self.curr_regex = String::new();
                    InputOutcome::Commands(res)
                } else if self.file_index < self.dirs.len() {
                    let into = self.dirs[self.file_index].clone();
                    self.curr_dir = into.clone();
                    self.file_index = 0;
                    InputOutcome::RefreshDirs(into)
                } else {
                    InputOutcome::Quiet
                }
            },
            Key::Char(c) => {
                if !self.is_searching {
                    if c == 's' {
                        self.is_searching = true;
                    }
                } else {
                    push_char(&mut self.curr_regex, c);
                }
                InputOutcome::Quiet
            },
            Key::Esc => {
                if self.is_searching {
                    self.is_searching = false;
                }
                InputOutcome::Quiet
            },
            Key::Other => InputOutcome::Quiet,
        }
    }

    /// Runs the accumulator through the command pipeline.
    fn execute_fily_regex(&self) -> (r: Vec<Command>)
        ensures
            cmds(r@) == pipeline(self@.curr_regex),
    {
        execute_fily_regex(Some(self.curr_dir.clone()), self.curr_regex.clone())
    }
}

/// Clones a listing element by element so that the model of the copy is
/// known to match.
pub fn clone_dirs(dirs: &Vec<String>) -> (r: Vec<String>)
    ensures
        r.deep_view() == dirs.deep_view(),
{
    let mut r: Vec<String> = Vec::new();
    let n = dirs.len();
    for i in 0..n
        invariant
            n == dirs.len(),
            r.len() == i,
            forall|k: int| 0 <= k < i ==> r@[k]@ == dirs@[k]@,
    {
        r.push(dirs[i].clone());
    }
    proof {
        assert(r.deep_view() =~= dirs.deep_view());
    }
    r
}

impl Clone for FileManager {
    /// The copy has the same model as the original.
    fn clone(&self) -> (r: FileManager)
        ensures
            r@ == self@,
    {
        FileManager {
            curr_dir: self.curr_dir.clone(),
            dirs: clone_dirs(&self.dirs),
            file_index: self.file_index,
            curr_regex: self.curr_regex.clone(),
            is_searching: self.is_searching,
        }
    }
}

} // verus!
