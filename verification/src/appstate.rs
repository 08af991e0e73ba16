//! The application state: an ordered collection of windows, the focus
//! index, and the exit flag, together with the rules that apply a command
//! sequence to them.
//!
//! The state itself never touches the file system: opening an explorer
//! window takes the current directory and its listing as arguments, and a
//! browser asking for a fresh listing is served through
//! [`AppState::refresh_curr_dirs`].

use vstd::prelude::*;

use crate::key::Key;
use crate::eval::Command;
use crate::eval::Cmd;
use crate::eval::cmds;
use crate::empty::Empty;
use crate::empty::EmptyV;
use crate::filemanager::FileManager;
use crate::filemanager::FmV;
use crate::filemanager::InputOutcome;
use crate::filemanager::OutcomeV;
use crate::filemanager::clone_dirs;
use crate::window::Element;
use crate::window::ElemV;
use crate::window::WindowState;
use crate::window::WinV;
use crate::window::win_step;
use crate::window::win_refresh;
use vstd::string::StringExecFns;

verus! {

pub type AppState_t = Box<AppState>;

pub type WinStates = Vec<Box<WindowState>>;

/// The application state.
#[allow(dead_code)]
pub struct AppState {
    counter: i32,
    curr_window: usize,
    window_states: WinStates,
    exit: bool,
}

/// The mathematical model of an [`AppState`].
#[verifier::ext_equal]
pub struct AppV {
    pub counter: int,
    pub curr_window: int,
    pub windows: Seq<WinV>,
    pub exit: bool,
}

/// The models of an owned window collection, elementwise.
pub open spec fn wins_view(ws: Seq<Box<WindowState>>) -> Seq<WinV> {
    Seq::new(ws.len(), |i: int| (*ws[i])@)
}

impl View for AppState {
    type V = AppV;

    closed spec fn view(&self) -> AppV {
        AppV {
            counter: self.counter as int,
            curr_window: self.curr_window as int,
            windows: wins_view(self.window_states@),
            exit: self.exit,
        }
    }
}

impl AppV {
    /// The focus index stands on a window whenever there is one, and rests
    /// at the start otherwise.
    pub open spec fn wf(self) -> bool {
        0 <= self.curr_window && (self.curr_window < self.windows.len() || self.curr_window == 0)
    }
}

/// Focus moved one window to the left, wrapping to the far end; with no
/// windows the focus stays where it is.
pub open spec fn focus_left_spec(curr: int, len: int) -> int {
    if len <= 0 {
        curr
    } else if curr - 1 < 0 {
        len - 1
    } else {
        curr - 1
    }
}

/// Focus moved one window to the right, wrapping to the start; with no
/// windows the focus stays where it is.
pub open spec fn focus_right_spec(curr: int, len: int) -> int {
    if len <= 0 {
        curr
    } else if curr + 1 > len - 1 {
        0
    } else {
        curr + 1
    }
}

/// A fresh content window: named `empty`, showing the given text.
pub open spec fn new_content_window(contents: Seq<char>) -> WinV {
    WinV {
        name: "empty"@,
        element: ElemV::Empty(
            EmptyV {
                contents,
                line_index: 0,
                is_searching: false,
                curr_regex: Seq::<char>::empty(),
            },
        ),
    }
}

/// A fresh explorer window: named `balls`, browsing the given directory.
pub open spec fn new_explorer_window(dir: Seq<char>, listing: Seq<Seq<char>>) -> WinV {
    WinV {
        name: "balls"@,
        element: ElemV::FileManager(
            FmV {
                curr_dir: dir,
                dirs: listing,
                file_index: 0,
                curr_regex: Seq::<char>::empty(),
                is_searching: false,
            },
        ),
    }
}

/// The state after the window at `index` closes: the window leaves the
/// collection and the focus moves one to the left, wrapping.
pub open spec fn remove_win_spec(st: AppV, index: int) -> AppV {
    let ws = st.windows.remove(index);
    AppV { windows: ws, curr_window: focus_left_spec(st.curr_window, ws.len() as int), ..st }
}

/// How one command changes the state.  `Win` opens a content window;
/// `Explorer` opens a browser on the given directory and listing; `CopyWin`
/// clones the focused window; `Quit` closes it; `FocusLeft` and
/// `FocusRight` move focus with wraparound; `RequestExit` raises the exit
/// flag; everything else (including `Unknown`) changes nothing.  `Quit` and
/// `CopyWin` change nothing when no window has focus.
pub open spec fn apply_command(st: AppV, c: Cmd, dir: Seq<char>, listing: Seq<Seq<char>>) -> AppV {
    match c {
        Cmd::Win(contents) => AppV { windows: st.windows.push(new_content_window(contents)), ..st },
        Cmd::Quit => {
            if 0 <= st.curr_window < st.windows.len() {
                remove_win_spec(st, st.curr_window)
            } else {
                st
            }
        },
        Cmd::Explorer => AppV { windows: st.windows.push(new_explorer_window(dir, listing)), ..st },
        Cmd::CopyWin => {
            if 0 <= st.curr_window < st.windows.len() {
                AppV { windows: st.windows.push(st.windows[st.curr_window]), ..st }
            } else {
                st
            }
        },
        Cmd::FocusLeft => AppV {
            curr_window: focus_left_spec(st.curr_window, st.windows.len() as int),
            ..st
        },
        Cmd::FocusRight => AppV {
            curr_window: focus_right_spec(st.curr_window, st.windows.len() as int),
            ..st
        },
        Cmd::RequestExit => AppV { exit: true, ..st },
        _ => st,
    }
}

/// A command sequence applied in order, front to back.
pub open spec fn apply_commands(
    st: AppV,
    cs: Seq<Cmd>,
    dir: Seq<char>,
    listing: Seq<Seq<char>>,
) -> AppV
    decreases cs.len(),
{
    if cs.len() == 0 {
        st
    } else {
        apply_command(apply_commands(st, cs.drop_last(), dir, listing), cs.last(), dir, listing)
    }
}

/// Every command leaves the focus index on a window, or at the start.
pub proof fn lemma_apply_command_wf(st: AppV, c: Cmd, dir: Seq<char>, listing: Seq<Seq<char>>)
    requires
        st.wf(),
    ensures
        apply_command(st, c, dir, listing).wf(),
{
}

impl AppState {
    pub fn new() -> (state: AppState)
        ensures
            state@ == (AppV {
                counter: 0,
                curr_window: 0,
                windows: Seq::<WinV>::empty(),
                exit: false,
            }),
            state@.wf(),
    {
        let state = AppState { counter: 0, curr_window: 0, window_states: Vec::new(), exit: false };
        proof {
            assert(wins_view(state.window_states@) =~= Seq::<WinV>::empty());
        }
        state
    }

    /// Whether a command has asked the application to exit.
    pub fn requests_exit(&self) -> (r: bool)
        ensures
            r == self@.exit,
    {
        self.exit
    }

    /// The focus index.
    pub fn curr_win_index(&self) -> (r: usize)
        ensures
            r as int == self@.curr_window,
    {
        self.curr_window
    }

    /// The ordered window collection.
    #[allow(non_snake_case)]
    pub fn windowStates(&self) -> (r: &WinStates)
        ensures
            wins_view(r@) == self@.windows,
    {
        &self.window_states
    }

    /// Appends a window at the far end; focus does not move.
    pub fn push_win(&mut self, win: WindowState)
        ensures
            final(self)@ == (AppV { windows: old(self)@.windows.push(win@), ..old(self)@ }),
    {
        let ghost pre = self.window_states@;
        self.window_states.push(Box::new(win));
        proof {
            assert(wins_view(self.window_states@) =~= wins_view(pre).push(win@));
        }
    }

    /// Whether the focused window is pulling keys into its accumulator.
    pub fn is_pulling_keys(&self) -> (r: bool)
        requires
            self@.wf(),
        ensures
            r == (self@.windows.len() > 0 && self@.windows[self@.curr_window].using_keyboard()),
    {
        if self.window_states.len() == 0 {
            return false;
        }
        let b: &Box<WindowState> = &self.window_states[self.curr_window];
        (**b).using_keyboard()
    }

    /// The focused window, when the focus index stands on one.
    pub fn curr_win(&self) -> (r: Option<&WindowState>)
        ensures
            (match r {
                Some(w) => 0 <= self@.curr_window < self@.windows.len() && w@
                    == self@.windows[self@.curr_window],
                None => !(0 <= self@.curr_window < self@.windows.len()),
            }),
    {
        if self.curr_window < self.window_states.len() {
            let b: &Box<WindowState> = &self.window_states[self.curr_window];
            Some(&**b)
        } else {
            None
        }
    }

    /// Moves focus one window to the left, wrapping to the far end.
    pub fn focus_left(&mut self)
        ensures
            final(self)@ == (AppV {
                curr_window: focus_left_spec(old(self)@.curr_window, old(self)@.windows.len() as int),
                ..old(self)@
            }),
    {
        if self.window_states.len() == 0 {
            return ;
        }
        if self.curr_window == 0 {
            self.curr_window = self.window_states.len() - 1;
            return ;
        }
        self.curr_window = self.curr_window - 1;
    }

    /// Moves focus one window to the right, wrapping to the start.
    pub fn focus_right(&mut self)
        ensures
            final(self)@ == (AppV {
                curr_window: focus_right_spec(
                    old(self)@.curr_window,
                    old(self)@.windows.len() as int,
                ),
                ..old(self)@
            }),
    {
        if self.window_states.len() == 0 {
            return ;
        }
        if self.curr_window >= self.window_states.len() - 1 {
            self.curr_window = 0;
            return ;
        }
        self.curr_window = self.curr_window + 1;
    }

    /// Whether the focused window is pulling keys into its accumulator.
    pub fn is_using_keyboard(&mut self) -> (r: bool)
        requires
            old(self)@.wf(),
        ensures
            *final(self) == *old(self),
            r == (old(self)@.windows.len() > 0
                && old(self)@.windows[old(self)@.curr_window].using_keyboard()),
    {
        if self.window_states.len() == 0 {
            return false;
        }
        let b: &Box<WindowState> = &self.window_states[self.curr_window];
        (**b).using_keyboard()
    }

    /// Closes the window at `index`: it leaves the collection and the focus
    /// moves one to the left, wrapping.
    pub fn remove_win(&mut self, index: usize)
        requires
            old(self)@.wf(),
            index < old(self)@.windows.len(),
        ensures
            final(self)@ == remove_win_spec(old(self)@, index as int),
            final(self)@.wf(),
    {
        let ghost pre = self.window_states@;
        let b: &mut Box<WindowState> = &mut self.window_states[self.curr_window];
        (**b).handle_quit();
        proof {
            assert(wins_view(self.window_states@) =~= wins_view(pre));
        }
        self.window_states.remove(index);
        proof {
            assert(wins_view(self.window_states@) =~= wins_view(pre).remove(index as int));
        }
        self.focus_left();
    }

    fn inc(&mut self)
        requires
            old(self)@.counter < i32::MAX,
        ensures
            final(self)@ == (AppV { counter: old(self)@.counter + 1, ..old(self)@ }),
    {
        self.counter = self.counter + 1;
    }

    /// Hands one key press to the focused window and passes on whatever it
    /// asks for; with no windows nothing happens.
    pub fn handle_input(&mut self, key: Key) -> (r: InputOutcome)
        requires
            old(self)@.wf(),
        ensures
            final(self)@.wf(),
            old(self)@.windows.len() == 0 ==> final(self)@ == old(self)@ && r@ == OutcomeV::Quiet,
            old(self)@.windows.len() > 0 ==> ({
                let step = win_step(old(self)@.windows[old(self)@.curr_window], key);
                final(self)@ == (AppV {
                    windows: old(self)@.windows.update(old(self)@.curr_window, step.0),
                    ..old(self)@
                }) && r@ == step.1
            }),
    {
        if self.window_states.len() == 0 {
            proof {
                assert(final(self)@ =~= old(self)@);
            }
            return InputOutcome::Quiet;
        }
        let ghost pre = self.window_states@;
        let idx = self.curr_window;
        let b: &mut Box<WindowState> = &mut self.window_states[idx];
        let r = (**b).handle_input(key);
        proof {
            assert(wins_view(self.window_states@) =~= wins_view(pre).update(
                idx as int,
                win_step(wins_view(pre)[idx as int], key).0,
            ));
        }
        r
    }

    /// Hands a freshly read listing to the focused window, if it is a
    /// browser; anything else is left as it is.
    pub fn refresh_curr_dirs(&mut self, dirs: Vec<String>)
        requires
            old(self)@.wf(),
        ensures
            final(self)@.wf(),
            old(self)@.windows.len() == 0 ==> final(self)@ == old(self)@,
            old(self)@.windows.len() > 0 ==> final(self)@ == (AppV {
                windows: old(self)@.windows.update(
                    old(self)@.curr_window,
                    win_refresh(old(self)@.windows[old(self)@.curr_window], dirs.deep_view()),
                ),
                ..old(self)@
            }),
    {
        if self.window_states.len() == 0 {
            proof {
                assert(final(self)@ =~= old(self)@);
            }
            return ;
        }
        let ghost pre = self.window_states@;
        let idx = self.curr_window;
        let b: &mut Box<WindowState> = &mut self.window_states[idx];
        (**b).refresh_dirs(dirs);
        proof {
            assert(wins_view(self.window_states@) =~= wins_view(pre).update(
                idx as int,
                win_refresh(wins_view(pre)[idx as int], dirs.deep_view()),
            ));
        }
    }

    /// Applies a command sequence in order (see [`apply_command`]).  An
    /// `Explorer` command opens a browser on `explorer_dir` with
    /// `explorer_dirs` as its listing, both read by the caller beforehand.
    pub fn evaluate_commands(
        &mut self,
        commands: Vec<Command>,
        explorer_dir: &String,
        explorer_dirs: &Vec<String>,
    )
        requires
            old(self)@.wf(),
        ensures
            final(self)@ == apply_commands(
                old(self)@,
                cmds(commands@),
                explorer_dir@,
                explorer_dirs.deep_view(),
            ),
            final(self)@.wf(),
    {
        let ghost cs = cmds(commands@);
        let ghost dir = explorer_dir@;
        let ghost listing = explorer_dirs.deep_view();
        let n = commands.len();
        proof {
            assert(cs.subrange(0, 0) =~= Seq::<Cmd>::empty());
        }
        for i in 0..n
            invariant
                n == commands.len(),
                cs == cmds(commands@),
                dir == explorer_dir@,
                listing == explorer_dirs.deep_view(),
                self@ == apply_commands(old(self)@, cs.subrange(0, i as int), dir, listing),
                self@.wf(),
        {
            let ghost pre = self@;
            proof {
                assert(cs.subrange(0, i + 1).drop_last() =~= cs.subrange(0, i as int));
                assert(cs.subrange(0, i + 1).last() == cs[i as int]);
                lemma_apply_command_wf(pre, cs[i as int], dir, listing);
            }
            match &commands[i] {
                Command::Win(contents) => {
                    let w = WindowState::new(
                        String::from_str("empty"),
                        Element::Empty(Box::new(Empty::new(contents.clone()))),
                    );
                    self.push_win(w);
                },
                Command::Quit() => {
                    if self.window_states.len() > 0 {
                        let index = self.curr_win_index();
                        self.remove_win(index);
                    }
                },
                Command::Explorer() => {
                    let fm = FileManager::new(explorer_dir.clone(), clone_dirs(explorer_dirs));
                    let w = WindowState::new(
                        String::from_str("balls"),
                        Element::FileManager(Box::new(fm)),
                    );
                    self.push_win(w);
                },
                Command::CopyWin() => {
                    if self.curr_window < self.window_states.len() {
                        let b: &Box<WindowState> = &self.window_states[self.curr_window];
                        let w = (**b).clone();
                        self.push_win(w);
                    }
                },
                Command::FocusLeft() => {
                    self.focus_left();
                },
                Command::FocusRight() => {
                    self.focus_right();
                },
                Command::RequestExit() => {
                    self.exit = true;
                },
                _ => {},
            }
            proof {
                assert(self@ == apply_command(pre, cs[i as int], dir, listing));
            }
        }
        proof {
            assert(cs.subrange(0, n as int) =~= cs);
        }
    }
}

} // verus!
