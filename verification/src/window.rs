//! One window of the application: a name and the element it shows.

use vstd::prelude::*;

use crate::key::Key;
use crate::empty::Empty;
use crate::empty::EmptyV;
use crate::empty::empty_step;
use crate::filemanager::FileManager;
use crate::filemanager::FmV;
use crate::filemanager::fm_step;
use crate::filemanager::InputOutcome;
use crate::filemanager::OutcomeV;

verus! {

/// What a window shows: a directory browser, a plain content window, or
/// nothing at all.
#[derive(Debug)]
pub enum Element {
    FileManager(Box<FileManager>),
    Empty(Box<Empty>),
    Nothing,
}

/// The mathematical model of an [`Element`].
#[verifier::ext_equal]
pub enum ElemV {
    FileManager(FmV),
    Empty(EmptyV),
    Nothing,
}

impl View for Element {
    type V = ElemV;

    open spec fn view(&self) -> ElemV {
        match self {
            Element::FileManager(f) => ElemV::FileManager((**f)@),
            Element::Empty(e) => ElemV::Empty((**e)@),
            Element::Nothing => ElemV::Nothing,
        }
    }
}

impl From<Empty> for Element {
    fn from(empty: Empty) -> (r: Element) {
        Element::Empty(Box::new(empty))
    }
}

impl vstd::std_specs::convert::FromSpecImpl<Empty> for Element {
    open spec fn obeys_from_spec() -> bool {
        true
    }

    open spec fn from_spec(empty: Empty) -> Element {
        Element::Empty(Box::new(empty))
    }
}

impl From<FileManager> for Element {
    fn from(fm: FileManager) -> (r: Element) {
        Element::FileManager(Box::new(fm))
    }
}

impl vstd::std_specs::convert::FromSpecImpl<FileManager> for Element {
    open spec fn obeys_from_spec() -> bool {
        true
    }

    open spec fn from_spec(fm: FileManager) -> Element {
        Element::FileManager(Box::new(fm))
    }
}

impl Clone for Element {
    /// The copy has the same model as the original.
    fn clone(&self) -> (r: Element)
        ensures
            r@ == self@,
    {
        match self {
            Element::FileManager(f) => Element::FileManager(Box::new((**f).clone())),
            Element::Empty(e) => Element::Empty(Box::new((**e).clone())),
            Element::Nothing => Element::Nothing,
        }
    }
}

/// One window: its name and the element it shows.
#[derive(Debug)]
pub struct WindowState {
    window_name: String,
    elements: Element,
}

/// The mathematical model of a [`WindowState`].
#[verifier::ext_equal]
pub struct WinV {
    pub name: Seq<char>,
    pub element: ElemV,
}

impl View for WindowState {
    type V = WinV;

    closed spec fn view(&self) -> WinV {
        WinV { name: self.window_name@, element: self.elements@ }
    }
}

impl WinV {
    /// Whether the window's element is in command-entry mode.
    pub open spec fn using_keyboard(self) -> bool {
        match self.element {
            ElemV::FileManager(f) => f.is_searching,
            ElemV::Empty(e) => e.is_searching,
            ElemV::Nothing => false,
        }
    }

    /// The element's command-entry accumulator, or nothing.
    pub open spec fn pulling_info(self) -> Seq<char> {
        match self.element {
            ElemV::FileManager(f) => f.curr_regex,
            ElemV::Empty(e) => e.curr_regex,
            ElemV::Nothing => Seq::empty(),
        }
    }
}

/// A window with a fresh directory listing: only a browser window takes it;
/// any other element stays as it is.
pub open spec fn win_refresh(w: WinV, listing: Seq<Seq<char>>) -> WinV {
    match w.element {
        ElemV::FileManager(f) => WinV {
            element: ElemV::FileManager(FmV { dirs: listing, ..f }),
            ..w
        },
        _ => w,
    }
}

/// How one key press changes a window: it is handed to the element the
/// window shows, and whatever that element asks for is passed on.
pub open spec fn win_step(w: WinV, key: Key) -> (WinV, OutcomeV) {
    match w.element {
        ElemV::FileManager(f) => {
            let r = fm_step(f, key);
            (WinV { element: ElemV::FileManager(r.0), ..w }, r.1)
        },
        ElemV::Empty(e) => {
            let r = empty_step(e, key);
            (
                WinV { element: ElemV::Empty(r.0), ..w },
                match r.1 {
                    Some(cs) => OutcomeV::Commands(cs),
                    None => OutcomeV::Quiet,
                },
            )
        },
        ElemV::Nothing => (w, OutcomeV::Quiet),
    }
}

impl WindowState {
    pub fn new(name: String, elements: Element) -> (w: WindowState)
        ensures
            w@ == (WinV { name: name@, element: elements@ }),
    {
        WindowState { window_name: name, elements }
    }

    pub fn name(&self) -> (r: String)
        ensures
            r@ == self@.name,
    {
        self.window_name.clone()
    }

    pub fn elements(&self) -> (r: &Element)
        ensures
            r@ == self@.element,
    {
        &self.elements
    }

    /// Whether the window's element is pulling keys into its accumulator.
    pub fn using_keyboard(&self) -> (r: bool)
        ensures
            r == self@.using_keyboard(),
    {
        match &self.elements {
            Element::FileManager(f) => f.searching(),
            Element::Empty(e) => e.searching(),
            Element::Nothing => false,
        }
    }

    /// The element's command-entry accumulator, or the empty string.
    pub fn pulling_info(&self) -> (r: String)
        ensures
            r@ == self@.pulling_info(),
    {
        match &self.elements {
            Element::FileManager(f) => f.pulling_info(),
            Element::Empty(e) => e.pulling_info(),
            Element::Nothing => String::new(),
        }
    }

    /// A window keeps no state of its own to tear down when it closes.
    pub fn handle_quit(&mut self)
        ensures
            *final(self) == *old(self),
    {
    }

    pub fn is_using_keyboard(&mut self) -> (r: bool)
        ensures
            *final(self) == *old(self),
            r == old(self)@.using_keyboard(),
    {
        match &self.elements {
            Element::FileManager(f) => f.searching(),
            Element::Empty(e) => e.searching(),
            Element::Nothing => false,
        }
    }

    /// Hands a freshly read directory listing to the element, if it is a
    /// browser (see [`win_refresh`]).
    pub fn refresh_dirs(&mut self, dirs: Vec<String>)
        ensures
            final(self)@ == win_refresh(old(self)@, dirs.deep_view()),
    {
        match &mut self.elements {
            Element::FileManager(f) => f.set_dirs(dirs),
            _ => {},
        }
    }

    /// Hands one key press to the element the window shows (see
    /// [`win_step`]).
    pub fn handle_input(&mut self, key: Key) -> (r: InputOutcome)
        ensures
            final(self)@ == win_step(old(self)@, key).0,
            r@ == win_step(old(self)@, key).1,
    {
        match &mut self.elements {
            Element::FileManager(f) => f.handle_input(key),
            Element::Empty(e) => {
                match e.handle_input(key) {
                    Some(v) => InputOutcome::Commands(v),
                    None => InputOutcome::Quiet,
                }
            },
            Element::Nothing => InputOutcome::Quiet,
        }
    }
}

impl Clone for WindowState {
    /// The copy has the same model as the original.
    fn clone(&self) -> (r: WindowState)
        ensures
            r@ == self@,
    {
        WindowState { window_name: self.window_name.clone(), elements: self.elements.clone() }
    }
}

} // verus!
