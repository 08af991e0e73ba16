//! The key events the input logic decides on.

use vstd::prelude::*;

verus! {

/// One key press, reduced to what the window logic reads: the arrow, edit
/// and escape keys it dispatches on, a printable character, or anything
/// else.  The surrounding terminal layer translates its own event type into
/// this one before handing it in.
#[derive(Debug, PartialEq, Eq, Clone, Copy)]
pub enum Key {
    Up,
    Down,
    Backspace,
    Enter,
    Esc,
    Char(char),
    Other,
}

} // verus!
