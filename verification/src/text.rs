//! Small text helpers shared by the window logic: appending and removing
//! single characters of an accumulator, and counting lines.

use vstd::prelude::*;

use vstd::string::StrSliceExecFns;
use vstd::string::StringExecFns;

verus! {

/// Relies on String::push: appends exactly the one given character.
#[verifier::external_body]
pub fn push_char(s: &mut String, c: char)
    ensures
        final(s)@ == old(s)@.push(c),
{
    s.push(c);
}

/// A text with its last character removed; an empty text stays empty.
pub open spec fn pop_last(s: Seq<char>) -> Seq<char> {
    if s.len() > 0 {
        s.drop_last()
    } else {
        s
    }
}

/// Removes the last character, if any.
pub fn drop_last_char(s: &String) -> (r: String)
    ensures
        r@ == pop_last(s@),
{
    let n = s.as_str().unicode_len();
    if n > 0 {
        let r = String::from_str(s.as_str().substring_char(0, n - 1));
        proof {
            assert(s@.subrange(0, s@.len() - 1) =~= s@.drop_last());
        }
        r
    } else {
        s.clone()
    }
}

/// The number of newline characters at or after position `i`.
pub open spec fn count_newlines(s: Seq<char>, i: int) -> int
    decreases s.len() - i,
{
    if 0 <= i < s.len() {
        (if s[i] == '\n' {
            1int
        } else {
            0int
        }) + count_newlines(s, i + 1)
    } else {
        0
    }
}

/// The number of lines a text splits into: one more than its newlines.
pub open spec fn line_count(s: Seq<char>) -> int {
    count_newlines(s, 0) + 1
}

/// Counts the newline characters of a text.
pub fn newline_count(s: &String) -> (n: usize)
    ensures
        n as int == count_newlines(s@, 0),
{
    let len = s.as_str().unicode_len();
    let mut n: usize = 0;
    let mut i: usize = 0;
    while i < len
        invariant
            i <= len,
            len as int == s@.len(),
            n <= i,
            n as int + count_newlines(s@, i as int) == count_newlines(s@, 0),
        decreases len - i,
    {
        let c = s.as_str().get_char(i);
        if c == '\n' {
            n = n + 1;
        }
        i = i + 1;
    }
    n
}

} // verus!
