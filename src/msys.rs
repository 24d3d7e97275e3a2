//! Telling an MSYS or Cygwin pseudo-terminal from a console on Windows. Such
//! a terminal is a named pipe whose name reads like
//! `\msys-XXXXXXXXXXXXXXXX-pty0-to-master`; raw mode cannot be set on it
//! through console modes.
use vstd::prelude::*;

verus! {

/// `pattern` occurs in `text` at some position.
pub open spec fn occurs_in(pattern: Seq<char>, text: Seq<char>) -> bool {
    exists|i: int|
        0 <= i && i + pattern.len() <= text.len() && #[trigger] text.subrange(i, i + pattern.len())
            == pattern
}

pub open spec fn msys_marker() -> Seq<char> {
    seq!['m', 's', 'y', 's', '-']
}

pub open spec fn cygwin_marker() -> Seq<char> {
    seq!['c', 'y', 'g', 'w', 'i', 'n', '-']
}

pub open spec fn pty_marker() -> Seq<char> {
    seq!['-', 'p', 't', 'y']
}

/// A pipe name of an MSYS or Cygwin pseudo-terminal: it holds `msys-` or
/// `cygwin-`, and `-pty`.
pub open spec fn is_msys_pty_name_spec(name: Seq<char>) -> bool {
    (occurs_in(msys_marker(), name) || occurs_in(cygwin_marker(), name)) && occurs_in(
        pty_marker(),
        name,
    )
}

fn matches_at(text: &Vec<char>, pattern: &Vec<char>, start: usize) -> (r: bool)
    requires
        start + pattern@.len() <= text@.len(),
    ensures
        r == (text@.subrange(start as int, start + pattern@.len()) == pattern@),
{
    let n: usize = text.len();
    let mut k: usize = 0;
    while k < pattern.len()
        invariant
            n == text@.len(),
            k <= pattern@.len(),
            start + pattern@.len() <= text@.len(),
            forall|j: int| 0 <= j < k ==> text@[start + j] == pattern@[j],
        decreases pattern@.len() - k,
    {
        if text[start + k] != pattern[k] {
            assert(text@.subrange(start as int, start + pattern@.len())[k as int]
                != pattern@[k as int]);
            return false;
        }
        k = k + 1;
    }
    assert(text@.subrange(start as int, start + pattern@.len()) =~= pattern@);
    true
}

fn occurs(pattern: &Vec<char>, text: &Vec<char>) -> (r: bool)
    ensures
        r == occurs_in(pattern@, text@),
{
    if pattern.len() > text.len() {
        return false;
    }
    let last = text.len() - pattern.len();
    let mut i: usize = 0;
    loop
        invariant
            last == text@.len() - pattern@.len(),
            i <= last,
            forall|j: int|
                0 <= j < i ==> #[trigger] text@.subrange(j, j + pattern@.len()) != pattern@,
        decreases last - i,
    {
        if matches_at(text, pattern, i) {
            return true;
        }
        if i == last {
            return false;
        }
        i = i + 1;
    }
}

/// Whether a pipe's name is that of an MSYS or Cygwin pseudo-terminal.
pub fn is_msys_pty_name(name: &Vec<char>) -> (r: bool)
    ensures
        r == is_msys_pty_name_spec(name@),
{
    let msys = vec!['m', 's', 'y', 's', '-'];
    let cygwin = vec!['c', 'y', 'g', 'w', 'i', 'n', '-'];
    let pty = vec!['-', 'p', 't', 'y'];
    assert(msys@ == msys_marker());
    assert(cygwin@ == cygwin_marker());
    assert(pty@ == pty_marker());
    (occurs(&msys, name) || occurs(&cygwin, name)) && occurs(&pty, name)
}

} // verus!
