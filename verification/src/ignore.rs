//! The ignore predicate: which file names never trigger a compile run.

use vstd::prelude::*;
use vstd::string::*;

verus! {

/// A file name is ignorable when it is hidden (it starts with a dot, as
/// editor swap files do) or is a backup copy (it ends with a tilde). The
/// empty name is not ignorable.
pub open spec fn ignorable(name: Seq<char>) -> bool {
    name.len() > 0 && (name[0] == '.' || name[name.len() - 1] == '~')
}

/// Whether a change to the file called `name` is to be ignored. The verdict
/// depends on the name alone.
pub fn filename(name: &str) -> (verdict: bool)
    ensures
        verdict == ignorable(name@),
{
    let n: usize = name.unicode_len();
    if n == 0 {
        false
    } else {
        name.get_char(0) == '.' || name.get_char(n - 1) == '~'
    }
}

/// The verdict has no hidden state. Two names made of the same characters
/// are both ignorable or both relevant.
pub proof fn lemma_same_name_same_verdict(first: &str, second: &str)
    requires
        first@ == second@,
    ensures
        ignorable(first@) == ignorable(second@),
{
}

} // verus!
