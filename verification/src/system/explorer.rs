//! Finding the overlay's own processes among those that run.

use crate::text::eq_ignore_ascii_case;
use crate::text::same_ignoring_ascii_case;
use vstd::prelude::*;

verus! {

/// How many units a zero-terminated name takes in its buffer: those before
/// the first zero, or all of them if there is no zero.
pub open spec fn name_len(units: Seq<u16>) -> int
    decreases units.len(),
{
    if units.len() == 0 || units[0] == 0 {
        0
    } else {
        1 + name_len(units.drop_first())
    }
}

/// How many units of `buffer` hold the name of a process's executable.
pub fn exe_name_len(buffer: &[u16]) -> (len: usize)
    ensures
        len == name_len(buffer@),
        len <= buffer@.len(),
        forall|i: int| 0 <= i < len ==> buffer@[i] != 0,
        len < buffer@.len() ==> buffer@[len as int] == 0,
{
    let n = buffer.len();
    let mut i: usize = 0;
    proof {
        assert(buffer@.skip(0) =~= buffer@);
    }
    while i < n && buffer[i] != 0
        invariant
            n == buffer@.len(),
            i <= n,
            forall|j: int| 0 <= j < i ==> buffer@[j] != 0,
            name_len(buffer@) == i + name_len(buffer@.skip(i as int)),
        decreases n - i,
    {
        proof {
            let rest = buffer@.skip(i as int);
            assert(rest[0] == buffer@[i as int]);
            assert(rest.drop_first() =~= buffer@.skip(i + 1));
        }
        i = i + 1;
    }
    proof {
        let rest = buffer@.skip(i as int);
        if i < n {
            assert(rest[0] == buffer@[i as int]);
        }
    }
    i
}

/// Whether a process whose executable is called `exe_name` is one of those
/// called `name`: names of executables differ by the case of letters only.
pub fn process_is_named(exe_name: &str, name: &str) -> (yes: bool)
    ensures
        yes == same_ignoring_ascii_case(exe_name@, name@),
{
    eq_ignore_ascii_case(exe_name, name)
}

} // verus!
