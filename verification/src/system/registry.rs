//! The texts that the overlay keeps in the system's registry.
//!
//! The system holds a list of letters whose shortcuts with the Windows key
//! it leaves alone. The overlay puts the letter R on that list when it is
//! installed, so that Win+R is its own, and takes it off again when it is
//! removed.

use crate::text::chars_of;
use crate::text::find;
use crate::text::find_char;
use crate::text::occurs;
use crate::text::occurs_at;
use vstd::prelude::*;

verus! {

/// What to do with the list of disabled hotkeys.
#[derive(Debug, Clone, PartialEq, Eq)]
pub enum HotkeyEdit {
    /// Leave the value as it is.
    Keep,
    /// Remove the value: the list would be empty.
    Delete,
    /// Store this list.
    Store(String),
}

/// The list without the letter R.
pub open spec fn without_r(list: Seq<char>) -> Seq<char> {
    list.filter(|c: char| c != 'R')
}

/// The text without the quotes that lead and trail it.
pub open spec fn unquoted(s: Seq<char>) -> Seq<char>
    decreases s.len(),
{
    if s.len() > 0 && s[0] == '"' {
        unquoted(s.drop_first())
    } else if s.len() > 0 && s.last() == '"' {
        unquoted(s.drop_last())
    } else {
        s
    }
}

/// The path of the executable in a start-up entry: the entry up to and
/// with its first ".exe", or the whole entry if it holds none, without the
/// quotes around it.
pub open spec fn exe_path_of(entry: Seq<char>) -> Seq<char> {
    if occurs(entry, ".exe"@) {
        let i = choose|i: int|
            occurs_at(entry, ".exe"@, i) && forall|j: int|
                0 <= j < i ==> !occurs_at(entry, ".exe"@, j);
        unquoted(entry.subrange(0, i + 4))
    } else {
        unquoted(entry)
    }
}

/// How many 16-bit units of text a registry value of `size` bytes holds,
/// its final zero left out.
pub fn value_units(size: u32) -> (units: u32)
    ensures
        units == if size / 2 >= 1 {
            size / 2 - 1
        } else {
            0
        },
{
    let n = size / 2;
    if n >= 1 {
        n - 1
    } else {
        0
    }
}

/// The list with the letter R on it: `Keep` if it is there already, else
/// the list with R added at its end.
pub fn disable_hotkey(list: &str) -> (edit: HotkeyEdit)
    ensures
        list@.contains('R') ==> edit is Keep,
        !list@.contains('R') ==> edit is Store && edit->Store_0@ == list@ + "R"@,
{
    if find_char(&chars_of(list), 'R').is_some() {
        HotkeyEdit::Keep
    } else {
        HotkeyEdit::Store(list.to_owned().concat("R"))
    }
}

/// The list with the letter R off it: `Keep` if it is not there, `Delete`
/// if nothing else is, else the list without every R.
pub fn enable_hotkey(list: &str) -> (edit: HotkeyEdit)
    ensures
        !list@.contains('R') ==> edit is Keep,
        list@.contains('R') && without_r(list@).len() == 0 ==> edit is Delete,
        list@.contains('R') && without_r(list@).len() > 0 ==> edit is Store && edit->Store_0@
            == without_r(list@),
{
    let chars = chars_of(list);
    if find_char(&chars, 'R').is_none() {
        return HotkeyEdit::Keep;
    }
    let n = chars.len();
    let mut kept = String::new();
    let mut i: usize = 0;
    proof {
        reveal(Seq::filter);
        assert(list@.take(0) =~= Seq::<char>::empty());
    }
    while i < n
        invariant
            n == list@.len(),
            chars@ == list@,
            i <= n,
            kept@ == without_r(list@.take(i as int)),
        decreases n - i,
    {
        proof {
            assert(list@.take(i + 1) =~= list@.take(i as int).push(list@[i as int]));
            list@.take(i as int).lemma_filter_push(list@[i as int], |c: char| c != 'R');
        }
        if chars[i] != 'R' {
            let ghost before = kept@;
            kept.append(list.substring_char(i, i + 1));
            proof {
                assert(list@.subrange(i as int, i + 1) =~= seq![list@[i as int]]);
                assert(kept@ =~= before.push(list@[i as int]));
            }
        }
        i = i + 1;
    }
    proof {
        assert(list@.take(n as int) =~= list@);
    }
    if kept.as_str().is_empty() {
        HotkeyEdit::Delete
    } else {
        HotkeyEdit::Store(kept)
    }
}

/// The text without the quotes that lead and trail it.
pub fn strip_quotes(s: &str) -> (out: String)
    ensures
        out@ == unquoted(s@),
{
    let chars = chars_of(s);
    let n = chars.len();
    let mut from: usize = 0;
    proof {
        assert(chars@.subrange(0, n as int) =~= chars@);
    }
    while from < n && chars[from] == '"'
        invariant
            n == chars@.len(),
            from <= n,
            unquoted(chars@) == unquoted(chars@.subrange(from as int, n as int)),
        decreases n - from,
    {
        proof {
            let rest = chars@.subrange(from as int, n as int);
            assert(rest[0] == chars@[from as int]);
            assert(rest.drop_first() =~= chars@.subrange(from + 1, n as int));
        }
        from = from + 1;
    }
    let mut to: usize = n;
    while to > from && chars[to - 1] == '"'
        invariant
            n == chars@.len(),
            from <= to <= n,
            from < n ==> chars@[from as int] != '"',
            unquoted(chars@) == unquoted(chars@.subrange(from as int, to as int)),
        decreases to,
    {
        proof {
            let rest = chars@.subrange(from as int, to as int);
            assert(rest[0] == chars@[from as int]);
            assert(rest.last() == chars@[to - 1]);
            assert(rest.drop_last() =~= chars@.subrange(from as int, to - 1));
        }
        to = to - 1;
    }
    proof {
        let rest = chars@.subrange(from as int, to as int);
        if to > from {
            assert(rest[0] == chars@[from as int]);
            assert(rest.last() == chars@[to - 1]);
        }
        assert(unquoted(rest) == rest);
    }
    s.substring_char(from, to).to_owned()
}

/// The path of the executable in a start-up entry.
pub fn installed_exe_path(entry: &str) -> (path: String)
    ensures
        path@ == exe_path_of(entry@),
{
    let chars = chars_of(entry);
    let n = chars.len();
    match find(&chars, &chars_of(".exe")) {
        Some(i) => {
            proof {
                reveal_strlit(".exe");
                let k = choose|k: int|
                    occurs_at(entry@, ".exe"@, k) && forall|j: int|
                        0 <= j < k ==> !occurs_at(entry@, ".exe"@, j);
                assert(occurs_at(entry@, ".exe"@, i as int) && forall|j: int|
                    0 <= j < i ==> !occurs_at(entry@, ".exe"@, j));
                if k < i {
                    assert(!occurs_at(entry@, ".exe"@, k));
                } else if k > i {
                    assert(!occurs_at(entry@, ".exe"@, i as int));
                }
                assert(k == i);
                assert(".exe"@.len() == 4);
                assert(i + 4 <= n);
            }
            strip_quotes(entry.substring_char(0, i + 4))
        },
        None => strip_quotes(entry),
    }
}

} // verus!
