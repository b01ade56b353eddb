//! Small operations on texts, each proved against its description.

use vstd::prelude::*;

verus! {

/// Whether `c` is white space, as Unicode defines it.
pub open spec fn is_white_space(c: char) -> bool {
    let v = c as u32;
    ||| 0x09 <= v <= 0x0D
    ||| v == 0x20
    ||| v == 0x85
    ||| v == 0xA0
    ||| v == 0x1680
    ||| 0x2000 <= v <= 0x200A
    ||| v == 0x2028
    ||| v == 0x2029
    ||| v == 0x202F
    ||| v == 0x205F
    ||| v == 0x3000
}

/// The UTF-16 code units of one character: itself inside the basic plane, a
/// surrogate pair above it.
pub open spec fn utf16_of_char(c: char) -> Seq<u16> {
    let v = c as u32;
    if v < 0x10000 {
        seq![v as u16]
    } else {
        seq![(0xD800 + (v - 0x10000) / 0x400) as u16, (0xDC00 + (v - 0x10000) % 0x400) as u16]
    }
}

/// The UTF-16 code units of a text, one or two units per character.
pub open spec fn utf16_units(s: Seq<char>) -> Seq<u16>
    decreases s.len(),
{
    if s.len() == 0 {
        Seq::empty()
    } else {
        utf16_units(s.drop_last()) + utf16_of_char(s.last())
    }
}

/// Whether `needle` stands in `s` at position `i`.
pub open spec fn occurs_at(s: Seq<char>, needle: Seq<char>, i: int) -> bool {
    0 <= i && i + needle.len() <= s.len() && s.subrange(i, i + needle.len()) == needle
}

/// Whether `needle` stands somewhere in `s`.
pub open spec fn occurs(s: Seq<char>, needle: Seq<char>) -> bool {
    exists|i: int| occurs_at(s, needle, i)
}

/// The ASCII lower-case form of a character; other characters are their own.
pub open spec fn ascii_lower(c: char) -> char {
    if 'A' <= c && c <= 'Z' {
        ((c as u8) + 32) as char
    } else {
        c
    }
}

/// Whether two texts are the same but for the case of their ASCII letters.
pub open spec fn same_ignoring_ascii_case(a: Seq<char>, b: Seq<char>) -> bool {
    a.len() == b.len() && forall|i: int|
        0 <= i < a.len() ==> ascii_lower(#[trigger] a[i]) == ascii_lower(b[i])
}

/// Where the text proper begins: the first position that holds no white
/// space, or the length if there is none.
pub open spec fn trim_start_at(s: Seq<char>) -> int
    decreases s.len(),
{
    if s.len() == 0 || !is_white_space(s[0]) {
        0
    } else {
        1 + trim_start_at(s.drop_first())
    }
}

/// Where the text proper ends: just after the last position that holds no
/// white space, or 0 if there is none.
pub open spec fn trim_end_at(s: Seq<char>) -> int
    decreases s.len(),
{
    if s.len() == 0 || !is_white_space(s.last()) {
        s.len() as int
    } else {
        trim_end_at(s.drop_last())
    }
}

/// The text without the white space that leads and trails it.
pub open spec fn trimmed(s: Seq<char>) -> Seq<char> {
    if trim_start_at(s) >= trim_end_at(s) {
        Seq::empty()
    } else {
        s.subrange(trim_start_at(s), trim_end_at(s))
    }
}

/// Whether `c` is white space.
pub fn char_is_white_space(c: char) -> (yes: bool)
    ensures
        yes == is_white_space(c),
{
    let v: u32 = c as u32;
    (0x09 <= v && v <= 0x0D) || v == 0x20 || v == 0x85 || v == 0xA0 || v == 0x1680 || (0x2000 <= v
        && v <= 0x200A) || v == 0x2028 || v == 0x2029 || v == 0x202F || v == 0x205F || v == 0x3000
}

/// The characters of a text.
pub fn chars_of(s: &str) -> (chars: Vec<char>)
    ensures
        chars@ == s@,
{
    let mut chars: Vec<char> = Vec::new();
    for c in it: s.chars()
        invariant
            chars@ == it.seq().take(it.index()),
            it.seq() == s@,
    {
        chars.push(c);
    }
    chars
}

/// Encodes a text as UTF-16.
pub fn encode_utf16(s: &str) -> (units: Vec<u16>)
    ensures
        units@ == utf16_units(s@),
{
    let chars = chars_of(s);
    let n = chars.len();
    let mut units: Vec<u16> = Vec::new();
    let mut i: usize = 0;
    while i < n
        invariant
            n == chars@.len(),
            chars@ == s@,
            i <= n,
            units@ == utf16_units(s@.take(i as int)),
        decreases n - i,
    {
        let v: u32 = chars[i] as u32;
        proof {
            assert(s@.take(i + 1).drop_last() =~= s@.take(i as int));
            assert(s@.take(i + 1).last() == chars@[i as int]);
        }
        if v < 0x10000 {
            units.push(v as u16);
        } else {
            let w: u32 = v - 0x10000;
            units.push((0xD800 + w / 0x400) as u16);
            units.push((0xDC00 + w % 0x400) as u16);
        }
        i = i + 1;
    }
    proof {
        assert(s@.take(n as int) =~= s@);
    }
    units
}

/// Whether `needle` stands in `s` at position `i`.
pub fn matches_at(s: &Vec<char>, needle: &Vec<char>, i: usize) -> (yes: bool)
    ensures
        yes == occurs_at(s@, needle@, i as int),
{
    let n = needle.len();
    if i > s.len() || n > s.len() - i {
        return false;
    }
    let len = s.len();
    let mut k: usize = 0;
    while k < n
        invariant
            n == needle@.len(),
            len == s@.len(),
            i + n <= len,
            k <= n,
            forall|j: int| 0 <= j < k ==> s@[i + j] == needle@[j],
        decreases n - k,
    {
        if s[i + k] != needle[k] {
            proof {
                assert(s@.subrange(i as int, i + n)[k as int] == s@[i + k]);
            }
            return false;
        }
        k = k + 1;
    }
    proof {
        assert(s@.subrange(i as int, i + n) =~= needle@);
    }
    true
}

/// Whether `s` begins with `prefix`.
pub fn starts_with(s: &Vec<char>, prefix: &Vec<char>) -> (yes: bool)
    ensures
        yes == occurs_at(s@, prefix@, 0),
{
    matches_at(s, prefix, 0)
}

/// Where `needle` first stands in `s`, if it stands there at all.
pub fn find(s: &Vec<char>, needle: &Vec<char>) -> (at: Option<usize>)
    ensures
        at is Some <==> occurs(s@, needle@),
        at is Some ==> occurs_at(s@, needle@, at->0 as int) && forall|j: int|
            0 <= j < at->0 ==> !occurs_at(s@, needle@, j),
{
    let n = s.len();
    let mut i: usize = 0;
    while i < n
        invariant
            n == s@.len(),
            i <= n,
            forall|j: int| 0 <= j < i ==> !occurs_at(s@, needle@, j),
        decreases n - i,
    {
        if matches_at(s, needle, i) {
            return Some(i);
        }
        i = i + 1;
    }
    if matches_at(s, needle, n) {
        return Some(n);
    }
    proof {
        if occurs(s@, needle@) {
            let j = choose|j: int| occurs_at(s@, needle@, j);
            assert(!occurs_at(s@, needle@, j));
        }
    }
    None
}

/// Where the character `c` first stands in `s`, if it stands there at all.
pub fn find_char(s: &Vec<char>, c: char) -> (at: Option<usize>)
    ensures
        at is Some <==> s@.contains(c),
        at is Some ==> at->0 < s@.len() && s@[at->0 as int] == c && forall|j: int|
            0 <= j < at->0 ==> s@[j] != c,
{
    let n = s.len();
    let mut i: usize = 0;
    while i < n
        invariant
            n == s@.len(),
            i <= n,
            forall|j: int| 0 <= j < i ==> s@[j] != c,
        decreases n - i,
    {
        if s[i] == c {
            return Some(i);
        }
        i = i + 1;
    }
    None
}

/// The ASCII lower-case form of a character.
pub fn to_ascii_lower(c: char) -> (lower: char)
    ensures
        lower == ascii_lower(c),
{
    if 'A' <= c && c <= 'Z' {
        ((c as u8) + 32) as char
    } else {
        c
    }
}

/// Whether two texts are the same but for the case of their ASCII letters.
pub fn eq_ignore_ascii_case(a: &str, b: &str) -> (same: bool)
    ensures
        same == same_ignoring_ascii_case(a@, b@),
{
    let x = chars_of(a);
    let y = chars_of(b);
    if x.len() != y.len() {
        return false;
    }
    let n = x.len();
    let mut i: usize = 0;
    while i < n
        invariant
            n == x@.len(),
            n == y@.len(),
            x@ == a@,
            y@ == b@,
            i <= n,
            forall|j: int| 0 <= j < i ==> ascii_lower(#[trigger] x@[j]) == ascii_lower(y@[j]),
        decreases n - i,
    {
        if to_ascii_lower(x[i]) != to_ascii_lower(y[i]) {
            return false;
        }
        i = i + 1;
    }
    true
}

/// The text without the white space that leads and trails it.
pub fn trim(s: &str) -> (out: String)
    ensures
        out@ == trimmed(s@),
{
    let chars = chars_of(s);
    let n = chars.len();
    let mut from: usize = 0;
    proof {
        assert(chars@.skip(0) =~= chars@);
        assert(chars@.take(n as int) =~= chars@);
    }
    while from < n && char_is_white_space(chars[from])
        invariant
            n == chars@.len(),
            from <= n,
            trim_start_at(chars@) == from + trim_start_at(chars@.skip(from as int)),
        decreases n - from,
    {
        proof {
            let rest = chars@.skip(from as int);
            assert(rest[0] == chars@[from as int]);
            assert(rest.drop_first() =~= chars@.skip(from + 1));
        }
        from = from + 1;
    }
    proof {
        let rest = chars@.skip(from as int);
        if from < n {
            assert(rest[0] == chars@[from as int]);
        }
        assert(trim_start_at(rest) == 0);
    }
    let mut to: usize = n;
    while to > 0 && char_is_white_space(chars[to - 1])
        invariant
            n == chars@.len(),
            to <= n,
            trim_end_at(chars@) == trim_end_at(chars@.take(to as int)),
        decreases to,
    {
        proof {
            let head = chars@.take(to as int);
            assert(head.last() == chars@[to - 1]);
            assert(head.drop_last() =~= chars@.take(to - 1));
        }
        to = to - 1;
    }
    proof {
        let head = chars@.take(to as int);
        if to > 0 {
            assert(head.last() == chars@[to - 1]);
        }
        assert(trim_end_at(head) == to);
        assert(chars@.skip(0) =~= chars@);
        assert(chars@.take(n as int) =~= chars@);
    }
    if from >= to {
        String::new()
    } else {
        s.substring_char(from, to).to_owned()
    }
}

/// Whether the characters are those of the text `word`.
pub fn text_is(chars: &Vec<char>, word: &str) -> (same: bool)
    ensures
        same == (chars@ == word@),
{
    let w = chars_of(word);
    if chars.len() != w.len() {
        return false;
    }
    let same = matches_at(chars, &w, 0);
    proof {
        assert(chars@.subrange(0, chars@.len() as int) =~= chars@);
    }
    same
}

} // verus!
