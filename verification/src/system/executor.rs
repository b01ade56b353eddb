//! Reading a command line before it is launched.

use crate::text::chars_of;
use crate::text::find;
use crate::text::find_char;
use crate::text::occurs;
use crate::text::occurs_at;
use crate::text::starts_with;
use crate::text::text_is;
use vstd::prelude::*;

verus! {

/// A command line in the two parts that the launcher takes.
#[derive(Debug, Clone, PartialEq, Eq)]
pub struct CommandLine {
    pub file: String,
    pub params: String,
}

/// A short name for a place or a program.
#[derive(Debug, Clone, Copy, PartialEq, Eq, Structural)]
pub enum Alias {
    Documents,
    Pictures,
    Videos,
    Music,
    Downloads,
    Desktop,
    Terminal,
}

/// An input read as an alias: the alias that its first word names, if it
/// names one, and what follows the first space.
#[derive(Debug, Clone, PartialEq, Eq)]
pub struct AliasUse {
    pub alias: Option<Alias>,
    pub rest: Option<String>,
}

/// Whether the text is taken for an address rather than a file's path.
pub open spec fn is_url_text(s: Seq<char>) -> bool {
    occurs_at(s, "http"@, 0) || occurs_at(s, "www"@, 0) || occurs(s, "://"@)
}

/// Where the first space stands, if there is one.
pub open spec fn first_space(s: Seq<char>) -> Option<int> {
    s.index_of_first(' ')
}

/// Where the input is cut into file and parameters: at its first space,
/// unless it is an address or the path of something that exists.
pub open spec fn cut_point(s: Seq<char>, url: bool, path_exists: bool) -> Option<int> {
    if url || path_exists {
        None
    } else {
        first_space(s)
    }
}

/// The file before quoting and the parameters.
pub open spec fn cut(s: Seq<char>, url: bool, path_exists: bool) -> (Seq<char>, Seq<char>) {
    match cut_point(s, url, path_exists) {
        Some(i) => (s.subrange(0, i), s.subrange(i + 1, s.len() as int)),
        None => (s, Seq::empty()),
    }
}

/// Whether the file must be put in quotes: it stands alone, holds a space,
/// and does not begin with a quote.
pub open spec fn needs_quotes(file: Seq<char>, params: Seq<char>) -> bool {
    params.len() == 0 && file.contains(' ') && !(file.len() > 0 && file[0] == '"')
}

/// The file as the launcher gets it.
pub open spec fn launched_file(s: Seq<char>, url: bool, path_exists: bool) -> Seq<char> {
    let (file, params) = cut(s, url, path_exists);
    if needs_quotes(file, params) {
        "\""@ + file + "\""@
    } else {
        file
    }
}

/// The alias that a lower-case word names.
pub open spec fn alias_named(word: Seq<char>) -> Option<Alias> {
    if word == "docs"@ || word == "documents"@ {
        Some(Alias::Documents)
    } else if word == "pictures"@ || word == "pics"@ {
        Some(Alias::Pictures)
    } else if word == "videos"@ || word == "vids"@ {
        Some(Alias::Videos)
    } else if word == "music"@ {
        Some(Alias::Music)
    } else if word == "downloads"@ {
        Some(Alias::Downloads)
    } else if word == "desktop"@ {
        Some(Alias::Desktop)
    } else if word == "terminal"@ || word == "term"@ {
        Some(Alias::Terminal)
    } else {
        None
    }
}

/// The first word of an input: everything before its first space.
pub open spec fn first_word(s: Seq<char>) -> Seq<char> {
    match first_space(s) {
        Some(i) => s.subrange(0, i),
        None => s,
    }
}

/// What follows the first space of an input, if there is one.
pub open spec fn after_first_word(s: Seq<char>) -> Option<Seq<char>> {
    match first_space(s) {
        Some(i) => Some(s.subrange(i + 1, s.len() as int)),
        None => None,
    }
}

/// The lower-case form of a text, as the standard library makes it.
pub uninterp spec fn lowercase_of(s: Seq<char>) -> Seq<char>;

/// `str::to_lowercase` of the standard library: the result is a function of
/// the text alone, and is given the name `lowercase_of`.
#[verifier::external_body]
fn to_lowercase(s: &str) -> (lower: String)
    ensures
        lower@ == lowercase_of(s@),
{
    s.to_lowercase()
}

/// Where the first space of `chars` stands.
fn space_in(chars: &Vec<char>) -> (at: Option<usize>)
    ensures
        at is Some <==> first_space(chars@) is Some,
        at is Some ==> first_space(chars@) == Some(at->0 as int) && at->0 < chars@.len(),
{
    let at = find_char(chars, ' ');
    proof {
        chars@.index_of_first_ensures(' ');
        match at {
            Some(i) => {
                let first = chars@.index_of_first(' ')->0;
                if first < i {
                    assert(chars@[first] != ' ');
                } else if first > i {
                    assert(chars@[i as int] == ' ');
                }
            },
            None => {},
        }
    }
    at
}

/// Whether the input is taken for an address: it begins with "http" or
/// "www", or holds "://".
pub fn is_url(input: &str) -> (url: bool)
    ensures
        url == is_url_text(input@),
{
    let chars = chars_of(input);
    starts_with(&chars, &chars_of("http")) || starts_with(&chars, &chars_of("www")) || find(
        &chars,
        &chars_of("://"),
    ).is_some()
}

/// Cuts an input into the file to launch and its parameters. `path_exists`
/// says whether the whole input is the path of something that exists, and
/// is then launched whole.
pub fn split_command(input: &str, path_exists: bool) -> (line: CommandLine)
    ensures
        line.file@ == launched_file(input@, is_url_text(input@), path_exists),
        line.params@ == cut(input@, is_url_text(input@), path_exists).1,
{
    let url = is_url(input);
    let chars = chars_of(input);
    let n = chars.len();
    let at = if url || path_exists {
        None
    } else {
        space_in(&chars)
    };
    let (file, params) = match at {
        Some(i) => (input.substring_char(0, i).to_owned(), input.substring_char(i + 1, n).to_owned()),
        None => (input.to_owned(), String::new()),
    };
    let file_chars = chars_of(file.as_str());
    let quote = params.as_str().is_empty() && find_char(&file_chars, ' ').is_some() && !(
    file_chars.len() > 0 && file_chars[0] == '"');
    if quote {
        CommandLine { file: String::from_str("\"").concat(file.as_str()).concat("\""), params }
    } else {
        CommandLine { file, params }
    }
}

/// The alias that a lower-case word names.
pub fn alias_of(word: &str) -> (alias: Option<Alias>)
    ensures
        alias == alias_named(word@),
{
    let w = chars_of(word);
    if text_is(&w, "docs") || text_is(&w, "documents") {
        Some(Alias::Documents)
    } else if text_is(&w, "pictures") || text_is(&w, "pics") {
        Some(Alias::Pictures)
    } else if text_is(&w, "videos") || text_is(&w, "vids") {
        Some(Alias::Videos)
    } else if text_is(&w, "music") {
        Some(Alias::Music)
    } else if text_is(&w, "downloads") {
        Some(Alias::Downloads)
    } else if text_is(&w, "desktop") {
        Some(Alias::Desktop)
    } else if text_is(&w, "terminal") || text_is(&w, "term") {
        Some(Alias::Terminal)
    } else {
        None
    }
}

/// Reads an input as an alias: its first word, whatever its case, may name
/// one, and what follows the first space goes along.
pub fn expand_aliases_and_env(input: &str) -> (found: AliasUse)
    ensures
        found.alias == alias_named(lowercase_of(first_word(input@))),
        match after_first_word(input@) {
            Some(r) => found.rest is Some && found.rest->0@ == r,
            None => found.rest is None,
        },
{
    let chars = chars_of(input);
    let n = chars.len();
    match space_in(&chars) {
        Some(i) => {
            let word = input.substring_char(0, i);
            AliasUse {
                alias: alias_of(to_lowercase(word).as_str()),
                rest: Some(input.substring_char(i + 1, n).to_owned()),
            }
        },
        None => AliasUse { alias: alias_of(to_lowercase(input).as_str()), rest: None },
    }
}

/// The program that an alias stands for by itself; the other aliases stand
/// for folders that the system knows.
pub fn fixed_target(alias: Alias) -> (program: Option<String>)
    ensures
        alias == Alias::Terminal <==> program is Some,
        program is Some ==> program->0@ == "wt"@,
{
    match alias {
        Alias::Terminal => Some(String::from_str("wt")),
        _ => None,
    }
}

/// The input with its alias replaced by `target`: the target, a space, and
/// what followed the alias; or the target alone.
pub fn apply_alias(target: &str, rest: &Option<String>) -> (out: String)
    ensures
        out@ == match *rest {
            Some(r) => target@ + " "@ + r@,
            None => target@,
        },
{
    match rest {
        Some(r) => target.to_owned().concat(" ").concat(r.as_str()),
        None => target.to_owned(),
    }
}

/// Whether the text may hold names of environment variables to expand.
pub fn needs_env_expansion(s: &str) -> (yes: bool)
    ensures
        yes == s@.contains('%'),
{
    find_char(&chars_of(s), '%').is_some()
}

/// How many units of the buffer hold the expanded text, from the count
/// that the system's expansion returned: the count includes the final zero,
/// and a count of zero or beyond the buffer means that nothing was expanded.
pub fn expanded_len(count: u32, buffer_len: u32) -> (units: Option<u32>)
    ensures
        units == if 0 < count <= buffer_len {
            Some((count - 1) as u32)
        } else {
            None
        },
{
    if 0 < count && count <= buffer_len {
        Some(count - 1)
    } else {
        None
    }
}

/// Whether a launch succeeded, from the launcher's code: codes above 32
/// report success.
pub fn launch_succeeded(code: isize) -> (ok: bool)
    ensures
        ok == (code > 32),
{
    code > 32
}

} // verus!
