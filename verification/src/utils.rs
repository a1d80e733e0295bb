//! Text helpers shared by the runtime: comparing names, building symbol
//! names and normalising path separators.

use vstd::prelude::*;

verus! {

/// `String::push` appends the character to the end of the string.
pub assume_specification[ String::push ](s: &mut String, ch: char)
    ensures
        final(s)@ == old(s)@.push(ch),
;

/// Reads `std::path::MAIN_SEPARATOR`, the character that the platform this
/// code was built for puts between path components. Nothing is claimed of it:
/// it differs from platform to platform.
#[verifier::external_body]
fn main_separator() -> (separator: char) {
    std::path::MAIN_SEPARATOR
}

/// The characters of `text`, in order.
pub fn chars_of(text: &str) -> (chars: Vec<char>)
    ensures
        chars@ == text@,
{
    let mut chars: Vec<char> = Vec::new();
    for c in it: text.chars()
        invariant
            it.seq() == text@,
            chars@ == text@.take(it.index() as int),
    {
        chars.push(c);
    }
    chars
}

/// Tells whether two texts hold the same characters.
pub fn same_text(left: &str, right: &str) -> (same: bool)
    ensures
        same == (left@ == right@),
{
    let a = chars_of(left);
    let b = chars_of(right);
    if a.len() != b.len() {
        return false;
    }
    let mut i: usize = 0;
    while i < a.len()
        invariant
            a@ == left@,
            b@ == right@,
            a.len() == b.len(),
            i <= a.len(),
            a@.take(i as int) == b@.take(i as int),
        decreases a.len() - i,
    {
        if a[i] != b[i] {
            return false;
        }
        i += 1;
    }
    assert(a@.take(a.len() as int) == a@);
    assert(b@.take(b.len() as int) == b@);
    true
}

/// Tells whether `text` ends with the characters of `suffix`.
pub fn ends_with(text: &str, suffix: &str) -> (found: bool)
    ensures
        found == suffix@.is_suffix_of(text@),
{
    let whole = chars_of(text);
    let tail = chars_of(suffix);
    if tail.len() > whole.len() {
        return false;
    }
    let start = whole.len() - tail.len();
    let ghost rest = whole@.subrange(start as int, whole.len() as int);
    let mut i: usize = 0;
    while i < tail.len()
        invariant
            whole@ == text@,
            tail@ == suffix@,
            start + tail.len() == whole.len(),
            rest == whole@.subrange(start as int, whole.len() as int),
            i <= tail.len(),
            tail@.take(i as int) == rest.take(i as int),
        decreases tail.len() - i,
    {
        if tail[i] != whole[start + i] {
            assert(suffix@[i as int] != text@.subrange(
                (text@.len() - suffix@.len()) as int,
                text@.len() as int,
            )[i as int]);
            return false;
        }
        i += 1;
    }
    assert(rest.take(tail.len() as int) == rest);
    true
}

/// True for the two characters that archives and hosts use between path
/// components.
pub open spec fn is_path_separator(c: char) -> bool {
    c == '/' || c == '\\'
}

/// `path` with every separator, of either kind, replaced by `separator`.
pub open spec fn normalized(path: Seq<char>, separator: char) -> Seq<char> {
    path.map_values(|c: char| if is_path_separator(c) { separator } else { c })
}

/// Rewrites `path` so that `separator` stands wherever a slash or a backslash
/// stood; every other character is kept.
pub fn normalize_path_with(path: &str, separator: char) -> (result: String)
    ensures
        result@ == normalized(path@, separator),
{
    let mut result = String::new();
    for c in it: path.chars()
        invariant
            it.seq() == path@,
            result@ == normalized(path@.take(it.index() as int), separator),
    {
        if c == '\\' || c == '/' {
            result.push(separator);
        } else {
            result.push(c);
        }
    }
    result
}

/// Rewrites `path` with the separator of the platform this code was built
/// for: a backslash where that is the platform's separator, a slash
/// everywhere else.
pub fn normalize_path(path: &str) -> (result: String)
    ensures
        result@ == normalized(path@, '/') || result@ == normalized(path@, '\\'),
{
    let separator = if main_separator() == '\\' {
        '\\'
    } else {
        '/'
    };
    normalize_path_with(path, separator)
}

/// `head` followed by `tail`.
pub fn concat_text(head: &str, tail: &str) -> (joined: String)
    ensures
        joined@ == head@ + tail@,
{
    let mut joined = String::from_str(head);
    joined.append(tail);
    joined
}

} // verus!
