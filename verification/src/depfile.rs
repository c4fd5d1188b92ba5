//! Reading the dependency files rustc writes next to a build artifact: a
//! Makefile rule `target: dep dep ...`, possibly continued over several
//! lines, with `\ ` and `\#` escaping a space or `#` inside a path.
use vstd::prelude::*;
use vstd::utf8::{
    decode_utf8, encode_utf8, encode_utf8_decode_utf8, encode_utf8_valid_utf8, is_char_boundary,
    is_char_boundary_iff_not_is_continuation_byte, is_char_boundary_start_end_of_seq,
};
use crate::text::{chars_vec, push_char};

verus! {

/// Characters with the Unicode `White_Space` property (what `char::is_whitespace` tests).
pub open spec fn is_whitespace_char(c: char) -> bool {
    ||| '\t' <= c && c <= '\r'
    ||| c == ' '
    ||| c == '\u{85}'
    ||| c == '\u{a0}'
    ||| c == '\u{1680}'
    ||| '\u{2000}' <= c && c <= '\u{200a}'
    ||| c == '\u{2028}'
    ||| c == '\u{2029}'
    ||| c == '\u{202f}'
    ||| c == '\u{205f}'
    ||| c == '\u{3000}'
}

pub fn is_whitespace(c: char) -> (b: bool)
    ensures
        b == is_whitespace_char(c),
{
    ('\t' <= c && c <= '\r') || c == ' ' || c == '\u{85}' || c == '\u{a0}' || c == '\u{1680}' || (
    '\u{2000}' <= c && c <= '\u{200a}') || c == '\u{2028}' || c == '\u{2029}' || c == '\u{202f}'
        || c == '\u{205f}' || c == '\u{3000}'
}

/// `s` with every occurrence of `pat` from position `i` on removed, matching
/// left to right without overlaps (what `str::replace(pat, "")` does).
pub open spec fn remove_from(s: Seq<char>, i: int, pat: Seq<char>) -> Seq<char>
    decreases s.len() - i,
{
    if i >= s.len() || i < 0 {
        Seq::empty()
    } else if pat.len() > 0 && i + pat.len() <= s.len() && s.subrange(i, i + pat.len()) == pat {
        remove_from(s, i + pat.len(), pat)
    } else {
        seq![s[i]] + remove_from(s, i + 1, pat)
    }
}

/// A backslash, carriage return and line feed: a line continuation in a
/// file written on Windows.
pub open spec fn crlf_continuation() -> Seq<char> {
    seq!['\\', '\r', '\n']
}

/// A backslash and line feed: a line continuation.
pub open spec fn lf_continuation() -> Seq<char> {
    seq!['\\', '\n']
}

/// The text with its line continuations joined.
pub open spec fn logical_text(contents: Seq<char>) -> Seq<char> {
    remove_from(remove_from(contents, 0, crlf_continuation()), 0, lf_continuation())
}

/// Whether `pat` occurs in `s` at position `i`.
fn occurs_at(s: &Vec<char>, i: usize, pat: &[char]) -> (b: bool)
    requires
        i <= s@.len(),
    ensures
        b == (i + pat@.len() <= s@.len() && s@.subrange(i as int, i + pat@.len()) == pat@),
{
    if pat.len() > s.len() - i {
        return false;
    }
    let n = s.len();
    let mut k: usize = 0;
    while k < pat.len()
        invariant
            n == s@.len(),
            i + pat@.len() <= s@.len(),
            k <= pat@.len(),
            forall|j: int| 0 <= j < k ==> s@[i + j] == pat@[j],
        decreases pat@.len() - k,
    {
        assert(i + k < s@.len());
        if s[i + k] != pat[k] {
            assert(s@.subrange(i as int, i + pat@.len())[k as int] != pat@[k as int]);
            return false;
        }
        k += 1;
    }
    assert(s@.subrange(i as int, i + pat@.len()) =~= pat@);
    true
}

/// Removes every occurrence of `pat` (not empty) from `s`.
fn remove_all(s: &Vec<char>, pat: &[char]) -> (out: Vec<char>)
    requires
        pat@.len() > 0,
    ensures
        out@ == remove_from(s@, 0, pat@),
{
    let mut out: Vec<char> = Vec::new();
    let mut i: usize = 0;
    while i < s.len()
        invariant
            pat@.len() > 0,
            i <= s@.len(),
            out@ + remove_from(s@, i as int, pat@) == remove_from(s@, 0, pat@),
        decreases s@.len() - i,
    {
        if occurs_at(s, i, pat) {
            i += pat.len();
        } else {
            let ghost before = out@;
            out.push(s[i]);
            assert(out@ + remove_from(s@, i + 1, pat@) =~= before + (seq![s@[i as int]] + remove_from(s@, i + 1, pat@)));
            i += 1;
        }
    }
    assert(remove_from(s@, i as int, pat@) =~= Seq::<char>::empty());
    assert(out@ + Seq::<char>::empty() =~= out@);
    out
}

/// A byte that ends the rule's target: a space, tab, carriage return or line feed.
pub open spec fn ends_target(b: u8) -> bool {
    b == 0x20 || b == 0x09 || b == 0x0d || b == 0x0a
}

/// The backslash, `\`.
pub open spec fn backslash() -> u8 {
    0x5c
}

/// The colon, `:`.
pub open spec fn colon() -> u8 {
    0x3a
}

/// Whether the byte at `i` is escaped: the one before it is a backslash
/// that is not itself escaped.
pub open spec fn escaped(s: Seq<u8>, i: int) -> bool
    decreases i,
{
    if i <= 0 {
        false
    } else {
        s[i - 1] == backslash() && !escaped(s, i - 1)
    }
}

/// An unescaped colon followed by the end of the text or a target-ending byte.
pub open spec fn is_rule_separator(s: Seq<u8>, i: int) -> bool {
    &&& 0 <= i < s.len()
    &&& s[i] == colon()
    &&& !escaped(s, i)
    &&& (i + 1 == s.len() || ends_target(s[i + 1]))
}

/// The position of the first rule separator, if any.
pub open spec fn spec_rule_separator(s: Seq<u8>) -> Option<int> {
    if exists|i: int| is_rule_separator(s, i) {
        Some(choose|i: int| is_rule_separator(s, i) && forall|j: int| 0 <= j < i ==> !is_rule_separator(s, j))
    } else {
        None
    }
}

/// Finds the colon that separates a rule's target from its dependencies,
/// as a byte offset into `text`.
pub fn find_rule_separator(text: &str) -> (r: Option<usize>)
    ensures
        match r {
            Some(i) => is_rule_separator(encode_utf8(text@), i as int) && forall|j: int|
                0 <= j < i ==> !is_rule_separator(encode_utf8(text@), j),
            None => forall|j: int| !is_rule_separator(encode_utf8(text@), j),
        },
{
    let bytes = text.as_bytes();
    let mut is_escaped = false;
    let mut index: usize = 0;
    while index < bytes.len()
        invariant
            bytes@ == encode_utf8(text@),
            index <= bytes@.len(),
            is_escaped == escaped(bytes@, index as int),
            forall|j: int| 0 <= j < index ==> !is_rule_separator(bytes@, j),
        decreases bytes@.len() - index,
    {
        let b = bytes[index];
        if is_escaped {
            is_escaped = false;
        } else if b == 0x5cu8 {
            is_escaped = true;
        } else if b == 0x3au8 && (index + 1 == bytes.len() || {
            let next = bytes[index + 1];
            next == 0x20u8 || next == 0x09u8 || next == 0x0du8 || next == 0x0au8
        }) {
            return Some(index);
        }
        index += 1;
    }
    None
}

/// The words of a rule's dependency list from position `i` on, `cur` being the
/// word read so far: whitespace separates words, and a backslash before a
/// space or `#` makes that character part of the word.
pub open spec fn split_from(s: Seq<char>, i: int, cur: Seq<char>) -> Seq<Seq<char>>
    decreases s.len() - i,
{
    if i >= s.len() || i < 0 {
        word_if_any(cur)
    } else if s[i] == '\\' && i + 1 < s.len() && (s[i + 1] == ' ' || s[i + 1] == '#') {
        split_from(s, i + 2, cur.push(s[i + 1]))
    } else if is_whitespace_char(s[i]) {
        word_if_any(cur) + split_from(s, i + 1, Seq::empty())
    } else {
        split_from(s, i + 1, cur.push(s[i]))
    }
}

pub open spec fn word_if_any(cur: Seq<char>) -> Seq<Seq<char>> {
    if cur.len() > 0 {
        seq![cur]
    } else {
        Seq::empty()
    }
}

/// Why a dependency file could not be read.
#[derive(Clone, Copy, Debug, PartialEq, Eq, Structural)]
pub enum DepfileError {
    /// No colon separates a target from its dependencies.
    NoTargetSeparator,
}

/// The dependencies a rule lists: the line continuations are joined, then
/// the words of the text after the first rule separator are the paths.
pub open spec fn spec_dependencies(contents: Seq<char>) -> Result<Seq<Seq<char>>, DepfileError> {
    let bytes = encode_utf8(logical_text(contents));
    match spec_rule_separator(bytes) {
        None => Err(DepfileError::NoTargetSeparator),
        Some(colon) => Ok(
            split_from(decode_utf8(bytes.subrange(colon + 1, bytes.len() as int)), 0, Seq::empty()),
        ),
    }
}

pub open spec fn strings_view(v: Seq<String>) -> Seq<Seq<char>> {
    v.map_values(|s: String| s@)
}

/// The string made of `chars`.
fn string_of(chars: &Vec<char>) -> (s: String)
    ensures
        s@ == chars@,
{
    let mut s = String::new();
    let mut i: usize = 0;
    while i < chars.len()
        invariant
            i <= chars@.len(),
            s@ == chars@.take(i as int),
        decreases chars@.len() - i,
    {
        push_char(&mut s, chars[i]);
        i += 1;
        assert(s@ =~= chars@.take(i as int));
    }
    assert(chars@.take(i as int) =~= chars@);
    s
}

/// Right after a rule separator the text may be split: the separator is a
/// single byte and what follows it (if anything) starts a character.
proof fn lemma_boundary_after_separator(chars: Seq<char>, colon: int)
    requires
        is_rule_separator(encode_utf8(chars), colon),
    ensures
        is_char_boundary(encode_utf8(chars), colon + 1),
{
    let bytes = encode_utf8(chars);
    encode_utf8_valid_utf8(chars);
    if colon + 1 == bytes.len() {
        is_char_boundary_start_end_of_seq(bytes);
    } else {
        is_char_boundary_iff_not_is_continuation_byte(bytes, colon + 1);
    }
}

/// Reads the dependency paths out of a Makefile-style dependency file.
pub fn parse_makefile_dependencies(contents: &str) -> (r: Result<Vec<String>, DepfileError>)
    ensures
        match r {
            Ok(paths) => spec_dependencies(contents@) == Ok::<Seq<Seq<char>>, DepfileError>(strings_view(paths@)),
            Err(e) => spec_dependencies(contents@) == Err::<Seq<Seq<char>>, DepfileError>(e),
        },
{
    let text = chars_vec(contents);
    let crlf: Vec<char> = vec!['\\', '\r', '\n'];
    let lf: Vec<char> = vec!['\\', '\n'];
    assert(crlf@ =~= crlf_continuation());
    assert(lf@ =~= lf_continuation());
    let joined = remove_all(&text, crlf.as_slice());
    let logical = string_of(&remove_all(&joined, lf.as_slice()));
    let ghost bytes = encode_utf8(logical@);
    let byte_len = logical.as_str().as_bytes().len();
    let colon = match find_rule_separator(logical.as_str()) {
        Some(colon) => colon,
        None => {
            assert(!exists|i: int| is_rule_separator(bytes, i));
            return Err(DepfileError::NoTargetSeparator);
        },
    };
    proof {
        assert(is_rule_separator(bytes, colon as int));
        let c = choose|i: int| is_rule_separator(bytes, i) && forall|j: int| 0 <= j < i ==> !is_rule_separator(bytes, j);
        assert(c == colon as int) by {
            if c < colon as int {
            } else if c > colon as int {
                assert(!is_rule_separator(bytes, colon as int));
            }
        }
        lemma_boundary_after_separator(logical@, colon as int);
        assert(colon < byte_len);
    }
    let (_, tail) = logical.as_str().split_at(colon + 1);
    let rest = chars_vec(tail);
    proof {
        encode_utf8_decode_utf8(tail@);
        assert(rest@ == decode_utf8(bytes.subrange(colon + 1, bytes.len() as int)));
    }
    let mut paths: Vec<String> = Vec::new();
    let mut current = String::new();
    let mut i: usize = 0;
    while i < rest.len()
        invariant
            i <= rest@.len() + 1,
            strings_view(paths@) + split_from(rest@, i as int, current@) == split_from(rest@, 0, Seq::empty()),
        decreases rest@.len() + 1 - i,
    {
        let c = rest[i];
        let ghost before = strings_view(paths@);
        let ghost cur_old = current@;
        if c == '\\' && i + 1 < rest.len() && (rest[i + 1] == ' ' || rest[i + 1] == '#') {
            push_char(&mut current, rest[i + 1]);
            i += 2;
        } else if is_whitespace(c) {
            if !current.as_str().is_empty() {
                let word = current;
                current = String::new();
                paths.push(word);
                assert(strings_view(paths@) =~= before + seq![word@]);
            } else {
                current = String::new();
            }
            assert(strings_view(paths@) =~= before + word_if_any(cur_old));
            assert(strings_view(paths@) + split_from(rest@, i + 1, current@) =~= before + (
            word_if_any(cur_old) + split_from(rest@, i + 1, Seq::empty())));
            i += 1;
        } else {
            push_char(&mut current, c);
            i += 1;
        }
    }
    let ghost before = strings_view(paths@);
    if !current.as_str().is_empty() {
        let word = current;
        paths.push(word);
        assert(strings_view(paths@) =~= before + seq![word@]);
    } else {
        assert(before + Seq::<Seq<char>>::empty() =~= before);
    }
    Ok(paths)
}

/// What the build helper does with one path a dependency file lists.
#[derive(Clone, Copy, Debug, PartialEq, Eq, Structural)]
pub enum DependencyAction {
    /// Another dependency file: read it too.
    Follow,
    /// A source file: rebuild the guest when it changes.
    Watch,
    /// Nothing there: leave it out.
    Ignore,
}

/// An existing `.d` file is itself a dependency file and is followed; any
/// other existing file is watched; a path that does not exist is ignored.
pub open spec fn spec_dependency_action(is_depfile: bool, exists: bool) -> DependencyAction {
    if !exists {
        DependencyAction::Ignore
    } else if is_depfile {
        DependencyAction::Follow
    } else {
        DependencyAction::Watch
    }
}

/// Decides what to do with a listed path, given whether its extension is
/// `d` and whether it exists.
pub fn dependency_action(is_depfile: bool, exists: bool) -> (action: DependencyAction)
    ensures
        action == spec_dependency_action(is_depfile, exists),
{
    if !exists {
        DependencyAction::Ignore
    } else if is_depfile {
        DependencyAction::Follow
    } else {
        DependencyAction::Watch
    }
}

} // verus!
