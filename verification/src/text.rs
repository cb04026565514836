//! What the library needs of text: the meaning of the std functions that cut
//! and join strings, and the few verified helpers built on them.

use vstd::prelude::*;

verus! {

/// Whether `c` has the Unicode property `White_Space`.
pub open spec fn is_whitespace(c: char) -> bool {
    let u = c as u32;
    ||| 0x09 <= u <= 0x0D
    ||| u == 0x20
    ||| u == 0x85
    ||| u == 0xA0
    ||| u == 0x1680
    ||| 0x2000 <= u <= 0x200A
    ||| u == 0x2028
    ||| u == 0x2029
    ||| u == 0x202F
    ||| u == 0x205F
    ||| u == 0x3000
}

/// `s` without the whitespace it begins with.
pub open spec fn trim_start(s: Seq<char>) -> Seq<char>
    decreases s.len(),
{
    if s.len() > 0 && is_whitespace(s[0]) {
        trim_start(s.drop_first())
    } else {
        s
    }
}

/// `s` without the whitespace it ends with.
pub open spec fn trim_end(s: Seq<char>) -> Seq<char>
    decreases s.len(),
{
    if s.len() > 0 && is_whitespace(s.last()) {
        trim_end(s.drop_last())
    } else {
        s
    }
}

/// `s` without the whitespace at either end.
pub open spec fn trimmed(s: Seq<char>) -> Seq<char> {
    trim_end(trim_start(s))
}

/// A line without the carriage return that stood before its line feed.
pub open spec fn strip_cr(line: Seq<char>) -> Seq<char> {
    if line.len() > 0 && line.last() == '\r' {
        line.drop_last()
    } else {
        line
    }
}

/// The lines of `line + s`, where `line` is the beginning of a line that has
/// been read already.
pub open spec fn lines_from(s: Seq<char>, line: Seq<char>) -> Seq<Seq<char>>
    decreases s.len(),
{
    if s.len() == 0 {
        if line.len() == 0 {
            Seq::empty()
        } else {
            seq![line]
        }
    } else if s[0] == '\n' {
        seq![strip_cr(line)] + lines_from(s.drop_first(), Seq::empty())
    } else {
        lines_from(s.drop_first(), line.push(s[0]))
    }
}

/// The lines of `s`: what stands between line feeds, without the line feed
/// and without a carriage return just before it. A last line needs no line
/// feed, and keeps a carriage return that it ends with.
pub open spec fn lines_of(s: Seq<char>) -> Seq<Seq<char>> {
    lines_from(s, Seq::empty())
}

/// The words of `word + s`, where `word` is the beginning of a word that has
/// been read already.
pub open spec fn words_from(s: Seq<char>, word: Seq<char>) -> Seq<Seq<char>>
    decreases s.len(),
{
    if s.len() == 0 {
        if word.len() == 0 {
            Seq::empty()
        } else {
            seq![word]
        }
    } else if is_whitespace(s[0]) {
        if word.len() == 0 {
            words_from(s.drop_first(), Seq::empty())
        } else {
            seq![word] + words_from(s.drop_first(), Seq::empty())
        }
    } else {
        words_from(s.drop_first(), word.push(s[0]))
    }
}

/// The words of `s`: its longest stretches without whitespace.
pub open spec fn words_of(s: Seq<char>) -> Seq<Seq<char>> {
    words_from(s, Seq::empty())
}

/// `s` with each occurrence of `from` replaced by `to`, the occurrences
/// taken from left to right and none overlapping another.
pub open spec fn replaced(s: Seq<char>, from: Seq<char>, to: Seq<char>) -> Seq<char>
    decreases s.len(),
{
    if from.len() == 0 || s.len() < from.len() {
        s
    } else if s.take(from.len() as int) == from {
        to + replaced(s.skip(from.len() as int), from, to)
    } else {
        seq![s[0]] + replaced(s.drop_first(), from, to)
    }
}

/// The digit that stands for `d`, which is below ten.
pub open spec fn digit(d: nat) -> char {
    (('0' as u8) + d) as u8 as char
}

/// `n` written in decimal, without leading zeros.
pub open spec fn decimal(n: nat) -> Seq<char>
    decreases n,
{
    if n < 10 {
        seq![digit(n)]
    } else {
        decimal(n / 10).push(digit(n % 10))
    }
}

/// How many bytes `s` takes in UTF-8, which is what `len` counts.
pub open spec fn utf8_len(s: Seq<char>) -> nat {
    vstd::utf8::encode_utf8(s).len()
}

/// The texts that string slices stand for.
pub open spec fn texts(slices: Seq<&str>) -> Seq<Seq<char>> {
    slices.map_values(|s: &str| s@)
}

/// The lines of `text`.
///
/// Trusted: calls `str::lines` of std and collects what it yields. std
/// documents that lines end at a line feed or at a carriage return followed
/// by a line feed, that neither is part of a line, that the last line needs
/// no line ending, and that a bare carriage return at the end is kept.
#[verifier::external_body]
pub(crate) fn lines(text: &str) -> (res: Vec<&str>)
    ensures
        texts(res@) == lines_of(text@),
{
    text.lines().collect()
}

/// The words of `text`.
///
/// Trusted: calls `str::split_whitespace` of std and collects what it
/// yields. std documents that it yields the non-empty stretches between
/// whitespace, whitespace being what has the Unicode property `White_Space`.
#[verifier::external_body]
pub(crate) fn split_whitespace(text: &str) -> (res: Vec<&str>)
    ensures
        texts(res@) == words_of(text@),
{
    text.split_whitespace().collect()
}

/// `text` without the whitespace at either end.
///
/// Trusted: calls `str::trim` of std, which documents that it removes
/// leading and trailing whitespace, whitespace being what has the Unicode
/// property `White_Space`.
#[verifier::external_body]
pub(crate) fn trim(text: &str) -> (res: &str)
    ensures
        res@ == trimmed(text@),
{
    text.trim()
}

/// `text` with each occurrence of `from` replaced by `to`.
///
/// Trusted: calls `str::replace` of std, which documents that it replaces
/// all matches of the pattern; the matches of a string pattern are found
/// from left to right and do not overlap. The empty pattern, which matches
/// between any two characters, is left out.
#[verifier::external_body]
pub(crate) fn replace(text: &str, from: &str, to: &str) -> (res: String)
    requires
        from@.len() > 0,
    ensures
        res@ == replaced(text@, from@, to@),
{
    text.replace(from, to)
}

/// `n` written in decimal.
///
/// Trusted: calls `to_string` of std on a `u32`, which writes the number as
/// `Display` does: in decimal digits, without sign or leading zeros.
#[verifier::external_body]
pub(crate) fn decimal_string(n: u32) -> (res: String)
    ensures
        res@ == decimal(n as nat),
{
    n.to_string()
}

/// Puts `words` into an order that chance picks.
///
/// Trusted: calls `shuffle` of rand's `SliceRandom` on the slice, with the
/// generator that `rand::rng` hands out. rand permutes the slice in place by
/// swapping elements, so the same words are there afterwards, each as often
/// as before; nothing is claimed of their order.
#[verifier::external_body]
pub(crate) fn shuffle(words: &mut Vec<&str>)
    ensures
        texts(final(words)@).to_multiset() == texts(old(words)@).to_multiset(),
{
    rand::seq::SliceRandom::shuffle(words.as_mut_slice(), &mut rand::rng());
}

} // verus!
