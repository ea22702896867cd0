//! Text primitives shared by the content pipeline: white space, words,
//! prefixes and concatenation, all stated over sequences of characters.

use vstd::prelude::*;
use vstd::string::*;
use vstd::utf8::*;

verus! {

/// Whether `c` carries Unicode's `White_Space` property.
pub open spec fn is_space(c: char) -> bool {
    let n = c as u32;
    ||| 0x09 <= n <= 0x0D
    ||| n == 0x20
    ||| n == 0x85
    ||| n == 0xA0
    ||| n == 0x1680
    ||| 0x2000 <= n <= 0x200A
    ||| n == 0x2028
    ||| n == 0x2029
    ||| n == 0x202F
    ||| n == 0x205F
    ||| n == 0x3000
}

/// Tells whether a character separates words.
pub fn is_whitespace(c: char) -> (space: bool)
    ensures
        space == is_space(c),
{
    let n: u32 = c as u32;
    (0x09 <= n && n <= 0x0D) || n == 0x20 || n == 0x85 || n == 0xA0 || n == 0x1680 || (0x2000 <= n
        && n <= 0x200A) || n == 0x2028 || n == 0x2029 || n == 0x202F || n == 0x205F || n == 0x3000
}

/// Whether a word begins at position `i` of `s`: a character that is no
/// white space, at the start or right after white space.
pub open spec fn word_starts_at(s: Seq<char>, i: int) -> bool {
    &&& 0 <= i < s.len()
    &&& !is_space(s[i])
    &&& (i == 0 || is_space(s[i - 1]))
}

/// Number of whitespace-delimited words in `s`.
pub open spec fn word_count(s: Seq<char>) -> nat
    decreases s.len(),
{
    if s.len() == 0 {
        0
    } else {
        word_count(s.drop_last()) + if word_starts_at(s, s.len() - 1) {
            1nat
        } else {
            0nat
        }
    }
}

/// A text has at most as many characters as its UTF-8 encoding has bytes.
pub proof fn lemma_chars_fit_bytes(chars: Seq<char>)
    ensures
        chars.len() <= encode_utf8(chars).len(),
    decreases chars.len(),
{
    if chars.len() > 0 {
        lemma_chars_fit_bytes(chars.drop_first());
    }
}

/// Counts the whitespace-delimited words of `text`.
pub fn count_words(text: &str) -> (count: usize)
    ensures
        count == word_count(text@),
{
    broadcast use vstd::string::group_string_axioms;

    let byte_len = text.as_bytes().len();
    proof {
        lemma_chars_fit_bytes(text@);
    }
    let mut count: usize = 0;
    let mut after_space = true;
    for c in it: text.chars()
        invariant
            it.seq() == text@,
            text@.len() <= byte_len,
            count == word_count(text@.take(it.index())),
            count <= it.index(),
            after_space == (it.index() == 0 || is_space(text@[it.index() - 1])),
    {
        proof {
            let i = it.index();
            assert(text@.take(i + 1).drop_last() == text@.take(i));
        }
        let space = is_whitespace(c);
        if !space && after_space {
            count = count + 1;
        }
        after_space = space;
    }
    proof {
        assert(text@.take(text@.len() as int) == text@);
    }
    count
}

/// The number of characters of `text`.
pub fn char_len(text: &str) -> (len: usize)
    ensures
        len == text@.len(),
{
    text.unicode_len()
}

/// The first `n` characters of `text`, or all of it where it has fewer.
pub open spec fn prefix_of(s: Seq<char>, n: int) -> Seq<char> {
    if n <= 0 {
        Seq::empty()
    } else if n >= s.len() {
        s
    } else {
        s.take(n)
    }
}

/// Copies the first `n` characters of `text`.
pub fn prefix(text: &str, n: usize) -> (head: String)
    ensures
        head@ == prefix_of(text@, n as int),
{
    let len = text.unicode_len();
    let end = if n < len {
        n
    } else {
        len
    };
    let head = String::from_str(text.substring_char(0, end));
    proof {
        assert(text@.subrange(0, end as int) =~= prefix_of(text@, n as int));
    }
    head
}

/// Whether `s` begins with `c`.
pub open spec fn begins_with(s: Seq<char>, c: char) -> bool {
    s.len() > 0 && s[0] == c
}

/// Tells whether `text` begins with `c`.
pub fn starts_with_char(text: &str, c: char) -> (yes: bool)
    ensures
        yes == begins_with(text@, c),
{
    broadcast use vstd::string::group_string_axioms;

    let mut chars = text.chars();
    match chars.next() {
        Some(first) => first == c,
        None => false,
    }
}

/// Whether `s` ends with `tail`.
pub open spec fn ends_with(s: Seq<char>, tail: Seq<char>) -> bool {
    s.len() >= tail.len() && s.skip(s.len() - tail.len()) == tail
}

/// Appending a character to a `String` puts it after the characters already
/// there.
pub assume_specification[ String::push ](text: &mut String, c: char)
    ensures
        final(text)@ == old(text)@.push(c),
;

/// The characters of a text, one by one.
pub fn to_chars(text: &str) -> (chars: Vec<char>)
    ensures
        chars@ == text@,
{
    broadcast use vstd::string::group_string_axioms;

    let mut chars: Vec<char> = Vec::new();
    for c in it: text.chars()
        invariant
            it.seq() == text@,
            chars@ == text@.take(it.index()),
    {
        chars.push(c);
        proof {
            assert(text@.take(it.index() + 1) =~= text@.take(it.index()).push(c));
        }
    }
    proof {
        assert(text@.take(text@.len() as int) == text@);
    }
    chars
}

/// Whether `part` stands in `s` at position `i`.
pub open spec fn occurs_at(s: Seq<char>, part: Seq<char>, i: int) -> bool {
    0 <= i && i + part.len() <= s.len() && s.subrange(i, i + part.len()) == part
}

/// Whether `part` stands somewhere in `s`.
pub open spec fn occurs_in(s: Seq<char>, part: Seq<char>) -> bool {
    exists|i: int| occurs_at(s, part, i)
}

/// Tells whether `part` stands in `s` at position `i`.
fn matches_at(s: &Vec<char>, part: &Vec<char>, i: usize) -> (found: bool)
    requires
        i + part@.len() <= s@.len(),
    ensures
        found == occurs_at(s@, part@, i as int),
{
    let len = s.len();
    let mut j: usize = 0;
    while j < part.len()
        invariant
            j <= part@.len(),
            i + part@.len() <= s@.len() == len,
            forall|k: int| 0 <= k < j ==> s@[i + k] == part@[k],
        decreases part.len() - j,
    {
        if s[i + j] != part[j] {
            proof {
                assert(s@.subrange(i as int, i + part@.len())[j as int] == s@[i + j]);
            }
            return false;
        }
        j = j + 1;
    }
    proof {
        assert(s@.subrange(i as int, i + part@.len()) =~= part@);
    }
    true
}

/// Tells whether `part` stands somewhere in `text`.
pub fn contains_text(text: &str, part: &str) -> (found: bool)
    ensures
        found == occurs_in(text@, part@),
{
    let s = to_chars(text);
    let p = to_chars(part);
    if p.len() > s.len() {
        return false;
    }
    if p.len() == 0 {
        proof {
            assert(text@.subrange(0, 0) =~= part@);
            assert(occurs_at(text@, part@, 0));
        }
        return true;
    }
    let last = s.len() - p.len();
    let mut i: usize = 0;
    while i <= last
        invariant
            i <= last + 1,
            s@ == text@,
            p@ == part@,
            p@.len() > 0,
            last == s@.len() - p@.len(),
            s@.len() <= usize::MAX,
            forall|k: int| 0 <= k < i ==> !occurs_at(text@, part@, k),
        decreases last + 1 - i,
    {
        if matches_at(&s, &p, i) {
            return true;
        }
        i = i + 1;
    }
    false
}

} // verus!
