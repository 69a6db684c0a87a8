//! Characters and character sequences: the primitives every decoder is
//! written with.

use vstd::prelude::*;
use vstd::string::StrSliceExecFns;
use vstd::string::StringExecFns;

verus! {

/// Whether `c` is white space: one of the code points that carry the Unicode
/// property `White_Space`.
pub open spec fn is_space(c: char) -> bool {
    let n = c as u32;
    ||| 0x09 <= n <= 0x0d
    ||| n == 0x20
    ||| n == 0x85
    ||| n == 0xa0
    ||| n == 0x1680
    ||| 0x2000 <= n <= 0x200a
    ||| n == 0x2028
    ||| n == 0x2029
    ||| n == 0x202f
    ||| n == 0x205f
    ||| n == 0x3000
}

/// Tests a character for white space.
pub fn is_whitespace(c: char) -> (space: bool)
    ensures
        space == is_space(c),
{
    let n: u32 = c as u32;
    (0x09 <= n && n <= 0x0d) || n == 0x20 || n == 0x85 || n == 0xa0 || n == 0x1680 || (0x2000 <= n
        && n <= 0x200a) || n == 0x2028 || n == 0x2029 || n == 0x202f || n == 0x205f || n == 0x3000
}

/// The characters of a string, in order.
pub fn chars_of(s: &str) -> (chars: Vec<char>)
    ensures
        chars@ == s@,
{
    let mut chars: Vec<char> = Vec::new();
    for c in it: s.chars()
        invariant
            chars@ == it.seq().take(it.index() as int),
            it.seq() == s@,
    {
        chars.push(c);
    }
    chars
}

/// `String::push`: the string afterwards is the string before with `c` added
/// at its end.
#[verifier::external_body]
pub(crate) fn push_char(text: &mut String, c: char)
    ensures
        final(text)@ == old(text)@.push(c),
{
    text.push(c)
}

/// The string that holds the characters of `chars`, in order.
pub fn string_of(chars: &[char]) -> (text: String)
    ensures
        text@ == chars@,
{
    let mut text = String::new();
    let mut i: usize = 0;
    while i < chars.len()
        invariant
            i <= chars.len(),
            text@ == chars@.take(i as int),
        decreases chars.len() - i,
    {
        push_char(&mut text, chars[i]);
        i += 1;
    }
    text
}

/// Whether `word` stands in `s` with its first character at index `at`.
pub open spec fn has_word_at(s: Seq<char>, word: Seq<char>, at: int) -> bool {
    &&& 0 <= at
    &&& at + word.len() <= s.len()
    &&& s.subrange(at, at + word.len()) == word
}

/// Whether `s` begins with `word`.
pub open spec fn starts_with(s: Seq<char>, word: Seq<char>) -> bool {
    has_word_at(s, word, 0)
}

/// Whether `s` ends with `word`.
pub open spec fn ends_with(s: Seq<char>, word: Seq<char>) -> bool {
    has_word_at(s, word, s.len() - word.len())
}

/// Whether `word` stands somewhere in `s`.
pub open spec fn contains_word(s: Seq<char>, word: Seq<char>) -> bool {
    exists|at: int| has_word_at(s, word, at)
}

/// Whether index `at` holds the first `c` of `s`.
pub open spec fn is_first_at(s: Seq<char>, c: char, at: int) -> bool {
    &&& 0 <= at < s.len()
    &&& s[at] == c
    &&& forall|j: int| 0 <= j < at ==> s[j] != c
}

/// The index of the first `c` of `s`; meaningful where `s` holds a `c`.
pub open spec fn first_index(s: Seq<char>, c: char) -> int {
    choose|at: int| is_first_at(s, c, at)
}

/// The characters of `s` from index `from` up to `to`, or nothing where `s`
/// is too short to hold them.
pub open spec fn field(s: Seq<char>, from: int, to: int) -> Seq<char> {
    if 0 <= from <= to <= s.len() {
        s.subrange(from, to)
    } else {
        Seq::empty()
    }
}

/// The two sides of the slash in `s`: what stands before it and what stands
/// after it. Nothing where `s` holds no slash, or more than one.
pub open spec fn halves(s: Seq<char>) -> Option<(Seq<char>, Seq<char>)> {
    if s.contains('/') {
        let at = first_index(s, '/');
        if s.skip(at + 1).contains('/') {
            None
        } else {
            Some((s.take(at), s.skip(at + 1)))
        }
    } else {
        None
    }
}

/// `s` without the white space at its start.
pub open spec fn trimmed_start(s: Seq<char>) -> Seq<char>
    decreases s.len(),
{
    if s.len() > 0 && is_space(s[0]) {
        trimmed_start(s.drop_first())
    } else {
        s
    }
}

/// `s` without the white space at its end.
pub open spec fn trimmed_end(s: Seq<char>) -> Seq<char>
    decreases s.len(),
{
    if s.len() > 0 && is_space(s.last()) {
        trimmed_end(s.drop_last())
    } else {
        s
    }
}

/// `s` without the white space at either end.
pub open spec fn trimmed(s: Seq<char>) -> Seq<char> {
    trimmed_end(trimmed_start(s))
}

/// The texts of `parts` in order, with `separator` between each two.
pub open spec fn joined(parts: Seq<Seq<char>>, separator: Seq<char>) -> Seq<char>
    decreases parts.len(),
{
    if parts.len() == 0 {
        Seq::empty()
    } else if parts.len() == 1 {
        parts[0]
    } else {
        joined(parts.drop_last(), separator) + separator + parts.last()
    }
}

/// Whether a run of characters equals the text `word`.
pub fn equals(chars: &[char], word: &str) -> (same: bool)
    ensures
        same == (chars@ == word@),
{
    let n = word.unicode_len();
    if chars.len() != n {
        return false;
    }
    let mut i: usize = 0;
    while i < n
        invariant
            i <= n,
            n == word@.len(),
            n == chars@.len(),
            forall|j: int| 0 <= j < i ==> chars@[j] == word@[j],
        decreases n - i,
    {
        if chars[i] != word.get_char(i) {
            return false;
        }
        i += 1;
    }
    assert(chars@ =~= word@);
    true
}

/// Whether `word` stands in `chars` at index `at`.
pub fn word_at(chars: &[char], at: usize, word: &str) -> (found: bool)
    ensures
        found == has_word_at(chars@, word@, at as int),
{
    let n = word.unicode_len();
    if at > chars.len() || n > chars.len() - at {
        return false;
    }
    let mut i: usize = 0;
    while i < n
        invariant
            i <= n,
            n == word@.len(),
            at + n <= chars@.len() <= usize::MAX,
            forall|j: int| 0 <= j < i ==> chars@[at + j] == word@[j],
        decreases n - i,
    {
        if chars[at + i] != word.get_char(i) {
            return false;
        }
        i += 1;
    }
    assert(chars@.subrange(at as int, at + n) =~= word@);
    true
}

/// Whether `chars` begins with `word`.
pub fn begins(chars: &[char], word: &str) -> (found: bool)
    ensures
        found == starts_with(chars@, word@),
{
    word_at(chars, 0, word)
}

/// Whether `chars` ends with `word`.
pub fn ends(chars: &[char], word: &str) -> (found: bool)
    ensures
        found == ends_with(chars@, word@),
{
    let n = word.unicode_len();
    if n > chars.len() {
        return false;
    }
    word_at(chars, chars.len() - n, word)
}

/// Whether `word` stands somewhere in `chars`.
pub fn holds_word(chars: &[char], word: &str) -> (found: bool)
    ensures
        found == contains_word(chars@, word@),
{
    let mut at: usize = 0;
    while at < chars.len()
        invariant
            at <= chars.len(),
            forall|k: int| 0 <= k < at ==> !has_word_at(chars@, word@, k),
        decreases chars.len() - at,
    {
        if word_at(chars, at, word) {
            return true;
        }
        at += 1;
    }
    word_at(chars, at, word)
}

/// The index of the first `c` in `chars`, if there is one.
pub fn find(chars: &[char], c: char) -> (at: Option<usize>)
    ensures
        at is Some <==> chars@.contains(c),
        at matches Some(k) ==> is_first_at(chars@, c, k as int) && k == first_index(chars@, c),
{
    let mut i: usize = 0;
    while i < chars.len()
        invariant
            i <= chars.len(),
            forall|j: int| 0 <= j < i ==> chars@[j] != c,
        decreases chars.len() - i,
    {
        if chars[i] == c {
            return Some(i);
        }
        i += 1;
    }
    None
}

/// Whether `chars` holds a `c`.
pub fn holds(chars: &[char], c: char) -> (found: bool)
    ensures
        found == chars@.contains(c),
{
    find(chars, c).is_some()
}

/// The part of `chars` from index `from` up to `to`, or nothing where `chars`
/// is too short to hold it.
pub fn part(chars: &[char], from: usize, to: usize) -> (cut: &[char])
    ensures
        cut@ == field(chars@, from as int, to as int),
{
    if from <= to && to <= chars.len() {
        vstd::slice::slice_subrange(chars, from, to)
    } else {
        vstd::slice::slice_subrange(chars, 0, 0)
    }
}

/// The part of `chars` from index `from` on.
pub fn rest(chars: &[char], from: usize) -> (cut: &[char])
    ensures
        cut@ == field(chars@, from as int, chars@.len() as int),
{
    part(chars, from, chars.len())
}

/// Splits `chars` at its one slash.
pub fn split_halves(chars: &[char]) -> (sides: Option<(&[char], &[char])>)
    ensures
        sides is Some <==> halves(chars@) is Some,
        sides matches Some((left, right)) ==> halves(chars@) == Some((left@, right@)),
        sides matches Some((left, right)) ==> left@.len() + 1 + right@.len() == chars@.len(),
{
    match find(chars, '/') {
        None => None,
        Some(at) => {
            assert(at < chars.len());
            let right = rest(chars, at + 1);
            if holds(right, '/') {
                None
            } else {
                let left = part(chars, 0, at);
                Some((left, right))
            }
        },
    }
}

/// `chars` without the white space at either end.
pub fn trim(chars: &[char]) -> (cut: &[char])
    ensures
        cut@ == trimmed(chars@),
{
    let mut from: usize = 0;
    assert(chars@.skip(0) =~= chars@);
    while from < chars.len() && is_whitespace(chars[from])
        invariant
            from <= chars.len(),
            trimmed_start(chars@) == trimmed_start(chars@.skip(from as int)),
        decreases chars.len() - from,
    {
        assert(chars@.skip(from as int).drop_first() =~= chars@.skip(from + 1));
        from += 1;
    }
    let mut to: usize = chars.len();
    while to > from && is_whitespace(chars[to - 1])
        invariant
            from <= to <= chars.len(),
            trimmed(chars@) == trimmed_end(chars@.subrange(from as int, to as int)),
        decreases to,
    {
        assert(chars@.subrange(from as int, to as int).drop_last() =~= chars@.subrange(
            from as int,
            to - 1,
        ));
        to -= 1;
    }
    vstd::slice::slice_subrange(chars, from, to)
}

/// The texts of `parts` in order, with `separator` between each two.
pub fn join(parts: &Vec<String>, separator: &str) -> (text: String)
    ensures
        text@ == joined(texts(parts@), separator@),
{
    let mut text = String::new();
    let mut i: usize = 0;
    while i < parts.len()
        invariant
            i <= parts.len(),
            text@ == joined(texts(parts@).take(i as int), separator@),
        decreases parts.len() - i,
    {
        let ghost before = texts(parts@).take(i as int);
        let ghost after = texts(parts@).take(i + 1);
        assert(after.drop_last() =~= before);
        if i > 0 {
            text.append(separator);
        }
        text.append(parts[i].as_str());
        i += 1;
    }
    assert(texts(parts@).take(parts.len() as int) =~= texts(parts@));
    text
}

/// What each string of a list holds.
pub open spec fn texts(parts: Seq<String>) -> Seq<Seq<char>> {
    Seq::new(parts.len(), |i: int| parts[i]@)
}

} // verus!
