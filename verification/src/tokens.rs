//! Splitting a report into its tokens: the runs of characters between white
//! space.

use vstd::prelude::*;
use crate::text::chars_of;
use crate::text::is_space;
use crate::text::is_whitespace;

verus! {

/// The number of characters at the start of `s` before its first white space.
pub open spec fn word_len(s: Seq<char>) -> nat
    decreases s.len(),
{
    if s.len() == 0 || is_space(s[0]) {
        0
    } else {
        1 + word_len(s.drop_first())
    }
}

/// The tokens of `s`: its longest runs of characters that are not white
/// space, in the order in which they stand.
pub open spec fn words(s: Seq<char>) -> Seq<Seq<char>>
    decreases s.len(),
    via words_terminates
{
    if s.len() == 0 {
        Seq::empty()
    } else if is_space(s[0]) {
        words(s.drop_first())
    } else {
        seq![s.take(word_len(s) as int)] + words(s.skip(word_len(s) as int))
    }
}

#[via_fn]
proof fn words_terminates(s: Seq<char>) {
    word_len_bound(s);
}

/// A leading word is no longer than the text it leads.
pub proof fn word_len_bound(s: Seq<char>)
    ensures
        word_len(s) <= s.len(),
    decreases s.len(),
{
    if s.len() > 0 && !is_space(s[0]) {
        word_len_bound(s.drop_first());
    }
}

/// The leading word of `s` has `n` characters where the first `n` characters
/// of `s` are no white space and the text ends, or white space follows, there.
pub proof fn word_len_is(s: Seq<char>, n: int)
    requires
        0 <= n <= s.len(),
        forall|j: int| 0 <= j < n ==> !is_space(s[j]),
        n == s.len() || is_space(s[n]),
    ensures
        word_len(s) == n,
    decreases s.len(),
{
    if n > 0 {
        let t = s.drop_first();
        word_len_is(t, n - 1);
    }
}

/// No character of a leading word is white space.
pub proof fn word_is_solid(s: Seq<char>, j: int)
    requires
        0 <= j < word_len(s),
    ensures
        j < s.len(),
        !is_space(s[j]),
    decreases s.len(),
{
    word_len_bound(s);
    if j > 0 {
        word_is_solid(s.drop_first(), j - 1);
    }
}

/// Every token has at least one character, and none of its characters is
/// white space.
pub proof fn tokens_are_solid(s: Seq<char>, k: int)
    requires
        0 <= k < words(s).len(),
    ensures
        words(s)[k].len() > 0,
        forall|j: int| 0 <= j < words(s)[k].len() ==> !is_space(#[trigger] words(s)[k][j]),
    decreases s.len(),
{
    if is_space(s[0]) {
        tokens_are_solid(s.drop_first(), k);
    } else {
        let n = word_len(s) as int;
        word_len_bound(s);
        if k == 0 {
            assert forall|j: int| 0 <= j < words(s)[k].len() implies !is_space(
                #[trigger] words(s)[k][j],
            ) by {
                word_is_solid(s, j);
            }
        } else {
            tokens_are_solid(s.skip(n), k - 1);
        }
    }
}

/// Text that holds white space only has no tokens.
pub proof fn blank_text_has_no_tokens(s: Seq<char>)
    requires
        forall|j: int| 0 <= j < s.len() ==> is_space(s[j]),
    ensures
        words(s).len() == 0,
    decreases s.len(),
{
    if s.len() > 0 {
        let t = s.drop_first();
        blank_text_has_no_tokens(t);
    }
}

/// `s` without its white space.
pub open spec fn without_spaces(s: Seq<char>) -> Seq<char>
    decreases s.len(),
{
    if s.len() == 0 {
        Seq::empty()
    } else if is_space(s[0]) {
        without_spaces(s.drop_first())
    } else {
        seq![s[0]] + without_spaces(s.drop_first())
    }
}

/// The texts of `parts` one after the other.
pub open spec fn run_together(parts: Seq<Seq<char>>) -> Seq<char>
    decreases parts.len(),
{
    if parts.len() == 0 {
        Seq::empty()
    } else {
        parts[0] + run_together(parts.drop_first())
    }
}

/// Taking the white space out of a text leaves its leading word in place.
pub proof fn leading_word_stays(s: Seq<char>)
    ensures
        without_spaces(s) == s.take(word_len(s) as int) + without_spaces(
            s.skip(word_len(s) as int),
        ),
    decreases s.len(),
{
    word_len_bound(s);
    if s.len() == 0 || is_space(s[0]) {
        assert(s.skip(0) =~= s);
    } else {
        let t = s.drop_first();
        let n = word_len(t) as int;
        leading_word_stays(t);
        word_len_bound(t);
        assert(s.skip(n + 1) =~= t.skip(n));
    }
}

/// Splitting changes no character: the tokens, one after the other, are the
/// text without its white space.
pub proof fn tokens_keep_every_character(s: Seq<char>)
    ensures
        run_together(words(s)) == without_spaces(s),
    decreases s.len(),
{
    if s.len() > 0 {
        if is_space(s[0]) {
            tokens_keep_every_character(s.drop_first());
        } else {
            let n = word_len(s) as int;
            word_len_bound(s);
            tokens_keep_every_character(s.skip(n));
            leading_word_stays(s);
            assert(words(s).drop_first() =~= words(s.skip(n)));
        }
    }
}

/// The tokens of a report, in order.
pub struct Tokens {
    words: Vec<Vec<char>>,
}

impl View for Tokens {
    type V = Seq<Seq<char>>;

    closed spec fn view(&self) -> Seq<Seq<char>> {
        Seq::new(self.words@.len(), |i: int| self.words@[i]@)
    }
}

impl Tokens {
    /// The number of tokens.
    pub fn len(&self) -> (n: usize)
        ensures
            n == self@.len(),
    {
        self.words.len()
    }

    /// The token at index `at`.
    pub fn word(&self, at: usize) -> (word: &[char])
        requires
            at < self@.len(),
        ensures
            word@ == self@[at as int],
    {
        self.words[at].as_slice()
    }
}

/// Splits `raw` into its tokens.
pub fn tokenize(raw: &str) -> (tokens: Tokens)
    ensures
        tokens@ == words(raw@),
{
    let chars = chars_of(raw);
    let mut out: Vec<Vec<char>> = Vec::new();
    let mut i: usize = 0;
    assert(chars@.skip(0) =~= chars@);
    while i < chars.len()
        invariant
            i <= chars.len(),
            words(chars@) == Seq::new(out@.len(), |k: int| out@[k]@) + words(
                chars@.skip(i as int),
            ),
        decreases chars.len() - i,
    {
        let ghost tail = chars@.skip(i as int);
        if is_whitespace(chars[i]) {
            assert(tail.drop_first() =~= chars@.skip(i + 1));
            i += 1;
        } else {
            let start = i;
            let mut word: Vec<char> = Vec::new();
            while i < chars.len() && !is_whitespace(chars[i])
                invariant
                    start <= i <= chars.len(),
                    word@ == chars@.subrange(start as int, i as int),
                    forall|j: int| start <= j < i ==> !is_space(chars@[j]),
                decreases chars.len() - i,
            {
                word.push(chars[i]);
                i += 1;
            }
            proof {
                word_len_is(tail, i - start);
                assert(tail.take(i - start) =~= word@);
                assert(tail.skip(i - start) =~= chars@.skip(i as int));
            }
            out.push(word);
        }
    }
    Tokens { words: out }
}

} // verus!
