//! Lines of text as sequences of characters, and the words that white space
//! separates in them.

use vstd::prelude::*;

verus! {

/// Whether `c` is white space: one of the code points that Unicode classes
/// as `White_Space`.
pub open spec fn is_space(c: char) -> bool {
    let n = c as u32;
    ||| 0x09 <= n <= 0x0D
    ||| n == 0x20
    ||| n == 0x85
    ||| n == 0xA0
    ||| n == 0x1680
    ||| 0x2000 <= n <= 0x200A
    ||| n == 0x2028
    ||| n == 0x2029
    ||| n == 0x202F
    ||| n == 0x205F
    ||| n == 0x3000
}

/// The length of the longest prefix of `s` in which no character meets
/// `stop`.
pub open spec fn prefix_len(s: Seq<char>, stop: spec_fn(char) -> bool) -> nat
    decreases s.len(),
{
    if s.len() == 0 || stop(s[0]) {
        0
    } else {
        1 + prefix_len(s.drop_first(), stop)
    }
}

/// The length of the longest prefix of `s` that holds no white space.
pub open spec fn word_len(s: Seq<char>) -> nat {
    prefix_len(s, |c: char| is_space(c))
}

/// The words of `s` in the order in which they stand: the longest runs of
/// characters that are not white space.
pub open spec fn tokens(s: Seq<char>) -> Seq<Seq<char>>
    decreases s.len(),
{
    if s.len() == 0 {
        Seq::empty()
    } else if is_space(s[0]) {
        tokens(s.drop_first())
    } else {
        proof {
            lemma_prefix_len_within(s, |c: char| is_space(c));
        }
        let n = word_len(s) as int;
        seq![s.take(n)] + tokens(s.skip(n))
    }
}

/// `prefix_len` stops inside the sequence, at the first character that meets
/// `stop` or at the end, and passes over none that does.
pub proof fn lemma_prefix_len_within(s: Seq<char>, stop: spec_fn(char) -> bool)
    ensures
        prefix_len(s, stop) <= s.len(),
        forall|k: int| 0 <= k < prefix_len(s, stop) ==> !stop(#[trigger] s[k]),
        prefix_len(s, stop) == s.len() || stop(s[prefix_len(s, stop) as int]),
    decreases s.len(),
{
    if s.len() == 0 || stop(s[0]) {
    } else {
        let rest = s.drop_first();
        lemma_prefix_len_within(rest, stop);
        assert forall|k: int| 0 <= k < prefix_len(s, stop) implies !stop(#[trigger] s[k]) by {
            if k > 0 {
                assert(s[k] == rest[k - 1]);
            }
        }
    }
}

/// A prefix in which nothing meets `stop`, and which ends at a character that
/// does or at the end of the sequence, is the one that `prefix_len` measures.
pub proof fn lemma_prefix_len_is(s: Seq<char>, stop: spec_fn(char) -> bool, n: int)
    requires
        0 <= n <= s.len(),
        forall|k: int| 0 <= k < n ==> !stop(#[trigger] s[k]),
        n == s.len() || stop(s[n]),
    ensures
        prefix_len(s, stop) == n,
    decreases s.len(),
{
    if n > 0 {
        let rest = s.drop_first();
        assert forall|k: int| 0 <= k < n - 1 implies !stop(#[trigger] rest[k]) by {
            assert(rest[k] == s[k + 1]);
        }
        lemma_prefix_len_is(rest, stop, n - 1);
    }
}

/// White space in front of a line holds no word.
pub proof fn lemma_tokens_skip_space(s: Seq<char>)
    requires
        s.len() > 0,
        is_space(s[0]),
    ensures
        tokens(s) == tokens(s.skip(1)),
{
}

/// Every word is non-empty and holds no white space.
pub proof fn lemma_tokens_are_words(s: Seq<char>)
    ensures
        forall|i: int|
            0 <= i < tokens(s).len() ==> {
                &&& (#[trigger] tokens(s)[i]).len() > 0
                &&& forall|k: int| 0 <= k < tokens(s)[i].len() ==> !is_space(tokens(s)[i][k])
            },
    decreases s.len(),
{
    let words = tokens(s);
    if s.len() == 0 {
    } else if is_space(s[0]) {
        lemma_tokens_are_words(s.drop_first());
        assert(words == tokens(s.drop_first()));
    } else {
        lemma_prefix_len_within(s, |c: char| is_space(c));
        let n = word_len(s) as int;
        let rest = tokens(s.skip(n));
        lemma_tokens_are_words(s.skip(n));
        assert forall|i: int| 0 <= i < words.len() implies {
            &&& (#[trigger] words[i]).len() > 0
            &&& forall|k: int| 0 <= k < words[i].len() ==> !is_space(words[i][k])
        } by {
            if i > 0 {
                assert(words[i] == rest[i - 1]);
            }
        }
    }
}

/// Whether `c` is white space.
pub fn is_whitespace(c: char) -> (space: bool)
    ensures
        space == is_space(c),
{
    let n: u32 = c as u32;
    (0x09 <= n && n <= 0x0D) || n == 0x20 || n == 0x85 || n == 0xA0 || n == 0x1680 || (0x2000 <= n
        && n <= 0x200A) || n == 0x2028 || n == 0x2029 || n == 0x202F || n == 0x205F || n == 0x3000
}

/// The characters of `s`, one by one.
pub fn chars_of(s: &str) -> (chars: Vec<char>)
    ensures
        chars@ == s@,
{
    let mut chars: Vec<char> = Vec::new();
    for c in it: s.chars()
        invariant
            chars@ == it.seq().take(it.index() as int),
            it.seq() == s@,
    {
        chars.push(c);
    }
    chars
}

/// The first word of `chars` at or after `from`, as the range of positions
/// that it fills, or `None` where only white space follows.
pub(crate) fn next_token(chars: &Vec<char>, from: usize) -> (found: Option<(usize, usize)>)
    requires
        from <= chars.len(),
    ensures
        match found {
            None => tokens(chars@.skip(from as int)).len() == 0,
            Some((start, end)) => {
                &&& from <= start < end <= chars.len()
                &&& tokens(chars@.skip(from as int)) == seq![
                    chars@.subrange(start as int, end as int),
                ] + tokens(chars@.skip(end as int))
            },
        },
{
    let n: usize = chars.len();
    let mut start: usize = from;
    while start < n && is_whitespace(chars[start])
        invariant
            from <= start <= n,
            n == chars.len(),
            tokens(chars@.skip(from as int)) == tokens(chars@.skip(start as int)),
        decreases n - start,
    {
        proof {
            lemma_tokens_skip_space(chars@.skip(start as int));
            assert(chars@.skip(start as int).skip(1) =~= chars@.skip(start + 1));
        }
        start = start + 1;
    }
    if start == n {
        return None;
    }
    let mut end: usize = start + 1;
    while end < n && !is_whitespace(chars[end])
        invariant
            start < end <= n,
            n == chars.len(),
            forall|k: int| start <= k < end ==> !is_space(#[trigger] chars@[k]),
        decreases n - end,
    {
        end = end + 1;
    }
    proof {
        let rest = chars@.skip(start as int);
        assert forall|k: int| 0 <= k < end - start implies !is_space(#[trigger] rest[k]) by {
            assert(rest[k] == chars@[start + k]);
        }
        lemma_prefix_len_is(rest, |c: char| is_space(c), end - start);
        assert(rest.take(end - start) =~= chars@.subrange(start as int, end as int));
        assert(rest.skip(end - start) =~= chars@.skip(end as int));
    }
    Some((start, end))
}

/// Whether the characters of `chars` from `from` up to `to` begin with those
/// of `word`.
pub(crate) fn begins_with(chars: &Vec<char>, from: usize, to: usize, word: &Vec<char>) -> (begins:
    bool)
    requires
        from <= to <= chars.len(),
    ensures
        begins == word@.is_prefix_of(chars@.subrange(from as int, to as int)),
{
    let len: usize = word.len();
    if len > to - from {
        return false;
    }
    let mut i: usize = 0;
    while i < len
        invariant
            i <= len == word.len(),
            from <= to <= chars.len(),
            len <= to - from,
            forall|k: int| 0 <= k < i ==> chars@[from + k] == #[trigger] word@[k],
        decreases len - i,
    {
        if chars[from + i] != word[i] {
            return false;
        }
        i = i + 1;
    }
    true
}

} // verus!
