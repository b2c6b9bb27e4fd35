//! Splitting a line into tokens: the maximal runs of characters that are not
//! ASCII whitespace, in the order in which they were typed.

use crate::text::{is_ascii_whitespace, spec_is_ascii_whitespace};
use vstd::prelude::*;

verus! {

/// The length of the longest prefix of `s` that holds no whitespace.
pub open spec fn token_len(s: Seq<char>) -> nat
    decreases s.len(),
{
    if s.len() == 0 || spec_is_ascii_whitespace(s[0]) {
        0
    } else {
        1 + token_len(s.skip(1))
    }
}

/// The tokens of `s`. Leading whitespace is dropped; then the run of
/// characters up to the next whitespace is one token, and the tokens of what
/// follows it come after.
pub open spec fn tokens(s: Seq<char>) -> Seq<Seq<char>>
    decreases s.len(),
{
    if s.len() == 0 {
        Seq::empty()
    } else if spec_is_ascii_whitespace(s[0]) {
        tokens(s.skip(1))
    } else {
        let n = token_len(s) as int;
        proof {
            lemma_token_len_bound(s);
        }
        seq![s.take(n)] + tokens(s.skip(n))
    }
}

/// The views of a vector of tokens.
pub open spec fn token_views(v: Seq<Vec<char>>) -> Seq<Seq<char>> {
    Seq::new(v.len(), |i: int| v[i]@)
}

/// A whitespace-free prefix is never longer than the text.
pub proof fn lemma_token_len_bound(s: Seq<char>)
    ensures
        token_len(s) <= s.len(),
    decreases s.len(),
{
    if s.len() > 0 && !spec_is_ascii_whitespace(s[0]) {
        lemma_token_len_bound(s.skip(1));
    }
}

/// `token_len(s)` is `k` exactly when the first `k` characters hold no
/// whitespace and the text ends there or goes on with whitespace.
pub proof fn lemma_token_len_is(s: Seq<char>, k: int)
    requires
        0 <= k <= s.len(),
        forall|j: int| 0 <= j < k ==> !spec_is_ascii_whitespace(#[trigger] s[j]),
        k == s.len() || spec_is_ascii_whitespace(s[k]),
    ensures
        token_len(s) == k,
    decreases k,
{
    if k > 0 {
        let rest = s.skip(1);
        assert forall|j: int| 0 <= j < k - 1 implies !spec_is_ascii_whitespace(
            #[trigger] rest[j],
        ) by {
            assert(rest[j] == s[j + 1]);
        }
        lemma_token_len_is(rest, k - 1);
    }
}

/// A word: one character or more, none of them whitespace.
pub open spec fn is_word(t: Seq<char>) -> bool {
    t.len() > 0 && forall|j: int| 0 <= j < t.len() ==> !spec_is_ascii_whitespace(#[trigger] t[j])
}

/// Every token is a word.
pub proof fn lemma_tokens_are_words(s: Seq<char>)
    ensures
        forall|i: int| 0 <= i < tokens(s).len() ==> is_word(#[trigger] tokens(s)[i]),
    decreases s.len(),
{
    if s.len() == 0 {
        assert(tokens(s).len() == 0);
    } else if spec_is_ascii_whitespace(s[0]) {
        lemma_tokens_are_words(s.skip(1));
        assert(tokens(s) == tokens(s.skip(1)));
    } else {
        let n = token_len(s) as int;
        lemma_token_len_bound(s);
        lemma_token_len_prefix(s);
        lemma_tokens_are_words(s.skip(n));
        let head = s.take(n);
        let tail = tokens(s.skip(n));
        assert(tokens(s) == seq![head] + tail);
        assert(is_word(head));
        assert forall|i: int| 0 <= i < tokens(s).len() implies is_word(
            #[trigger] tokens(s)[i],
        ) by {
            if i > 0 {
                assert(tokens(s)[i] == tail[i - 1]);
            } else {
                assert(tokens(s)[0] == head);
            }
        }
    }
}

/// No character before `token_len(s)` is whitespace.
pub proof fn lemma_token_len_prefix(s: Seq<char>)
    ensures
        forall|j: int| 0 <= j < token_len(s) ==> !spec_is_ascii_whitespace(#[trigger] s[j]),
        token_len(s) == s.len() || spec_is_ascii_whitespace(s[token_len(s) as int]),
    decreases s.len(),
{
    if s.len() > 0 && !spec_is_ascii_whitespace(s[0]) {
        let rest = s.skip(1);
        lemma_token_len_prefix(rest);
        lemma_token_len_bound(rest);
        assert forall|j: int| 0 <= j < token_len(s) implies !spec_is_ascii_whitespace(
            #[trigger] s[j],
        ) by {
            if j > 0 {
                assert(s[j] == rest[j - 1]);
            }
        }
        if token_len(s) != s.len() {
            assert(s[token_len(s) as int] == rest[token_len(rest) as int]);
        }
    }
}

/// A line has no token exactly when every one of its characters is
/// whitespace; the empty line is one such.
pub proof fn lemma_no_tokens_iff_blank(s: Seq<char>)
    ensures
        tokens(s).len() == 0 <==> forall|i: int|
            0 <= i < s.len() ==> spec_is_ascii_whitespace(#[trigger] s[i]),
    decreases s.len(),
{
    if s.len() == 0 {
    } else if spec_is_ascii_whitespace(s[0]) {
        let rest = s.skip(1);
        lemma_no_tokens_iff_blank(rest);
        if tokens(s).len() == 0 {
            assert forall|i: int| 0 <= i < s.len() implies spec_is_ascii_whitespace(
                #[trigger] s[i],
            ) by {
                if i > 0 {
                    assert(s[i] == rest[i - 1]);
                }
            }
        } else {
            let i = choose|i: int| 0 <= i < rest.len() && !spec_is_ascii_whitespace(rest[i]);
            assert(s[i + 1] == rest[i]);
        }
    } else {
        lemma_token_len_bound(s);
        assert(tokens(s).len() > 0);
    }
}

/// The first token of a line is what lies between its leading whitespace and
/// the next whitespace after that.
pub proof fn lemma_first_token(s: Seq<char>, from: int, to: int)
    requires
        0 <= from < to <= s.len(),
        forall|j: int| 0 <= j < from ==> spec_is_ascii_whitespace(#[trigger] s[j]),
        forall|j: int| from <= j < to ==> !spec_is_ascii_whitespace(#[trigger] s[j]),
        to == s.len() || spec_is_ascii_whitespace(s[to]),
    ensures
        tokens(s).len() > 0,
        tokens(s)[0] == s.subrange(from, to),
        tokens(s).skip(1) == tokens(s.skip(to)),
    decreases from,
{
    if from > 0 {
        let rest = s.skip(1);
        assert forall|j: int| 0 <= j < from - 1 implies spec_is_ascii_whitespace(
            #[trigger] rest[j],
        ) by {
            assert(rest[j] == s[j + 1]);
        }
        assert forall|j: int| from - 1 <= j < to - 1 implies !spec_is_ascii_whitespace(
            #[trigger] rest[j],
        ) by {
            assert(rest[j] == s[j + 1]);
        }
        lemma_first_token(rest, from - 1, to - 1);
        assert(rest.subrange(from - 1, to - 1) =~= s.subrange(from, to));
        assert(rest.skip(to - 1) =~= s.skip(to));
    } else {
        lemma_token_len_is(s, to);
        assert(s.take(to) =~= s.subrange(0, to));
        assert(tokens(s).skip(1) =~= tokens(s.skip(to)));
    }
}

/// The words in a row, with one space between each two.
pub open spec fn joined(words: Seq<Seq<char>>) -> Seq<char>
    decreases words.len(),
{
    if words.len() == 0 {
        Seq::empty()
    } else if words.len() == 1 {
        words[0]
    } else {
        words[0] + seq![' '] + joined(words.skip(1))
    }
}

/// Splitting undoes joining: the tokens of words that were joined by
/// spaces are those words.
pub proof fn lemma_tokens_of_joined(words: Seq<Seq<char>>)
    requires
        forall|i: int| 0 <= i < words.len() ==> is_word(#[trigger] words[i]),
    ensures
        tokens(joined(words)) == words,
    decreases words.len(),
{
    let line = joined(words);
    if words.len() == 0 {
        assert(tokens(line) =~= words);
    } else {
        let first = words[0];
        let others = words.skip(1);
        assert(is_word(first));
        assert forall|i: int| 0 <= i < others.len() implies is_word(#[trigger] others[i]) by {
            assert(others[i] == words[i + 1]);
        }
        lemma_tokens_of_joined(others);
        assert forall|j: int| 0 <= j < first.len() implies !spec_is_ascii_whitespace(
            #[trigger] line[j],
        ) by {
            assert(line[j] == first[j]);
        }
        lemma_first_token(line, 0, first.len() as int);
        assert(line.subrange(0, first.len() as int) =~= first);
        let after = line.skip(first.len() as int);
        if words.len() == 1 {
            assert(after =~= Seq::<char>::empty());
            assert(others =~= Seq::<Seq<char>>::empty());
        } else {
            assert(after =~= seq![' '] + joined(others));
            assert(after.skip(1) =~= joined(others));
        }
        assert(tokens(after) == others);
        assert(tokens(line) =~= seq![tokens(line)[0]] + tokens(line).skip(1));
        assert(words =~= seq![first] + others);
    }
}

/// Splits a line into its tokens.
pub fn tokenize(s: &[char]) -> (out: Vec<Vec<char>>)
    ensures
        token_views(out@) == tokens(s@),
{
    let mut out: Vec<Vec<char>> = Vec::new();
    let mut i: usize = 0;
    assert(s@.skip(0) =~= s@);
    assert(token_views(out@) =~= Seq::<Seq<char>>::empty());
    while i < s.len()
        invariant
            i <= s.len(),
            token_views(out@) + tokens(s@.skip(i as int)) == tokens(s@),
        decreases s.len() - i,
    {
        let ghost here = s@.skip(i as int);
        if is_ascii_whitespace(s[i]) {
            assert(here.skip(1) =~= s@.skip(i + 1));
            i += 1;
        } else {
            let start: usize = i;
            let mut word: Vec<char> = Vec::new();
            assert(word@ =~= s@.subrange(start as int, i as int));
            while i < s.len() && !is_ascii_whitespace(s[i])
                invariant
                    start <= i <= s.len(),
                    word@ == s@.subrange(start as int, i as int),
                    forall|k: int|
                        start <= k < i ==> !spec_is_ascii_whitespace(#[trigger] s@[k]),
                decreases s.len() - i,
            {
                word.push(s[i]);
                i += 1;
                assert(word@ =~= s@.subrange(start as int, i as int));
            }
            proof {
                let n = i - start;
                assert forall|j: int| 0 <= j < n implies !spec_is_ascii_whitespace(
                    #[trigger] here[j],
                ) by {
                    assert(here[j] == s@[start + j]);
                }
                lemma_token_len_is(here, n);
                assert(here.take(n) =~= word@);
                assert(here.skip(n) =~= s@.skip(i as int));
                let before = token_views(out@);
                let after = token_views(out@.push(word));
                assert(after =~= before + seq![word@]);
                assert(after + tokens(s@.skip(i as int)) =~= before + tokens(here));
            }
            out.push(word);
        }
    }
    assert(s@.skip(i as int) =~= Seq::<char>::empty());
    assert(token_views(out@) + Seq::<Seq<char>>::empty() =~= token_views(out@));
    out
}

} // verus!
