use rand::Rng;
use vstd::prelude::*;
use vstd::string::StrSliceExecFns;
use crate::text::{push_char, trim_of, trim_text};

verus! {

/// The pieces of `s` between commas, in order, empty pieces included;
/// a string without commas is a single piece.
pub open spec fn split_commas(s: Seq<char>) -> Seq<Seq<char>>
    decreases s.len(),
{
    if s.len() == 0 {
        seq![Seq::empty()]
    } else {
        let prev = split_commas(s.drop_last());
        if s.last() == ',' {
            prev.push(Seq::empty())
        } else {
            prev.update(prev.len() - 1, prev.last().push(s.last()))
        }
    }
}

/// The candidate words of a word list file's contents: the contents trimmed,
/// then split at each comma.
pub open spec fn candidates_of(contents: Seq<char>) -> Seq<Seq<char>> {
    split_commas(trim_of(contents))
}

/// Splitting always gives at least one piece.
pub proof fn lemma_split_nonempty(s: Seq<char>)
    ensures
        split_commas(s).len() >= 1,
    decreases s.len(),
{
    if s.len() > 0 {
        lemma_split_nonempty(s.drop_last());
    }
}

/// Relies on rand's thread_rng and Rng::gen_range: a value in `[0, bound)`;
/// gen_range panics on an empty range.
#[verifier::external_body]
fn random_below(bound: usize) -> (r: usize)
    requires
        bound > 0,
    ensures
        r < bound,
{
    rand::thread_rng().gen_range(0usize, bound)
}

/// Splits a comma-separated list into its pieces, with no trimming of them.
pub fn split_candidates(list: &str) -> (words: Vec<String>)
    ensures
        words@.len() == split_commas(list@).len(),
        forall|i: int| 0 <= i < words@.len() ==> #[trigger] words@[i]@ == split_commas(list@)[i],
{
    let n = list.unicode_len();
    let mut words: Vec<String> = Vec::new();
    let mut current = String::new();
    let mut i: usize = 0;
    while i < n
        invariant
            n == list@.len(),
            i <= n,
            split_commas(list@.take(i as int)).len() == words@.len() + 1,
            forall|j: int|
                0 <= j < words@.len() ==> #[trigger] words@[j]@ == split_commas(
                    list@.take(i as int),
                )[j],
            current@ == split_commas(list@.take(i as int)).last(),
        decreases n - i,
    {
        let c = list.get_char(i);
        proof {
            assert(list@.take(i + 1).drop_last() =~= list@.take(i as int));
        }
        if c == ',' {
            words.push(current);
            current = String::new();
        } else {
            push_char(&mut current, c);
        }
        i = i + 1;
    }
    words.push(current);
    assert(list@.take(n as int) =~= list@);
    words
}

/// The candidate words of a word list file's contents.
pub fn word_candidates(contents: &str) -> (words: Vec<String>)
    ensures
        words@.len() == candidates_of(contents@).len(),
        forall|i: int|
            0 <= i < words@.len() ==> #[trigger] words@[i]@ == candidates_of(contents@)[i],
{
    split_candidates(trim_text(contents))
}

/// Picks one of the candidate words of `contents` at random.
pub fn select_word(contents: &str) -> (word: String)
    ensures
        candidates_of(contents@).contains(word@),
{
    let words = word_candidates(contents);
    proof {
        lemma_split_nonempty(trim_of(contents@));
    }
    let i = random_below(words.len());
    let word = words[i].clone();
    assert(candidates_of(contents@)[i as int] == word@);
    word
}

} // verus!
