//! Fuzzy search over a list of named items: each name is scored against the
//! words typed so far, and the best few items are offered, best first.
//!
//! The score of a name is computed by `nucleo_matcher` and the best few are
//! picked by `itertools`; what is verified here is what is done with them.

use itertools::Itertools;
use vstd::prelude::*;
use vstd::string::*;

verus! {

/// `nucleo_matcher::Matcher`: the configuration and the scratch space of the
/// matcher. Nothing is known of what it holds.
#[verifier::external_type_specification]
#[verifier::external_body]
pub struct ExMatcher(nucleo_matcher::Matcher);

/// The longest needle that is scored, in characters.
///
/// The matcher adds up the score of one word in 16 bits: at most 36 for its
/// first character and 26 for each further one. A word of 2520 characters
/// stays below that limit, a longer one may pass it.
pub const MAX_NEEDLE: usize = 2520;

/// The longest name that is scored, in characters. The matcher multiplies
/// the lengths of name and needle; with this bound the product fits 32 bits.
pub const MAX_NAME: usize = 1_000_000;

/// The score that `nucleo_matcher` gives to `haystack` for the pattern parsed
/// from `needle`, ignoring case and with smart normalisation, under the
/// default configuration of the matcher, or `None` where the pattern does
/// not match.
pub uninterp spec fn fuzzy_score(needle: Seq<char>, haystack: Seq<char>) -> Option<u32>;

/// Makes a matcher with `nucleo_matcher::Matcher::new` and the default
/// configuration. Nothing is claimed of it.
#[verifier::external_body]
fn default_matcher() -> (matcher: nucleo_matcher::Matcher) {
    nucleo_matcher::Matcher::new(nucleo_matcher::Config::DEFAULT)
}

/// Scores a name with `nucleo_matcher::pattern::Pattern::score`, for the
/// pattern that `Pattern::parse` reads from `needle` and the text that
/// `Utf32String::from` makes of `haystack`.
///
/// The score depends on the configuration of the matcher, so the matcher is
/// given the default configuration before the call, whatever it held; what
/// else it holds is scratch space. The score then depends on the needle and
/// the name alone, and the contract names it.
///
/// The bounds keep the matcher from what it cannot do: the score of a word of
/// the needle is summed in 16 bits and grows by at most 36 for the first and
/// 26 for each further character, the lengths of name and needle are
/// multiplied, and names of more than `u32::MAX` characters are refused.
#[verifier::external_body]
fn pattern_score(matcher: &mut nucleo_matcher::Matcher, needle: &str, haystack: &str) -> (score:
    Option<u32>)
    requires
        needle@.len() <= MAX_NEEDLE,
        haystack@.len() <= MAX_NAME,
    ensures
        score == fuzzy_score(needle@, haystack@),
{
    matcher.config = nucleo_matcher::Config::DEFAULT;
    let pattern = nucleo_matcher::pattern::Pattern::parse(
        needle,
        nucleo_matcher::pattern::CaseMatching::Ignore,
        nucleo_matcher::pattern::Normalization::Smart,
    );
    let text = nucleo_matcher::Utf32String::from(haystack);
    pattern.score(text.slice(..), matcher)
}

/// Whether `places` is a choice of the `n` best of `scores`: as many places
/// as asked for or as there are, no place twice, the better score first, and
/// no place left out that scores better than one that was chosen. Which of
/// two places with one score is chosen, and which of them comes first, is
/// left open.
pub open spec fn is_choice(scores: Seq<u32>, n: int, places: Seq<usize>) -> bool {
    &&& places.len() == if n <= scores.len() {
        n
    } else {
        scores.len() as int
    }
    &&& forall|i: int| 0 <= i < places.len() ==> (#[trigger] places[i]) < scores.len()
    &&& forall|i: int, j: int|
        0 <= i < j < places.len() ==> (#[trigger] places[i]) != (#[trigger] places[j])
    &&& forall|i: int, j: int|
        0 <= i < j < places.len() ==> scores[(#[trigger] places[i]) as int] >= scores[(
        #[trigger] places[j]) as int]
    &&& forall|p: int, i: int|
        0 <= p < scores.len() && 0 <= i < places.len() && !places.contains(p as usize)
            ==> #[trigger] scores[p] <= scores[(#[trigger] places[i]) as int]
}

/// Picks the places of the `n` largest scores with
/// `itertools::Itertools::k_largest_relaxed_by_key`, which hands out the
/// items with the largest keys in descending order of their keys, all of
/// them where there are fewer than `n`. It doubles `n`, which must therefore
/// be at most half of `usize::MAX`.
#[verifier::external_body]
fn largest_places(scores: &Vec<u32>, n: usize) -> (places: Vec<usize>)
    requires
        n <= usize::MAX / 2,
    ensures
        is_choice(scores@, n as int, places@),
{
    scores.iter().enumerate().k_largest_relaxed_by_key(n, |x| *x.1).map(|x| x.0).collect()
}

/// The score of a name for a needle: that of the matcher, or 0 where the
/// needle does not match.
pub open spec fn score_of(needle: Seq<char>, name: Seq<char>) -> u32 {
    match fuzzy_score(needle, name) {
        Some(score) => score,
        None => 0,
    }
}

/// The score that counts for a name, given what the matcher said.
pub fn counted_score(matched: Option<u32>) -> (score: u32)
    ensures
        score == match matched {
            Some(s) => s,
            None => 0,
        },
{
    match matched {
        Some(s) => s,
        None => 0,
    }
}

/// The items to offer, given the places that were chosen: the item of each
/// place, in the order of the places.
pub fn items_at<'a, T>(corpus: &'a Vec<(String, T)>, places: &Vec<usize>) -> (items: Vec<&'a T>)
    requires
        forall|i: int| 0 <= i < places.len() ==> (#[trigger] places[i]) < corpus.len(),
    ensures
        items.len() == places.len(),
        forall|i: int| 0 <= i < items.len() ==> *(#[trigger] items[i]) == corpus[places[i] as int].1,
{
    let mut items: Vec<&T> = Vec::new();
    let mut k: usize = 0;
    while k < places.len()
        invariant
            k <= places.len(),
            items.len() == k,
            forall|i: int| 0 <= i < places.len() ==> (#[trigger] places[i]) < corpus.len(),
            forall|i: int| 0 <= i < k ==> *(#[trigger] items[i]) == corpus[places[i] as int].1,
        decreases places.len() - k,
    {
        items.push(&corpus[places[k]].1);
        k += 1;
    }
    items
}

/// A list of named items that can be searched. The matcher it holds is
/// scratch space: it is given the default configuration before every score,
/// so that a search depends on the names and the needle alone.
pub struct FuzzyFinder<T> {
    matcher: nucleo_matcher::Matcher,
    corpus: Vec<(String, T)>,
}

impl<T> FuzzyFinder<T> {
    /// The names and items of the finder, in the order given.
    pub closed spec fn entries(&self) -> Seq<(String, T)> {
        self.corpus@
    }

    /// The scores of all names for a needle, in the order of the corpus.
    pub open spec fn scores(&self, needle: Seq<char>) -> Seq<u32> {
        Seq::new(self.entries().len(), |i: int| score_of(needle, self.entries()[i].0@))
    }

    /// Whether the needle and all names are short enough to be scored: the
    /// needle has at most `MAX_NEEDLE` characters and every name at most
    /// `MAX_NAME`.
    pub open spec fn searchable(&self, needle: Seq<char>) -> bool {
        &&& needle.len() <= MAX_NEEDLE
        &&& forall|i: int|
            0 <= i < self.entries().len() ==> (#[trigger] self.entries()[i]).0@.len() <= MAX_NAME
    }

    /// A finder over the given names and items.
    pub fn new(corpus: Vec<(String, T)>) -> (finder: FuzzyFinder<T>)
        ensures
            finder.entries() == corpus@,
    {
        FuzzyFinder { matcher: default_matcher(), corpus }
    }

    /// The names and items of the finder.
    pub fn corpus(&self) -> (corpus: &Vec<(String, T)>)
        ensures
            corpus@ == self.entries(),
    {
        &self.corpus
    }

    /// Whether the needle and all names are short enough to be scored.
    pub fn is_searchable(&self, needle: &str) -> (fits: bool)
        ensures
            fits == self.searchable(needle@),
    {
        if needle.unicode_len() > MAX_NEEDLE {
            return false;
        }
        let mut k: usize = 0;
        while k < self.corpus.len()
            invariant
                k <= self.corpus.len(),
                needle@.len() <= MAX_NEEDLE,
                forall|i: int| 0 <= i < k ==> (#[trigger] self.entries()[i]).0@.len() <= MAX_NAME,
            decreases self.corpus.len() - k,
        {
            if self.corpus[k].0.as_str().unicode_len() > MAX_NAME {
                assert(self.entries()[k as int].0@.len() > MAX_NAME);
                return false;
            }
            k += 1;
        }
        true
    }

    /// The places of the `n` items whose names score best for the needle,
    /// best first. No more than half of `usize::MAX` places are chosen.
    pub fn search_places(&mut self, needle: &str, n: usize) -> (places: Vec<usize>)
        requires
            old(self).searchable(needle@),
        ensures
            final(self).entries() == old(self).entries(),
            is_choice(
                old(self).scores(needle@),
                if n <= usize::MAX / 2 {
                    n as int
                } else {
                    (usize::MAX / 2) as int
                },
                places@,
            ),
    {
        let mut scores: Vec<u32> = Vec::new();
        let mut k: usize = 0;
        while k < self.corpus.len()
            invariant
                k <= self.corpus.len(),
                self.entries() == old(self).entries(),
                self.searchable(needle@),
                scores.len() == k,
                forall|i: int|
                    0 <= i < k ==> (#[trigger] scores[i]) == score_of(needle@, self.corpus[i].0@),
            decreases self.corpus.len() - k,
        {
            assert(self.entries()[k as int].0@.len() <= MAX_NAME);
            let matched = pattern_score(&mut self.matcher, needle, self.corpus[k].0.as_str());
            scores.push(counted_score(matched));
            k += 1;
        }
        assert(scores@ =~= self.scores(needle@));
        let many = if n <= usize::MAX / 2 {
            n
        } else {
            usize::MAX / 2
        };
        largest_places(&scores, many)
    }

    /// The `n` items whose names score best for the needle, best first.
    pub fn search(&mut self, needle: &str, n: usize) -> (found: Vec<&T>)
        requires
            old(self).searchable(needle@),
        ensures
            final(self).entries() == old(self).entries(),
            exists|places: Seq<usize>|
                {
                    &&& is_choice(
                        old(self).scores(needle@),
                        if n <= usize::MAX / 2 {
                            n as int
                        } else {
                            (usize::MAX / 2) as int
                        },
                        places,
                    )
                    &&& found.len() == places.len()
                    &&& forall|i: int|
                        0 <= i < found.len() ==> *(#[trigger] found[i]) == old(
                            self,
                        ).entries()[places[i] as int].1
                },
    {
        let places = self.search_places(needle, n);
        let found = items_at(&self.corpus, &places);
        assert(is_choice(
            old(self).scores(needle@),
            if n <= usize::MAX / 2 {
                n as int
            } else {
                (usize::MAX / 2) as int
            },
            places@,
        ));
        found
    }

    /// The `n` items whose names score best for the needle, best first, or
    /// nothing where the needle or a name is too long to be scored.
    pub fn try_search(&mut self, needle: &str, n: usize) -> (found: Option<Vec<&T>>)
        ensures
            final(self).entries() == old(self).entries(),
            found is Some <==> old(self).searchable(needle@),
            found matches Some(items) ==> exists|places: Seq<usize>|
                {
                    &&& is_choice(
                        old(self).scores(needle@),
                        if n <= usize::MAX / 2 {
                            n as int
                        } else {
                            (usize::MAX / 2) as int
                        },
                        places,
                    )
                    &&& items.len() == places.len()
                    &&& forall|i: int|
                        0 <= i < items.len() ==> *(#[trigger] items[i]) == old(
                            self,
                        ).entries()[places[i] as int].1
                },
    {
        if self.is_searchable(needle) {
            Some(self.search(needle, n))
        } else {
            None
        }
    }
}

} // verus!
