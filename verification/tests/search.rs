use cookbook::fuzzy::{counted_score, items_at, FuzzyFinder, MAX_NAME, MAX_NEEDLE};

fn finder() -> FuzzyFinder<u32> {
    FuzzyFinder::new(vec![
        ("Sugar".to_owned(), 1),
        ("Flour".to_owned(), 2),
        ("Salt".to_owned(), 3),
        ("Plain flour".to_owned(), 4),
        ("Butter".to_owned(), 5),
    ])
}

#[test]
fn the_best_match_comes_first() {
    let mut finder = finder();
    assert_eq!(finder.search("sug", 1), vec![&1]);
    assert_eq!(finder.search("butter", 1), vec![&5]);
    let flours = finder.search("flour", 2);
    assert_eq!(flours[0], &2);
    assert_eq!(flours[1], &4);
}

#[test]
fn as_many_items_as_asked_for_or_as_there_are() {
    let mut finder = finder();
    assert_eq!(finder.search("", 3).len(), 3);
    assert_eq!(finder.search("", 0).len(), 0);
    let mut all: Vec<u32> = finder.search("s", 10).into_iter().copied().collect();
    all.sort();
    assert_eq!(all, vec![1, 2, 3, 4, 5]);
    assert_eq!(finder.search("zzz", usize::MAX).len(), 5);
}

#[test]
fn places_are_chosen_once() {
    let mut finder = finder();
    let places = finder.search_places("flour", 4);
    assert_eq!(places.len(), 4);
    assert_eq!(&places[..2], &[1, 3]);
    let mut sorted = places.clone();
    sorted.sort();
    sorted.dedup();
    assert_eq!(sorted.len(), 4);
    assert!(places.iter().all(|p| *p < 5));
    assert_eq!(items_at(finder.corpus(), &places)[0], &2);
}

#[test]
fn an_empty_corpus_gives_nothing() {
    let mut finder: FuzzyFinder<String> = FuzzyFinder::new(vec![]);
    assert!(finder.search("a", 10).is_empty());
    assert_eq!(finder.try_search("a", 10), Some(vec![]));
}

#[test]
fn an_overlong_needle_is_not_scored() {
    let mut finder = finder();
    let needle = "a".repeat(MAX_NEEDLE + 1);
    assert!(!finder.is_searchable(&needle));
    assert_eq!(finder.try_search(&needle, 2), None);
    let fits = "a".repeat(MAX_NEEDLE);
    assert!(finder.is_searchable(&fits));
    assert_eq!(finder.try_search(&fits, 2).map(|found| found.len()), Some(2));
    assert_eq!(finder.try_search("salt", 1), Some(vec![&3]));
}

#[test]
fn the_longest_needle_is_scored_against_a_name_of_its_length() {
    let longest = "a".repeat(MAX_NEEDLE);
    let mut finder = FuzzyFinder::new(vec![
        ("b".repeat(MAX_NEEDLE), 1),
        (longest.clone(), 2),
        (format!("{longest} and more"), 3),
        ("A".repeat(MAX_NEEDLE), 4),
        (format!("/{}", "a".repeat(MAX_NEEDLE - 1)), 5),
    ]);
    assert!(finder.is_searchable(&longest));
    let found = finder.search(&longest, 3);
    assert_eq!(found.len(), 3);
    assert!(found.iter().all(|item| [2, 3, 4].contains(*item)));
    assert_eq!(finder.try_search(&"a".repeat(MAX_NEEDLE + 1), 3), None);
}

#[test]
fn long_needles_of_many_words_are_scored() {
    let word = "ab".repeat(200);
    let needle = vec![word.as_str(); 6].join(" ");
    assert!(needle.chars().count() <= MAX_NEEDLE);
    let mut finder =
        FuzzyFinder::new(vec![(needle.clone(), 1), (word.clone(), 2), ("other".to_owned(), 3)]);
    assert_eq!(finder.search(&needle, 1).len(), 1);
    assert_eq!(finder.search("^ab$ 'ab !zz", 3).len(), 3);
}

#[test]
fn an_overlong_name_is_not_scored() {
    let mut finder = FuzzyFinder::new(vec![("n".repeat(MAX_NAME + 1), 1), ("salt".to_owned(), 2)]);
    assert!(!finder.is_searchable("salt"));
    assert_eq!(finder.try_search("salt", 1), None);
    let mut fits = FuzzyFinder::new(vec![("n".repeat(MAX_NAME), 1), ("salt".to_owned(), 2)]);
    assert_eq!(fits.try_search("salt", 1), Some(vec![&2]));
}

#[test]
fn a_missing_match_counts_as_zero() {
    assert_eq!(counted_score(None), 0);
    assert_eq!(counted_score(Some(17)), 17);
}
