//! Measuring a speller against a list of misspelt words.

use vstd::prelude::*;

use crate::report::{AccuracyResult, Suggestion, Time};

verus! {

/// The pair of words that a row of the word list gives: its first two fields,
/// the misspelt word and the expected one. A row that could not be read, or
/// that has fewer than two fields, gives none.
pub open spec fn row_pair(row: Option<Seq<Seq<char>>>) -> Option<(Seq<char>, Seq<char>)> {
    match row {
        Some(fields) => if fields.len() >= 2 {
            Some((fields[0], fields[1]))
        } else {
            None
        },
        None => None,
    }
}

/// The pairs of all rows, in order.
pub open spec fn all_pairs(rows: Seq<Option<Seq<Seq<char>>>>) -> Seq<(Seq<char>, Seq<char>)> {
    rows.filter_map(|row: Option<Seq<Seq<char>>>| row_pair(row))
}

/// The pairs of the rows, cut off after `max_words` pairs if a limit is given.
pub open spec fn word_pairs(rows: Seq<Option<Seq<Seq<char>>>>, max_words: Option<usize>) -> Seq<
    (Seq<char>, Seq<char>),
> {
    match max_words {
        Some(max) => if max < all_pairs(rows).len() {
            all_pairs(rows).take(max as int)
        } else {
            all_pairs(rows)
        },
        None => all_pairs(rows),
    }
}

/// The pairs of the first `i` rows are the first pairs of all rows.
proof fn lemma_pairs_prefix(rows: Seq<Option<Seq<Seq<char>>>>, i: int)
    requires
        0 <= i <= rows.len(),
    ensures
        all_pairs(rows.take(i)).len() <= all_pairs(rows).len(),
        all_pairs(rows.take(i)) == all_pairs(rows).take(all_pairs(rows.take(i)).len() as int),
    decreases rows.len() - i,
{
    if i == rows.len() {
        assert(rows.take(i) == rows);
    } else {
        lemma_pairs_prefix(rows, i + 1);
        rows.lemma_filter_map_take_succ(|row: Option<Seq<Seq<char>>>| row_pair(row), i);
        let shorter = all_pairs(rows.take(i));
        let longer = all_pairs(rows.take(i + 1));
        assert(shorter == longer.take(shorter.len() as int));
        assert(longer.take(shorter.len() as int) == all_pairs(rows).take(
            shorter.len() as int,
        ));
    }
}

/// Picks the word pairs out of the rows of a word list. Each row is given as
/// its fields, or as `None` where the row could not be read.
pub fn select_words(rows: &Vec<Option<Vec<String>>>, max_words: Option<usize>) -> (words: Vec<
    (String, String),
>)
    ensures
        words.deep_view() == word_pairs(rows.deep_view(), max_words),
{
    let mut words: Vec<(String, String)> = Vec::new();
    let ghost all = rows.deep_view();
    let ghost f = |row: Option<Seq<Seq<char>>>| row_pair(row);
    let n: usize = rows.len();
    let mut i: usize = 0;
    proof {
        assert(all.take(0).filter_map(f) == Seq::<(Seq<char>, Seq<char>)>::empty());
    }
    let limit: usize = match max_words {
        Some(max) => max,
        None => usize::MAX,
    };
    while i < n && words.len() < limit
        invariant
            n == rows@.len(),
            0 <= i <= n,
            all == rows.deep_view(),
            f == (|row: Option<Seq<Seq<char>>>| row_pair(row)),
            words.deep_view() == all_pairs(all.take(i as int)),
            words@.len() <= limit,
            words@.len() <= i,
        decreases n - i,
    {
        proof {
            all.lemma_filter_map_take_succ(f, i as int);
            assert(all[i as int] == rows@[i as int].deep_view());
        }
        let ghost before = words.deep_view();
        match &rows[i] {
            Some(fields) => {
                if fields.len() >= 2 {
                    let pair = (fields[0].clone(), fields[1].clone());
                    proof {
                        assert(rows@[i as int].deep_view() matches Some(fs) && fs.len()
                            == fields@.len() && fs[0] == fields@[0]@ && fs[1] == fields@[1]@);
                    }
                    words.push(pair);
                    proof {
                        assert(words.deep_view() == before + seq![(fields@[0]@, fields@[1]@)]);
                    }
                } else {
                    proof {
                        assert(rows@[i as int].deep_view() matches Some(fs) && fs.len()
                            == fields@.len());
                    }
                }
            },
            None => {},
        }
        i += 1;
    }
    proof {
        lemma_pairs_prefix(all, i as int);
        if i == n {
            assert(all.take(n as int) == all);
        }
        assert(words.deep_view().len() == words@.len());
    }
    words
}

/// `r` is the place of the first suggestion whose value is `expected`, and
/// `None` if no suggestion has that value.
pub open spec fn is_position_of(r: Option<usize>, suggestions: Seq<Suggestion>, expected: Seq<char>) -> bool {
    match r {
        Some(i) => {
            &&& i < suggestions.len()
            &&& suggestions[i as int].value@ == expected
            &&& forall|j: int| 0 <= j < i ==> (#[trigger] suggestions[j]).value@ != expected
        },
        None => forall|j: int| 0 <= j < suggestions.len() ==> (#[trigger] suggestions[j]).value@
            != expected,
    }
}

/// Finds the expected word among the suggestions.
pub fn position_of(suggestions: &Vec<Suggestion>, expected: &String) -> (r: Option<usize>)
    ensures
        is_position_of(r, suggestions@, expected@),
{
    let n: usize = suggestions.len();
    let mut i: usize = 0;
    while i < n
        invariant
            n == suggestions@.len(),
            0 <= i <= n,
            forall|j: int| 0 <= j < i ==> (#[trigger] suggestions@[j]).value@ != expected@,
        decreases n - i,
    {
        if suggestions[i].value == *expected {
            return Some(i);
        }
        i += 1;
    }
    None
}

/// Records the outcome of one lookup: what was asked, what came back, where
/// the expected word stood among the suggestions, and how long it took.
pub fn evaluate(input: String, expected: String, suggestions: Vec<Suggestion>, time: Time) -> (result:
    AccuracyResult)
    ensures
        result.input == input,
        result.expected == expected,
        result.suggestions == suggestions,
        result.time == time,
        is_position_of(result.position, suggestions@, expected@),
{
    let position = position_of(&suggestions, &expected);
    AccuracyResult { input, expected, suggestions, position, time }
}

} // verus!
