//! Accuracy reports: per-word lookup results and the summary computed from them.

use vstd::prelude::*;

verus! {

/// A duration or timestamp split into whole seconds and a sub-second part.
///
/// Values are ordered by `secs` first and `subsec_nanos` second.
#[derive(Debug, PartialOrd, Ord, PartialEq, Eq, Clone, Copy, Structural)]
pub struct Time {
    pub secs: u64,
    pub subsec_nanos: u32,
}

impl Time {
    /// `self` is not later than `other`, comparing seconds first.
    pub open spec fn at_most(self, other: Time) -> bool {
        self.secs < other.secs || (self.secs == other.secs && self.subsec_nanos
            <= other.subsec_nanos)
    }

    /// Whole milliseconds covered by this time.
    pub open spec fn millis_spec(self) -> int {
        self.secs * 1000 + self.subsec_nanos / 1_000_000
    }

    /// Compares two times, seconds first.
    pub fn le(&self, other: &Time) -> (r: bool)
        ensures
            r == self.at_most(*other),
    {
        self.secs < other.secs || (self.secs == other.secs && self.subsec_nanos
            <= other.subsec_nanos)
    }

    /// The time in whole milliseconds; the sub-second part is rounded down.
    pub fn millis(&self) -> (ms: u64)
        requires
            self.millis_spec() <= u64::MAX,
        ensures
            ms == self.millis_spec(),
    {
        let sub: u64 = (self.subsec_nanos / 1_000_000) as u64;
        self.secs * 1000 + sub
    }
}

/// The digit that stands for `d` in decimal notation.
pub open spec fn digit(d: nat) -> char
    recommends
        d < 10,
{
    if d == 0 {
        '0'
    } else if d == 1 {
        '1'
    } else if d == 2 {
        '2'
    } else if d == 3 {
        '3'
    } else if d == 4 {
        '4'
    } else if d == 5 {
        '5'
    } else if d == 6 {
        '6'
    } else if d == 7 {
        '7'
    } else if d == 8 {
        '8'
    } else {
        '9'
    }
}

/// `n` in decimal notation, without leading zeros.
pub open spec fn decimal(n: nat) -> Seq<char>
    decreases n,
{
    if n < 10 {
        seq![digit(n)]
    } else {
        decimal(n / 10).push(digit(n % 10))
    }
}

/// Writes a number of milliseconds with `format!`, as the number followed by
/// `ms`. Trusted: the standard library prints an unsigned integer in decimal
/// notation without leading zeros.
#[verifier::external_body]
fn millis_text(ms: u64) -> (text: String)
    ensures
        text@ == decimal(ms as nat) + seq!['m', 's'],
{
    format!("{}ms", ms)
}

impl Time {
    /// The time as text: its whole milliseconds, followed by `ms`.
    pub fn to_string(&self) -> (text: String)
        requires
            self.millis_spec() <= u64::MAX,
        ensures
            text@ == decimal(self.millis_spec() as nat) + seq!['m', 's'],
    {
        millis_text(self.millis())
    }
}

impl Default for Time {
    fn default() -> (t: Time)
        ensures
            t == (Time { secs: 0, subsec_nanos: 0 }),
    {
        Time { secs: 0, subsec_nanos: 0 }
    }
}

/// One candidate correction. `weight_bits` is the IEEE-754 single-precision
/// bit pattern of the candidate's weight.
#[derive(Clone, Debug, PartialEq)]
pub struct Suggestion {
    pub value: String,
    pub weight_bits: u32,
}

/// The outcome of looking up one misspelt word.
#[derive(Clone, Debug, PartialEq)]
pub struct AccuracyResult {
    pub input: String,
    pub expected: String,
    pub suggestions: Vec<Suggestion>,
    /// Index of the expected word among the suggestions, if it is there.
    pub position: Option<usize>,
    pub time: Time,
}

/// The expected word was the first suggestion.
pub open spec fn is_first(r: AccuracyResult) -> bool {
    r.position == Some(0usize)
}

/// The expected word was among the first five suggestions.
pub open spec fn in_top_five(r: AccuracyResult) -> bool {
    r.position matches Some(p) && p < 5
}

/// The expected word was suggested at all.
pub open spec fn is_found(r: AccuracyResult) -> bool {
    r.position is Some
}

/// Nothing was suggested.
pub open spec fn has_no_suggestions(r: AccuracyResult) -> bool {
    r.position is None && r.suggestions@.len() == 0
}

/// Something was suggested, but not the expected word.
pub open spec fn has_only_wrong(r: AccuracyResult) -> bool {
    r.position is None && r.suggestions@.len() != 0
}

/// How many of `results` satisfy `p`.
pub open spec fn count(results: Seq<AccuracyResult>, p: spec_fn(AccuracyResult) -> bool) -> nat {
    results.filter(p).len()
}

/// `t` is the time of some result, and no result took longer.
pub open spec fn is_slowest(t: Time, results: Seq<AccuracyResult>) -> bool {
    &&& exists|i: int| 0 <= i < results.len() && (#[trigger] results[i]).time == t
    &&& forall|i: int| 0 <= i < results.len() ==> (#[trigger] results[i]).time.at_most(t)
}

/// `t` is the time of some result, and no result was quicker.
pub open spec fn is_fastest(t: Time, results: Seq<AccuracyResult>) -> bool {
    &&& exists|i: int| 0 <= i < results.len() && (#[trigger] results[i]).time == t
    &&& forall|i: int| 0 <= i < results.len() ==> t.at_most((#[trigger] results[i]).time)
}

/// Counting over one more element adds one exactly when that element satisfies `p`.
proof fn lemma_count_step(results: Seq<AccuracyResult>, p: spec_fn(AccuracyResult) -> bool, i: int)
    requires
        0 <= i < results.len(),
    ensures
        count(results.take(i + 1), p) == count(results.take(i), p) + if p(results[i]) {
            1nat
        } else {
            0nat
        },
        count(results.take(i + 1), p) <= i + 1,
{
    reveal(Seq::filter);
    assert(results.take(i + 1).drop_last() =~= results.take(i));
    results.take(i).lemma_filter_len(p);
}

/// Totals over a run of lookups.
#[derive(PartialEq, Eq, Debug, Clone, Structural)]
pub struct Summary {
    pub total_words: u32,
    pub first_position: u32,
    pub top_five: u32,
    pub any_position: u32,
    pub no_suggestions: u32,
    pub only_wrong: u32,
    pub slowest_lookup: Time,
    pub fastest_lookup: Time,
    pub average_time: Time,
    pub average_time_95pc: Time,
}

impl Default for Summary {
    fn default() -> (s: Summary)
        ensures
            s == Summary::zero(),
    {
        let zero = Time { secs: 0, subsec_nanos: 0 };
        Summary {
            total_words: 0,
            first_position: 0,
            top_five: 0,
            any_position: 0,
            no_suggestions: 0,
            only_wrong: 0,
            slowest_lookup: zero,
            fastest_lookup: zero,
            average_time: zero,
            average_time_95pc: zero,
        }
    }
}

impl Summary {
    /// The summary of no lookups at all.
    pub open spec fn zero() -> Summary {
        let zero = Time { secs: 0, subsec_nanos: 0 };
        Summary {
            total_words: 0,
            first_position: 0,
            top_five: 0,
            any_position: 0,
            no_suggestions: 0,
            only_wrong: 0,
            slowest_lookup: zero,
            fastest_lookup: zero,
            average_time: zero,
            average_time_95pc: zero,
        }
    }

    /// `self` is the summary of `results`: every counter counts the results of
    /// its kind, the two extremes are the longest and shortest lookup, and the
    /// averages are left at zero.
    pub open spec fn summarizes(self, results: Seq<AccuracyResult>) -> bool {
        &&& self.total_words == results.len()
        &&& self.first_position == count(results, |r: AccuracyResult| is_first(r))
        &&& self.top_five == count(results, |r: AccuracyResult| in_top_five(r))
        &&& self.any_position == count(results, |r: AccuracyResult| is_found(r))
        &&& self.no_suggestions == count(results, |r: AccuracyResult| has_no_suggestions(r))
        &&& self.only_wrong == count(results, |r: AccuracyResult| has_only_wrong(r))
        &&& is_slowest(self.slowest_lookup, results)
        &&& is_fastest(self.fastest_lookup, results)
        &&& self.average_time == Time { secs: 0, subsec_nanos: 0 }
        &&& self.average_time_95pc == Time { secs: 0, subsec_nanos: 0 }
    }

    /// Summarises a non-empty run of lookups.
    pub fn new(results: &[AccuracyResult]) -> (summary: Summary)
        requires
            0 < results@.len() <= u32::MAX,
        ensures
            summary.summarizes(results@),
    {
        let zero = Time { secs: 0, subsec_nanos: 0 };
        let mut summary = Summary {
            total_words: 0,
            first_position: 0,
            top_five: 0,
            any_position: 0,
            no_suggestions: 0,
            only_wrong: 0,
            slowest_lookup: results[0].time,
            fastest_lookup: results[0].time,
            average_time: zero,
            average_time_95pc: zero,
        };
        let n: usize = results.len();
        let mut i: usize = 0;
        while i < n
            invariant
                n == results@.len(),
                n <= u32::MAX,
                0 <= i <= n,
                summary.total_words == i,
                summary.first_position == count(results@.take(i as int), |r: AccuracyResult| is_first(r)),
                summary.top_five == count(results@.take(i as int), |r: AccuracyResult| in_top_five(r)),
                summary.any_position == count(results@.take(i as int), |r: AccuracyResult| is_found(r)),
                summary.no_suggestions == count(
                    results@.take(i as int),
                    |r: AccuracyResult| has_no_suggestions(r),
                ),
                summary.only_wrong == count(results@.take(i as int), |r: AccuracyResult| has_only_wrong(r)),
                i == 0 ==> summary.slowest_lookup == results@[0].time && summary.fastest_lookup
                    == results@[0].time,
                i > 0 ==> is_slowest(summary.slowest_lookup, results@.take(i as int)),
                i > 0 ==> is_fastest(summary.fastest_lookup, results@.take(i as int)),
                summary.average_time == zero,
                summary.average_time_95pc == zero,
                zero == (Time { secs: 0, subsec_nanos: 0 }),
            decreases n - i,
        {
            let result = &results[i];
            proof {
                let s = results@;
                let k = i as int;
                lemma_count_step(s, |r: AccuracyResult| is_first(r), k);
                lemma_count_step(s, |r: AccuracyResult| in_top_five(r), k);
                lemma_count_step(s, |r: AccuracyResult| is_found(r), k);
                lemma_count_step(s, |r: AccuracyResult| has_no_suggestions(r), k);
                lemma_count_step(s, |r: AccuracyResult| has_only_wrong(r), k);
            }
            summary.total_words += 1;
            match result.position {
                Some(position) => {
                    summary.any_position += 1;
                    if position == 0 {
                        summary.first_position += 1;
                    }
                    if position < 5 {
                        summary.top_five += 1;
                    }
                },
                None => {
                    if result.suggestions.len() == 0 {
                        summary.no_suggestions += 1;
                    } else {
                        summary.only_wrong += 1;
                    }
                },
            }
            let ghost before = results@.take(i as int);
            let ghost after = results@.take(i + 1);
            let ghost old_slowest = summary.slowest_lookup;
            let ghost old_fastest = summary.fastest_lookup;
            if summary.slowest_lookup.le(&result.time) {
                summary.slowest_lookup = result.time;
            }
            if !summary.fastest_lookup.le(&result.time) {
                summary.fastest_lookup = result.time;
            }
            proof {
                assert(after[i as int] == results@[i as int]);
                assert(forall|j: int| 0 <= j < i ==> after[j] == before[j]);
                if i > 0 {
                    let w = choose|j: int| 0 <= j < before.len() && (#[trigger] before[j]).time == old_slowest;
                    assert(after[w].time == old_slowest);
                    let v = choose|j: int| 0 <= j < before.len() && (#[trigger] before[j]).time == old_fastest;
                    assert(after[v].time == old_fastest);
                } else {
                    assert(after[0].time == old_slowest);
                }
                assert(is_slowest(summary.slowest_lookup, after));
                assert(is_fastest(summary.fastest_lookup, after));
            }
            i += 1;
        }
        proof {
            assert(results@.take(n as int) =~= results@);
        }
        summary
    }
}

} // verus!
