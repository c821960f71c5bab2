//! Earlier reports of a developer: which of them precede a month, and which
//! are the most recent among those.

use crate::decimal::Decimal;
use crate::models::kpi::MonthlyKPI;
use crate::text::same_text;
use vstd::prelude::*;

verus! {

/// Whether the month `month` of `year` lies before the month `than_month` of
/// `than_year`.
pub open spec fn period_before(year: int, month: int, than_year: int, than_month: int) -> bool {
    year < than_year || (year == than_year && month < than_month)
}

/// The report is the developer's and of a month before the given one.
pub open spec fn earlier_report(k: MonthlyKPI, developer_id: Seq<char>, year: int, month: int) -> bool {
    k.developer_id@ == developer_id && period_before(k.year as int, k.month as int, year, month)
}

/// The order "most recent first" on the reports of a history: report `i`
/// comes before report `j` where its month is the later one, or where both
/// are of one month and `i` stands first in the history.
pub open spec fn more_recent(history: Seq<MonthlyKPI>, i: int, j: int) -> bool {
    period_before(
        history[j].year as int,
        history[j].month as int,
        history[i].year as int,
        history[i].month as int,
    ) || (history[i].year == history[j].year && history[i].month == history[j].month && i < j)
}

/// How many of the first `upto` reports are earlier reports of the developer.
pub open spec fn earlier_upto(
    history: Seq<MonthlyKPI>,
    developer_id: Seq<char>,
    year: int,
    month: int,
    upto: int,
) -> nat
    decreases upto,
{
    if upto <= 0 {
        0
    } else {
        earlier_upto(history, developer_id, year, month, upto - 1) + if earlier_report(
            history[upto - 1],
            developer_id,
            year,
            month,
        ) {
            1nat
        } else {
            0nat
        }
    }
}

/// How many earlier reports of the developer a history holds.
pub open spec fn earlier_count(
    history: Seq<MonthlyKPI>,
    developer_id: Seq<char>,
    year: int,
    month: int,
) -> nat {
    earlier_upto(history, developer_id, year, month, history.len() as int)
}

/// How many of the first `upto` reports are earlier reports of the developer
/// that come before report `i` in the order "most recent first".
pub open spec fn rank_upto(
    history: Seq<MonthlyKPI>,
    developer_id: Seq<char>,
    year: int,
    month: int,
    i: int,
    upto: int,
) -> nat
    decreases upto,
{
    if upto <= 0 {
        0
    } else {
        rank_upto(history, developer_id, year, month, i, upto - 1) + if earlier_report(
            history[upto - 1],
            developer_id,
            year,
            month,
        ) && more_recent(history, upto - 1, i) {
            1nat
        } else {
            0nat
        }
    }
}

/// The place of report `i` among the developer's earlier reports, the most
/// recent one having place 0.
pub open spec fn recency_rank(
    history: Seq<MonthlyKPI>,
    developer_id: Seq<char>,
    year: int,
    month: int,
    i: int,
) -> nat {
    rank_upto(history, developer_id, year, month, i, history.len() as int)
}

/// Report `i` is an earlier report of the developer, has place `place` among
/// them, and its overall score is `score`.
pub open spec fn scored_at(
    history: Seq<MonthlyKPI>,
    developer_id: Seq<char>,
    year: int,
    month: int,
    place: int,
    score: Decimal,
    i: int,
) -> bool {
    &&& 0 <= i < history.len()
    &&& earlier_report(history[i], developer_id, year, month)
    &&& recency_rank(history, developer_id, year, month, i) == place
    &&& history[i].overall_score == score
}

/// Some earlier report of the developer has place `place` among them and the
/// overall score `score`.
pub open spec fn scored_somewhere(
    history: Seq<MonthlyKPI>,
    developer_id: Seq<char>,
    year: int,
    month: int,
    place: int,
    score: Decimal,
) -> bool {
    exists|i: int| #[trigger] scored_at(history, developer_id, year, month, place, score, i)
}

/// The scores are the overall scores of the developer's earlier reports, most
/// recent first, as many as there are but no more than `limit`.
pub open spec fn are_previous_scores(
    scores: Seq<Decimal>,
    history: Seq<MonthlyKPI>,
    developer_id: Seq<char>,
    year: int,
    month: int,
    limit: int,
) -> bool {
    &&& scores.len() == if earlier_count(history, developer_id, year, month) <= limit {
        earlier_count(history, developer_id, year, month) as int
    } else {
        limit
    }
    &&& forall|t: int|
        0 <= t < scores.len() ==> #[trigger] scored_somewhere(
            history,
            developer_id,
            year,
            month,
            t,
            scores[t],
        )
}

/// A report that every other earlier report comes after has place 0.
proof fn lemma_rank_of_first(
    history: Seq<MonthlyKPI>,
    developer_id: Seq<char>,
    year: int,
    month: int,
    b: int,
    upto: int,
)
    requires
        0 <= upto <= history.len(),
        forall|j: int|
            0 <= j < history.len() && #[trigger] earlier_report(history[j], developer_id, year, month) && j
                != b ==> more_recent(history, b, j),
    ensures
        rank_upto(history, developer_id, year, month, b, upto) == 0,
    decreases upto,
{
    if upto > 0 {
        lemma_rank_of_first(history, developer_id, year, month, b, upto - 1);
    }
}

/// The report that follows report `p` at once has the place after it.
proof fn lemma_rank_of_next(
    history: Seq<MonthlyKPI>,
    developer_id: Seq<char>,
    year: int,
    month: int,
    p: int,
    b: int,
    upto: int,
)
    requires
        0 <= upto <= history.len(),
        0 <= p < history.len(),
        0 <= b < history.len(),
        earlier_report(history[p], developer_id, year, month),
        more_recent(history, p, b),
        forall|j: int|
            0 <= j < history.len() && #[trigger] earlier_report(history[j], developer_id, year, month)
                && more_recent(history, p, j) && j != b ==> more_recent(history, b, j),
    ensures
        rank_upto(history, developer_id, year, month, b, upto) == rank_upto(
            history,
            developer_id,
            year,
            month,
            p,
            upto,
        ) + if p < upto {
            1nat
        } else {
            0nat
        },
    decreases upto,
{
    if upto > 0 {
        lemma_rank_of_next(history, developer_id, year, month, p, b, upto - 1);
    }
}

/// An earlier report has fewer reports before it than there are earlier
/// reports.
proof fn lemma_rank_below_count(
    history: Seq<MonthlyKPI>,
    developer_id: Seq<char>,
    year: int,
    month: int,
    i: int,
    upto: int,
)
    requires
        0 <= upto <= history.len(),
        0 <= i < history.len(),
        earlier_report(history[i], developer_id, year, month),
    ensures
        rank_upto(history, developer_id, year, month, i, upto) + if i < upto {
            1nat
        } else {
            0nat
        } <= earlier_upto(history, developer_id, year, month, upto),
    decreases upto,
{
    if upto > 0 {
        lemma_rank_below_count(history, developer_id, year, month, i, upto - 1);
    }
}

/// Where no earlier report comes after report `p`, the earlier reports are
/// `p` and those before it.
proof fn lemma_count_at_last(
    history: Seq<MonthlyKPI>,
    developer_id: Seq<char>,
    year: int,
    month: int,
    p: int,
    upto: int,
)
    requires
        0 <= upto <= history.len(),
        0 <= p < history.len(),
        earlier_report(history[p], developer_id, year, month),
        forall|j: int|
            0 <= j < history.len() && #[trigger] earlier_report(history[j], developer_id, year, month)
                ==> !more_recent(history, p, j),
    ensures
        earlier_upto(history, developer_id, year, month, upto) == rank_upto(
            history,
            developer_id,
            year,
            month,
            p,
            upto,
        ) + if p < upto {
            1nat
        } else {
            0nat
        },
    decreases upto,
{
    if upto > 0 {
        lemma_count_at_last(history, developer_id, year, month, p, upto - 1);
    }
}

/// A history without earlier reports counts none.
proof fn lemma_count_none(
    history: Seq<MonthlyKPI>,
    developer_id: Seq<char>,
    year: int,
    month: int,
    upto: int,
)
    requires
        0 <= upto <= history.len(),
        forall|j: int|
            0 <= j < history.len() ==> !#[trigger] earlier_report(history[j], developer_id, year, month),
    ensures
        earlier_upto(history, developer_id, year, month, upto) == 0,
    decreases upto,
{
    if upto > 0 {
        lemma_count_none(history, developer_id, year, month, upto - 1);
    }
}

/// Of two earlier reports, the more recent one has the smaller place.
proof fn lemma_rank_orders(
    history: Seq<MonthlyKPI>,
    developer_id: Seq<char>,
    year: int,
    month: int,
    i: int,
    j: int,
    upto: int,
)
    requires
        0 <= upto <= history.len(),
        0 <= i < history.len(),
        0 <= j < history.len(),
        earlier_report(history[i], developer_id, year, month),
        more_recent(history, i, j),
    ensures
        rank_upto(history, developer_id, year, month, i, upto) + if i < upto {
            1nat
        } else {
            0nat
        } <= rank_upto(history, developer_id, year, month, j, upto),
    decreases upto,
{
    if upto > 0 {
        lemma_rank_orders(history, developer_id, year, month, i, j, upto - 1);
    }
}

/// A history determines the previous scores of a developer: two lists that
/// both are the previous scores for one limit are the same list.
pub proof fn lemma_previous_scores_unique(
    first: Seq<Decimal>,
    second: Seq<Decimal>,
    history: Seq<MonthlyKPI>,
    developer_id: Seq<char>,
    year: int,
    month: int,
    limit: int,
)
    requires
        are_previous_scores(first, history, developer_id, year, month, limit),
        are_previous_scores(second, history, developer_id, year, month, limit),
    ensures
        first == second,
{
    assert forall|t: int| 0 <= t < first.len() implies first[t] == second[t] by {
        assert(scored_somewhere(history, developer_id, year, month, t, first[t]));
        assert(scored_somewhere(history, developer_id, year, month, t, second[t]));
        let i = choose|i: int|
            #[trigger] scored_at(history, developer_id, year, month, t, first[t], i);
        let j = choose|j: int|
            #[trigger] scored_at(history, developer_id, year, month, t, second[t], j);
        if i != j {
            if more_recent(history, i, j) {
                lemma_rank_orders(history, developer_id, year, month, i, j, history.len() as int);
            } else {
                lemma_rank_orders(history, developer_id, year, month, j, i, history.len() as int);
            }
        }
    }
    assert(first =~= second);
}

/// Two histories hold the same earlier reports of the developer at the same
/// places: `second` is `first` but for reports of the given month or later,
/// or of other developers, which may be others, and more of which may follow
/// at the end. This is how a history changes when a report of the month is
/// stored, be it in place of the stored one or as a new one.
pub open spec fn same_earlier_rows(
    first: Seq<MonthlyKPI>,
    second: Seq<MonthlyKPI>,
    developer_id: Seq<char>,
    year: int,
    month: int,
) -> bool {
    &&& first.len() <= second.len()
    &&& forall|i: int|
        0 <= i < first.len() ==> (#[trigger] earlier_report(first[i], developer_id, year, month)
            <==> earlier_report(second[i], developer_id, year, month))
    &&& forall|i: int|
        0 <= i < first.len() && #[trigger] earlier_report(first[i], developer_id, year, month)
            ==> first[i].year == second[i].year && first[i].month == second[i].month
            && first[i].overall_score == second[i].overall_score
    &&& forall|i: int|
        first.len() <= i < second.len() ==> !#[trigger] earlier_report(
            second[i],
            developer_id,
            year,
            month,
        )
}

/// Histories with the same earlier reports count the same number of them.
proof fn lemma_same_rows_same_count(
    first: Seq<MonthlyKPI>,
    second: Seq<MonthlyKPI>,
    developer_id: Seq<char>,
    year: int,
    month: int,
    upto: int,
)
    requires
        same_earlier_rows(first, second, developer_id, year, month),
        0 <= upto <= second.len(),
    ensures
        earlier_upto(second, developer_id, year, month, upto) == earlier_upto(
            first,
            developer_id,
            year,
            month,
            if upto <= first.len() {
                upto
            } else {
                first.len() as int
            },
        ),
    decreases upto,
{
    if upto > 0 {
        lemma_same_rows_same_count(first, second, developer_id, year, month, upto - 1);
        if upto <= first.len() {
            assert(earlier_report(first[upto - 1], developer_id, year, month) <==> earlier_report(
                second[upto - 1],
                developer_id,
                year,
                month,
            ));
        } else {
            assert(!earlier_report(second[upto - 1], developer_id, year, month));
        }
    }
}

/// In histories with the same earlier reports, an earlier report has the
/// same place.
proof fn lemma_same_rows_same_rank(
    first: Seq<MonthlyKPI>,
    second: Seq<MonthlyKPI>,
    developer_id: Seq<char>,
    year: int,
    month: int,
    i: int,
    upto: int,
)
    requires
        same_earlier_rows(first, second, developer_id, year, month),
        0 <= i < first.len(),
        earlier_report(first[i], developer_id, year, month),
        0 <= upto <= second.len(),
    ensures
        rank_upto(second, developer_id, year, month, i, upto) == rank_upto(
            first,
            developer_id,
            year,
            month,
            i,
            if upto <= first.len() {
                upto
            } else {
                first.len() as int
            },
        ),
    decreases upto,
{
    if upto > 0 {
        lemma_same_rows_same_rank(first, second, developer_id, year, month, i, upto - 1);
        if upto <= first.len() {
            assert(earlier_report(first[upto - 1], developer_id, year, month) <==> earlier_report(
                second[upto - 1],
                developer_id,
                year,
                month,
            ));
        } else {
            assert(!earlier_report(second[upto - 1], developer_id, year, month));
        }
    }
}

/// The previous scores of a developer depend on the earlier reports only:
/// histories with the same earlier reports have the same previous scores.
pub proof fn lemma_previous_scores_read_earlier_rows(
    scores: Seq<Decimal>,
    first: Seq<MonthlyKPI>,
    second: Seq<MonthlyKPI>,
    developer_id: Seq<char>,
    year: int,
    month: int,
    limit: int,
)
    requires
        same_earlier_rows(first, second, developer_id, year, month),
    ensures
        are_previous_scores(scores, first, developer_id, year, month, limit)
            <==> are_previous_scores(scores, second, developer_id, year, month, limit),
{
    lemma_same_rows_same_count(
        first,
        second,
        developer_id,
        year,
        month,
        second.len() as int,
    );
    assert forall|place: int, score: Decimal|
        scored_somewhere(first, developer_id, year, month, place, score) <==> scored_somewhere(
            second,
            developer_id,
            year,
            month,
            place,
            score,
        ) by {
        if scored_somewhere(first, developer_id, year, month, place, score) {
            let i = choose|i: int|
                #[trigger] scored_at(first, developer_id, year, month, place, score, i);
            lemma_same_rows_same_rank(
                first,
                second,
                developer_id,
                year,
                month,
                i,
                second.len() as int,
            );
            assert(scored_at(second, developer_id, year, month, place, score, i));
        }
        if scored_somewhere(second, developer_id, year, month, place, score) {
            let i = choose|i: int|
                #[trigger] scored_at(second, developer_id, year, month, place, score, i);
            if i < first.len() {
                assert(earlier_report(first[i], developer_id, year, month) <==> earlier_report(
                    second[i],
                    developer_id,
                    year,
                    month,
                ));
                lemma_same_rows_same_rank(
                    first,
                    second,
                    developer_id,
                    year,
                    month,
                    i,
                    second.len() as int,
                );
                assert(scored_at(first, developer_id, year, month, place, score, i));
            }
        }
    }
}

/// Whether a report is the developer's and of a month before the given one.
fn is_earlier_report(k: &MonthlyKPI, developer_id: &str, year: i32, month: i32) -> (r: bool)
    ensures
        r == earlier_report(*k, developer_id@, year as int, month as int),
{
    (k.year < year || (k.year == year && k.month < month)) && same_text(
        k.developer_id.as_str(),
        developer_id,
    )
}

/// Whether report `i` comes before report `j`, most recent first.
fn is_more_recent(history: &Vec<MonthlyKPI>, i: usize, j: usize) -> (r: bool)
    requires
        i < history.len(),
        j < history.len(),
    ensures
        r == more_recent(history@, i as int, j as int),
{
    let a = &history[i];
    let b = &history[j];
    b.year < a.year || (b.year == a.year && b.month < a.month) || (a.year == b.year && a.month
        == b.month && i < j)
}

/// The earlier report that follows report `after` at once, most recent
/// first; with `after` absent, the most recent of all. `None` where no
/// earlier report is left.
fn next_most_recent(
    history: &Vec<MonthlyKPI>,
    developer_id: &str,
    year: i32,
    month: i32,
    after: Option<usize>,
) -> (best: Option<usize>)
    requires
        after matches Some(p) ==> p < history.len(),
    ensures
        match best {
            Some(b) => {
                &&& b < history.len()
                &&& earlier_report(history@[b as int], developer_id@, year as int, month as int)
                &&& after matches Some(p) ==> more_recent(history@, p as int, b as int)
                &&& forall|j: int|
                    0 <= j < history.len() && #[trigger] earlier_report(
                        history@[j],
                        developer_id@,
                        year as int,
                        month as int,
                    ) && (after matches Some(p) ==> more_recent(history@, p as int, j)) && j != b
                        ==> more_recent(history@, b as int, j)
            },
            None => forall|j: int|
                0 <= j < history.len() && #[trigger] earlier_report(
                    history@[j],
                    developer_id@,
                    year as int,
                    month as int,
                ) ==> !(after matches Some(p) ==> more_recent(history@, p as int, j)),
        },
{
    let mut best: Option<usize> = None;
    let mut j: usize = 0;
    while j < history.len()
        invariant
            j <= history.len(),
            after matches Some(p) ==> p < history.len(),
            match best {
                Some(b) => {
                    &&& b < j
                    &&& earlier_report(
                        history@[b as int],
                        developer_id@,
                        year as int,
                        month as int,
                    )
                    &&& after matches Some(p) ==> more_recent(history@, p as int, b as int)
                    &&& forall|c: int|
                        0 <= c < j && #[trigger] earlier_report(
                            history@[c],
                            developer_id@,
                            year as int,
                            month as int,
                        ) && (after matches Some(p) ==> more_recent(history@, p as int, c)) && c
                            != b ==> more_recent(history@, b as int, c)
                },
                None => forall|c: int|
                    0 <= c < j && #[trigger] earlier_report(
                        history@[c],
                        developer_id@,
                        year as int,
                        month as int,
                    ) ==> !(after matches Some(p) ==> more_recent(history@, p as int, c)),
            },
        decreases history.len() - j,
    {
        if is_earlier_report(&history[j], developer_id, year, month) {
            let follows = match after {
                Some(p) => is_more_recent(history, p, j),
                None => true,
            };
            if follows {
                let better = match best {
                    Some(b) => is_more_recent(history, j, b),
                    None => true,
                };
                if better {
                    best = Some(j);
                }
            }
        }
        j += 1;
    }
    best
}

/// The overall scores of a developer's reports for the months before the
/// given one, most recent first, at most `num_months` of them. Where a
/// history holds two reports of one month, the one that stands first in it
/// counts as the more recent.
pub fn get_previous_scores(
    history: &Vec<MonthlyKPI>,
    developer_id: &str,
    current_month: i32,
    current_year: i32,
    num_months: usize,
) -> (scores: Vec<Decimal>)
    ensures
        are_previous_scores(
            scores@,
            history@,
            developer_id@,
            current_year as int,
            current_month as int,
            num_months as int,
        ),
{
    let ghost h = history@;
    let ghost dev = developer_id@;
    let ghost y = current_year as int;
    let ghost m = current_month as int;
    let mut scores: Vec<Decimal> = Vec::new();
    let mut last: Option<usize> = None;
    let mut complete = false;
    while !complete && scores.len() < num_months
        invariant
            h == history@,
            dev == developer_id@,
            y == current_year as int,
            m == current_month as int,
            scores.len() <= num_months,
            scores.len() <= earlier_count(h, dev, y, m),
            last is None <==> scores.len() == 0,
            last matches Some(p) ==> p < h.len() && earlier_report(h[p as int], dev, y, m)
                && recency_rank(h, dev, y, m, p as int) == scores.len() - 1,
            complete ==> scores.len() == earlier_count(h, dev, y, m),
            forall|t: int|
                0 <= t < scores.len() ==> #[trigger] scored_somewhere(h, dev, y, m, t, scores@[t]),
        decreases
                if complete {
                    0
                } else {
                    num_months - scores.len() + 1
                },
    {
        let ghost before = scores@;
        match next_most_recent(history, developer_id, current_year, current_month, last) {
            Some(b) => {
                proof {
                    match last {
                        Some(p) => {
                            lemma_rank_of_next(h, dev, y, m, p as int, b as int, h.len() as int);
                        },
                        None => {
                            lemma_rank_of_first(h, dev, y, m, b as int, h.len() as int);
                        },
                    }
                    lemma_rank_below_count(h, dev, y, m, b as int, h.len() as int);
                }
                scores.push(history[b].overall_score);
                last = Some(b);
                assert forall|t: int| 0 <= t < scores.len() implies #[trigger] scored_somewhere(
                    h,
                    dev,
                    y,
                    m,
                    t,
                    scores@[t],
                ) by {
                    if t < before.len() {
                        assert(scored_somewhere(h, dev, y, m, t, before[t]));
                    } else {
                        assert(scored_at(h, dev, y, m, t, scores@[t], b as int));
                    }
                }
            },
            None => {
                proof {
                    match last {
                        Some(p) => {
                            lemma_count_at_last(h, dev, y, m, p as int, h.len() as int);
                        },
                        None => {
                            lemma_count_none(h, dev, y, m, h.len() as int);
                        },
                    }
                }
                complete = true;
            },
        }
    }
    scores
}

} // verus!
