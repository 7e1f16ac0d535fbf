use vstd::prelude::*;

verus! {

/// Cost standing for "no way to break the rest of the paragraph".
pub open spec fn unreachable_cost() -> int {
    i64::MAX / 4
}

/// `a + b` saturating to the range of `i64`.
pub open spec fn sat_add_i64(a: int, b: int) -> int {
    if a + b > i64::MAX {
        i64::MAX as int
    } else if a + b < i64::MIN {
        i64::MIN as int
    } else {
        a + b
    }
}

/// Best cost, and the word after the first line, of breaking the words from
/// `i` on into lines. `costs[i][k]` is the badness of a line holding words
/// `i..=i+k`; the list for `i` holds the lines that fit, shortest first. The
/// first line is the one of least total cost, the shortest on ties.
pub open spec fn break_plan(costs: Seq<Seq<i64>>, i: int) -> (int, int)
    decreases costs.len() - i, 1int, 0int,
{
    if i < 0 || i >= costs.len() {
        (0, costs.len() as int)
    } else {
        scan_lines(costs, i, 0, unreachable_cost(), costs.len() as int)
    }
}

/// Best cost and break found among the first lines from word `i` of `k`
/// words or more, starting from `best` and `next`.
pub open spec fn scan_lines(costs: Seq<Seq<i64>>, i: int, k: int, best: int, next: int) -> (int, int)
    decreases costs.len() - i, 0int, costs[i].len() - k,
{
    if i < 0 || i >= costs.len() || k < 0 || k >= costs[i].len() || i + k >= costs.len() {
        (best, next)
    } else {
        let cand = sat_add_i64(costs[i][k] as int, break_plan(costs, i + k + 1).0);
        if cand < best {
            scan_lines(costs, i, k + 1, cand, i + k + 1)
        } else {
            scan_lines(costs, i, k + 1, best, next)
        }
    }
}

/// Line ends chosen from word `cursor` on by following the best breaks
/// (`None` if a break does not move forward).
pub open spec fn break_chain(costs: Seq<Seq<i64>>, cursor: int) -> Option<Seq<usize>>
    decreases costs.len() - cursor,
{
    if cursor < 0 || cursor >= costs.len() {
        Some(seq![])
    } else {
        let nx = break_plan(costs, cursor).1;
        if nx <= cursor || nx > costs.len() {
            None
        } else {
            match break_chain(costs, nx) {
                Some(rest) => Some(seq![nx as usize] + rest),
                None => None,
            }
        }
    }
}

/// Line ends of a paragraph of `costs.len()` words: none for no words, the
/// one line for a single word, else the best breaks, or `None` when the
/// words cannot be broken into fitting lines.
pub open spec fn paragraph_breaks_outcome(costs: Seq<Seq<i64>>) -> Option<Seq<usize>> {
    if costs.len() == 0 {
        Some(seq![])
    } else if costs.len() == 1 {
        Some(seq![1usize])
    } else if break_plan(costs, 0).0 >= unreachable_cost() {
        None
    } else {
        break_chain(costs, 0)
    }
}

fn sat_add_exec(a: i64, b: i64) -> (r: i64)
    ensures
        r == sat_add_i64(a as int, b as int),
{
    let s: i128 = a as i128 + b as i128;
    if s > i64::MAX as i128 {
        i64::MAX
    } else if s < i64::MIN as i128 {
        i64::MIN
    } else {
        s as i64
    }
}

/// Line ends (exclusive word indices) that break a paragraph with the least
/// total badness; see [`break_plan`] for what `costs` holds. `None` when no
/// breaking fits.
pub fn optimal_paragraph_breaks(costs: &Vec<Vec<i64>>) -> (r: Option<Vec<usize>>)
    requires
        costs@.len() < usize::MAX,
    ensures
        match r {
            Some(v) => paragraph_breaks_outcome(costs@.map_values(|c: Vec<i64>| c@)) == Some(v@),
            None => paragraph_breaks_outcome(costs@.map_values(|c: Vec<i64>| c@)) is None,
        },
{
    let ghost cs = costs@.map_values(|c: Vec<i64>| c@);
    let n = costs.len();
    if n == 0 {
        return Some(Vec::new());
    }
    if n == 1 {
        let mut one: Vec<usize> = Vec::new();
        one.push(1);
        assert(one@ =~= seq![1usize]);
        return Some(one);
    }
    let inf: i64 = i64::MAX / 4;
    let mut dp: Vec<i64> = vec![inf; n + 1];
    let mut next: Vec<usize> = vec![n; n + 1];
    dp.set(n, 0);
    let mut i: usize = n;
    while i > 0
        invariant
            n == costs@.len(),
            n < usize::MAX,
            cs == costs@.map_values(|c: Vec<i64>| c@),
            inf == unreachable_cost(),
            0 <= i <= n,
            dp@.len() == n + 1,
            next@.len() == n + 1,
            forall|t: int| i <= t <= n ==> #[trigger] dp@[t] == break_plan(cs, t).0,
            forall|t: int| i <= t <= n ==> #[trigger] next@[t] == break_plan(cs, t).1,
        decreases i,
    {
        i -= 1;
        let row = &costs[i];
        assert(cs[i as int] == row@);
        let mut best: i64 = inf;
        let mut best_next: usize = n;
        let mut k: usize = 0;
        while k < row.len() && k < n - i
            invariant
                n == costs@.len(),
                n < usize::MAX,
                cs == costs@.map_values(|c: Vec<i64>| c@),
                cs[i as int] == row@,
                inf == unreachable_cost(),
                0 <= i < n,
                dp@.len() == n + 1,
                next@.len() == n + 1,
                forall|t: int| i < t <= n ==> #[trigger] dp@[t] == break_plan(cs, t).0,
                forall|t: int| i < t <= n ==> #[trigger] next@[t] == break_plan(cs, t).1,
                scan_lines(cs, i as int, k as int, best as int, best_next as int) == break_plan(
                    cs,
                    i as int,
                ),
            decreases row@.len() - k,
        {
            let j = i + k;
            let cand = sat_add_exec(row[k], dp[j + 1]);
            if cand < best {
                best = cand;
                best_next = j + 1;
            }
            k += 1;
        }
        dp.set(i, best);
        next.set(i, best_next);
    }
    if dp[0] >= inf {
        return None;
    }
    let mut out: Vec<usize> = Vec::new();
    let mut cursor: usize = 0;
    while cursor < n
        invariant
            n == costs@.len(),
            n >= 2,
            break_plan(cs, 0).0 < unreachable_cost(),
            cs == costs@.map_values(|c: Vec<i64>| c@),
            cursor <= n,
            next@.len() == n + 1,
            forall|t: int| 0 <= t <= n ==> #[trigger] next@[t] == break_plan(cs, t).1,
            break_chain(cs, 0) == match break_chain(cs, cursor as int) {
                Some(rest) => Some(out@ + rest),
                None => None::<Seq<usize>>,
            },
        decreases n - cursor,
    {
        let nx = next[cursor];
        if nx <= cursor || nx > n {
            return None;
        }
        out.push(nx);
        proof {
            let ghost before = out@.drop_last();
            match break_chain(cs, nx as int) {
                Some(rest) => {
                    assert(out@ + rest =~= before + (seq![nx] + rest));
                },
                None => {},
            }
        }
        cursor = nx;
    }
    assert(out@ + Seq::<usize>::empty() =~= out@);
    Some(out)
}

/// Total badness of breaking the words from `i` on at the line ends `ends`
/// (each the exclusive index of a line's last word), when every line fits
/// and the last ends the paragraph.
pub open spec fn segmentation_cost(costs: Seq<Seq<i64>>, i: int, ends: Seq<usize>) -> Option<int>
    decreases ends.len(),
{
    if ends.len() == 0 {
        if i == costs.len() {
            Some(0)
        } else {
            None
        }
    } else {
        let e = ends[0] as int;
        let k = e - i - 1;
        if 0 <= i < costs.len() && 0 <= k < costs[i].len() && e <= costs.len() {
            match segmentation_cost(costs, e, ends.drop_first()) {
                Some(c) => Some(costs[i][k] + c),
                None => None,
            }
        } else {
            None
        }
    }
}

/// Every listed line has a badness of zero or more.
pub open spec fn nonnegative_costs(costs: Seq<Seq<i64>>) -> bool {
    forall|a: int, b: int| 0 <= a < costs.len() && 0 <= b < costs[a].len() ==> costs[a][b] >= 0
}

proof fn lemma_plan_bounds(costs: Seq<Seq<i64>>, i: int)
    requires
        nonnegative_costs(costs),
    ensures
        0 <= break_plan(costs, i).0 <= unreachable_cost(),
    decreases costs.len() - i, 1int, 0int,
{
    if 0 <= i < costs.len() {
        lemma_scan_bounds(costs, i, 0, unreachable_cost(), costs.len() as int);
    }
}

proof fn lemma_scan_bounds(costs: Seq<Seq<i64>>, i: int, k: int, best: int, next: int)
    requires
        nonnegative_costs(costs),
        0 <= i < costs.len(),
        0 <= k,
        0 <= best <= unreachable_cost(),
    ensures
        0 <= scan_lines(costs, i, k, best, next).0 <= best,
    decreases costs.len() - i, 0int, costs[i].len() - k,
{
    if k < costs[i].len() && i + k < costs.len() {
        lemma_plan_bounds(costs, i + k + 1);
        let cand = sat_add_i64(costs[i][k] as int, break_plan(costs, i + k + 1).0);
        if cand < best {
            lemma_scan_bounds(costs, i, k + 1, cand, i + k + 1);
        } else {
            lemma_scan_bounds(costs, i, k + 1, best, next);
        }
    }
}

proof fn lemma_scan_le_candidate(costs: Seq<Seq<i64>>, i: int, k: int, best: int, next: int, k2: int)
    requires
        0 <= i < costs.len(),
        0 <= k <= k2 < costs[i].len(),
        i + k2 < costs.len(),
    ensures
        scan_lines(costs, i, k, best, next).0 <= sat_add_i64(
            costs[i][k2] as int,
            break_plan(costs, i + k2 + 1).0,
        ),
        scan_lines(costs, i, k, best, next).0 <= best,
    decreases k2 - k,
{
    let cand = sat_add_i64(costs[i][k] as int, break_plan(costs, i + k + 1).0);
    if k < k2 {
        if cand < best {
            lemma_scan_le_candidate(costs, i, k + 1, cand, i + k + 1, k2);
        } else {
            lemma_scan_le_candidate(costs, i, k + 1, best, next, k2);
        }
    } else {
        if cand < best {
            lemma_scan_le_best(costs, i, k + 1, cand, i + k + 1);
        } else {
            lemma_scan_le_best(costs, i, k + 1, best, next);
        }
    }
}

proof fn lemma_scan_le_best(costs: Seq<Seq<i64>>, i: int, k: int, best: int, next: int)
    requires
        0 <= i < costs.len(),
        0 <= k,
    ensures
        scan_lines(costs, i, k, best, next).0 <= best,
    decreases costs[i].len() - k,
{
    if k < costs[i].len() && i + k < costs.len() {
        let cand = sat_add_i64(costs[i][k] as int, break_plan(costs, i + k + 1).0);
        if cand < best {
            lemma_scan_le_best(costs, i, k + 1, cand, i + k + 1);
        } else {
            lemma_scan_le_best(costs, i, k + 1, best, next);
        }
    }
}

proof fn lemma_scan_witness(costs: Seq<Seq<i64>>, i: int, k: int, best: int, next: int)
    requires
        0 <= i < costs.len(),
        0 <= k,
    ensures
        ({
            let (v, nx) = scan_lines(costs, i, k, best, next);
            (v == best && nx == next) || exists|k2: int|
                k <= k2 < costs[i].len() && i + k2 < costs.len() && nx == i + k2 + 1 && v
                    == sat_add_i64(costs[i][k2] as int, break_plan(costs, i + k2 + 1).0)
        }),
    decreases costs[i].len() - k,
{
    if k < costs[i].len() && i + k < costs.len() {
        let cand = sat_add_i64(costs[i][k] as int, break_plan(costs, i + k + 1).0);
        if cand < best {
            lemma_scan_witness(costs, i, k + 1, cand, i + k + 1);
        } else {
            lemma_scan_witness(costs, i, k + 1, best, next);
        }
    }
}

proof fn lemma_plan_is_lower_bound(costs: Seq<Seq<i64>>, i: int, ends: Seq<usize>)
    requires
        nonnegative_costs(costs),
        0 <= i <= costs.len(),
    ensures
        segmentation_cost(costs, i, ends) matches Some(c) ==> break_plan(costs, i).0 <= c,
    decreases ends.len(),
{
    if ends.len() > 0 {
        let e = ends[0] as int;
        let k = e - i - 1;
        if 0 <= i < costs.len() && 0 <= k < costs[i].len() && e <= costs.len() {
            lemma_plan_is_lower_bound(costs, e, ends.drop_first());
            lemma_plan_bounds(costs, e);
            lemma_scan_le_candidate(costs, i, 0, unreachable_cost(), costs.len() as int, k);
        }
    }
}

proof fn lemma_plan_is_attained(costs: Seq<Seq<i64>>, i: int)
    requires
        nonnegative_costs(costs),
        costs.len() <= usize::MAX,
        0 <= i <= costs.len(),
        break_plan(costs, i).0 < unreachable_cost(),
    ensures
        break_chain(costs, i) matches Some(chosen) && segmentation_cost(costs, i, chosen) == Some(
            break_plan(costs, i).0,
        ),
    decreases costs.len() - i,
{
    if i < costs.len() {
        lemma_scan_witness(costs, i, 0, unreachable_cost(), costs.len() as int);
        let (v, nx) = break_plan(costs, i);
        let k2 = choose|k2: int|
            0 <= k2 < costs[i].len() && i + k2 < costs.len() && nx == i + k2 + 1 && v
                == sat_add_i64(costs[i][k2] as int, break_plan(costs, i + k2 + 1).0);
        lemma_plan_bounds(costs, nx);
        lemma_plan_is_attained(costs, nx);
        let rest = break_chain(costs, nx)->0;
        let chosen = seq![nx as usize] + rest;
        assert(chosen.drop_first() =~= rest);
        assert(chosen[0] as int == nx);
    } else {
        assert(break_chain(costs, i) == Some(Seq::<usize>::empty()));
    }
}

/// The chosen line breaks have the least total badness: no fitting way of
/// breaking the words from `i` on costs less than the plan, and when the
/// plan costs less than `unreachable_cost()` the breaks it follows fit and
/// cost exactly that much (badness of zero or more assumed).
pub proof fn law_breaks_have_least_badness(costs: Seq<Seq<i64>>, i: int, ends: Seq<usize>)
    requires
        nonnegative_costs(costs),
        costs.len() <= usize::MAX,
        0 <= i <= costs.len(),
    ensures
        segmentation_cost(costs, i, ends) matches Some(c) ==> break_plan(costs, i).0 <= c,
        break_plan(costs, i).0 < unreachable_cost() ==> (break_chain(costs, i) matches Some(
            chosen,
        ) && segmentation_cost(costs, i, chosen) == Some(break_plan(costs, i).0)),
{
    lemma_plan_is_lower_bound(costs, i, ends);
    if break_plan(costs, i).0 < unreachable_cost() {
        lemma_plan_is_attained(costs, i);
    }
}

} // verus!
