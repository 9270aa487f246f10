//! Minimum-cost assignment of windows to target regions.

use vstd::prelude::*;

use crate::num::saturating_add_i64;
use crate::num::saturating_sub_i64;

verus! {

/// Cost of placing a window in a region that it cannot take. It is also the
/// largest cost, in size, that the assignment accepts.
pub const INFEASIBLE_COST: i64 = 0x7ff_ffff_ffff_ffff;

/// Distance of a column that the search has not reached.
pub const UNREACHED_COST: i64 = 0x1fff_ffff_ffff_ffff;

/// `costs` has as many columns as rows, and every entry lies within the
/// accepted range.
pub open spec fn valid_costs(costs: Seq<Vec<i64>>) -> bool {
    forall|i: int| #![trigger costs[i]]
        0 <= i < costs.len() ==> {
            &&& costs[i]@.len() == costs.len()
            &&& forall|j: int|
                0 <= j < costs.len() ==> -INFEASIBLE_COST <= #[trigger] costs[i]@[j]
                    <= INFEASIBLE_COST
        }
}

/// `choice` gives each row a column of its own.
pub open spec fn is_assignment(choice: Seq<int>, count: nat) -> bool {
    &&& choice.len() == count
    &&& forall|i: int| 0 <= i < count ==> 0 <= #[trigger] choice[i] < count
    &&& forall|i: int, j: int|
        #![trigger choice[i], choice[j]]
        0 <= i < count && 0 <= j < count && choice[i] == choice[j] ==> i == j
}

/// What the first `rows` choices cost together.
pub open spec fn assignment_cost(costs: Seq<Vec<i64>>, choice: Seq<int>, rows: nat) -> int
    decreases rows,
{
    if rows == 0 {
        0
    } else {
        assignment_cost(costs, choice, (rows - 1) as nat) + costs[rows - 1]@[choice[rows - 1]]
    }
}

/// The choices of an executable assignment as integers.
pub open spec fn choices(assignment: Seq<usize>) -> Seq<int> {
    Seq::new(assignment.len(), |i: int| assignment[i] as int)
}

/// Cost of the cell at row `i` and column `j`, both counted from one, once the
/// potentials are taken off.
spec fn slack(costs: Seq<Vec<i64>>, u: Seq<i64>, v: Seq<i64>, i: int, j: int) -> int {
    costs[i - 1]@[j - 1] - u[i] - v[j]
}

/// The columns of `m` hold exactly the rows below `row`, each once.
spec fn matching(m: Seq<usize>, n: int, row: int) -> bool {
    &&& m.len() == n + 1
    &&& forall|j: int| 1 <= j <= n ==> 0 <= #[trigger] m[j] < row
    &&& forall|j: int, k: int|
        #![trigger m[j], m[k]]
        1 <= j <= n && 1 <= k <= n && m[j] == m[k] && m[j] > 0 ==> j == k
    &&& forall|i: int| 1 <= i < row ==> #[trigger] holds_row(m, n, i)
}

/// Some column of `m` holds row `i`.
spec fn holds_row(m: Seq<usize>, n: int, i: int) -> bool {
    exists|j: int| 1 <= j <= n && #[trigger] m[j] == i
}

/// Rows below `row` have no negative slack.
spec fn feasible(costs: Seq<Vec<i64>>, u: Seq<i64>, v: Seq<i64>, n: int, row: int) -> bool {
    forall|i: int, j: int|
        1 <= i < row && 1 <= j <= n ==> #[trigger] slack(costs, u, v, i, j) >= 0
}

/// Every matched cell has no slack left.
spec fn tight(costs: Seq<Vec<i64>>, u: Seq<i64>, v: Seq<i64>, m: Seq<usize>, n: int) -> bool {
    forall|j: int|
        1 <= j <= n && #[trigger] m[j] > 0 ==> slack(costs, u, v, m[j] as int, j) == 0
}

/// Column potentials are never positive, and zero on unmatched columns.
spec fn settled_columns(v: Seq<i64>, m: Seq<usize>, n: int) -> bool {
    forall|j: int|
        1 <= j <= n ==> #[trigger] v[j] <= 0 && (m[j] == 0 ==> v[j] == 0)
}

/// The state between two row insertions.
spec fn inserted(
    costs: Seq<Vec<i64>>,
    u: Seq<i64>,
    v: Seq<i64>,
    m: Seq<usize>,
    n: int,
    row: int,
) -> bool {
    &&& u.len() == n + 1
    &&& v.len() == n + 1
    &&& matching(m, n, row)
    &&& feasible(costs, u, v, n, row)
    &&& tight(costs, u, v, m, n)
    &&& settled_columns(v, m, n)
    &&& forall|i: int| row <= i <= n ==> #[trigger] u[i] == 0
}

/// The alternating search from `row` has visited the columns of `path`, in that
/// order, and holds in `minimum` the least slack from a visited row to each
/// column that it has not visited.
spec fn searching(
    costs: Seq<Vec<i64>>,
    u: Seq<i64>,
    v: Seq<i64>,
    m: Seq<usize>,
    previous: Seq<usize>,
    minimum: Seq<i64>,
    used: Seq<bool>,
    path: Seq<int>,
    n: int,
    row: int,
) -> bool {
    &&& previous.len() == n + 1
    &&& minimum.len() == n + 1
    &&& used.len() == n + 1
    &&& path.no_duplicates()
    &&& forall|p: int| 0 <= p < path.len() ==> 0 <= #[trigger] path[p] <= n && used[path[p]]
    &&& forall|j: int| 0 <= j <= n && #[trigger] used[j] ==> path.contains(j)
    &&& path.len() > 0 ==> path[0] == 0
    &&& forall|p: int|
        1 <= p < path.len() ==> {
            let k = #[trigger] path[p];
            &&& k > 0
            &&& m[k] > 0
            &&& exists|q: int| 0 <= q < p && previous[k] == #[trigger] path[q]
            &&& slack(costs, u, v, m[previous[k] as int] as int, k) == 0
        }
    &&& forall|j: int|
        1 <= j <= n && !(#[trigger] used[j]) && path.len() > 0 ==> {
            &&& 0 <= previous[j] <= n
            &&& used[previous[j] as int]
            &&& minimum[j] == slack(costs, u, v, m[previous[j] as int] as int, j)
        }
    &&& forall|j: int, k: int|
        #![trigger used[j], used[k]]
        1 <= j <= n && !used[j] && 0 <= k <= n && used[k] ==> minimum[j] <= slack(
            costs,
            u,
            v,
            m[k] as int,
            j,
        )
    &&& path.len() == 0 ==> forall|j: int| 0 <= j <= n ==> #[trigger] minimum[j] == UNREACHED_COST
}

/// Lowers the distance of each unvisited column by the cells of `active_row`,
/// and finds the nearest unvisited column.
fn relax(
    costs: &[Vec<i64>],
    active_row: usize,
    column: usize,
    used: &Vec<bool>,
    row_potential: &Vec<i64>,
    column_potential: &Vec<i64>,
    minimum: &mut Vec<i64>,
    previous_column: &mut Vec<usize>,
) -> (nearest: (i64, usize))
    requires
        valid_costs(costs@),
        1 <= active_row <= costs@.len(),
        used@.len() == costs@.len() + 1,
        row_potential@.len() == costs@.len() + 1,
        column_potential@.len() == costs@.len() + 1,
        old(minimum)@.len() == costs@.len() + 1,
        old(previous_column)@.len() == costs@.len() + 1,
        -INFEASIBLE_COST <= row_potential@[active_row as int] <= INFEASIBLE_COST,
        forall|j: int|
            1 <= j <= costs@.len() ==> -2 * INFEASIBLE_COST <= #[trigger] column_potential@[j]
                <= 0,
    ensures
        final(minimum)@.len() == old(minimum)@.len(),
        final(previous_column)@.len() == old(previous_column)@.len(),
        forall|j: int|
            0 <= j <= costs@.len() && (j == 0 || used@[j]) ==> {
                &&& #[trigger] final(minimum)@[j] == old(minimum)@[j]
                &&& final(previous_column)@[j] == old(previous_column)@[j]
            },
        forall|j: int|
            #![trigger final(minimum)@[j]]
            1 <= j <= costs@.len() && !used@[j] ==> {
                let reduced = slack(
                    costs@,
                    row_potential@,
                    column_potential@,
                    active_row as int,
                    j,
                );
                &&& reduced < old(minimum)@[j] ==> final(minimum)@[j] == reduced
                    && final(previous_column)@[j] == column
                &&& reduced >= old(minimum)@[j] ==> final(minimum)@[j] == old(minimum)@[j]
                    && final(previous_column)@[j] == old(previous_column)@[j]
                &&& nearest.0 <= final(minimum)@[j]
            },
        nearest.0 <= UNREACHED_COST,
        nearest.0 < UNREACHED_COST ==> {
            &&& 1 <= nearest.1 <= costs@.len()
            &&& !used@[nearest.1 as int]
            &&& final(minimum)@[nearest.1 as int] == nearest.0
        },
{
    let size: usize = used.len();
    let ghost count = costs@.len() as int;
    let ghost minimum0 = minimum@;
    let ghost previous0 = previous_column@;
    let mut delta: i64 = UNREACHED_COST;
    let mut next_column: usize = 0;
    let mut candidate_column: usize = 1;
    while candidate_column < size
        invariant
            count == costs@.len(),
            size == count + 1,
            valid_costs(costs@),
            1 <= active_row <= count,
            1 <= candidate_column <= count + 1,
            used@.len() == count + 1,
            row_potential@.len() == count + 1,
            column_potential@.len() == count + 1,
            minimum@.len() == count + 1,
            previous_column@.len() == count + 1,
            minimum0 == old(minimum)@,
            minimum0.len() == count + 1,
            previous0 == old(previous_column)@,
            previous0.len() == count + 1,
            -INFEASIBLE_COST <= row_potential@[active_row as int] <= INFEASIBLE_COST,
            forall|j: int|
                1 <= j <= count ==> -2 * INFEASIBLE_COST <= #[trigger] column_potential@[j] <= 0,
            forall|j: int|
                #![trigger minimum@[j]]
                #![trigger previous_column@[j]]
                0 <= j <= count && (j == 0 || used@[j] || j >= candidate_column) ==> {
                    &&& minimum@[j] == minimum0[j]
                    &&& previous_column@[j] == previous0[j]
                },
            forall|j: int|
                #![trigger minimum@[j]]
                #![trigger previous_column@[j]]
                1 <= j < candidate_column && !used@[j] ==> {
                    let reduced = slack(
                        costs@,
                        row_potential@,
                        column_potential@,
                        active_row as int,
                        j,
                    );
                    &&& reduced < minimum0[j] ==> minimum@[j] == reduced
                        && previous_column@[j] == column
                    &&& reduced >= minimum0[j] ==> minimum@[j] == minimum0[j]
                        && previous_column@[j] == previous0[j]
                    &&& delta <= minimum@[j]
                },
            delta <= UNREACHED_COST,
            delta < UNREACHED_COST ==> {
                &&& 1 <= next_column < candidate_column
                &&& !used@[next_column as int]
                &&& minimum@[next_column as int] == delta
            },
        decreases size - candidate_column,
    {
        if !used[candidate_column] {
            let reduced: i64 = saturating_sub_i64(
                saturating_sub_i64(
                    costs[active_row - 1][candidate_column - 1],
                    row_potential[active_row],
                ),
                column_potential[candidate_column],
            );
            proof {
                let row_costs = costs@[active_row - 1];
                assert(-INFEASIBLE_COST <= row_costs@[candidate_column - 1] <= INFEASIBLE_COST);
                assert(reduced == slack(
                    costs@,
                    row_potential@,
                    column_potential@,
                    active_row as int,
                    candidate_column as int,
                ));
            }
            if reduced < minimum[candidate_column] {
                minimum.set(candidate_column, reduced);
                previous_column.set(candidate_column, column);
            }
            if minimum[candidate_column] < delta {
                delta = minimum[candidate_column];
                next_column = candidate_column;
            }
        }
        candidate_column += 1;
    }
    (delta, next_column)
}

/// Row `i` is held by a visited column.
spec fn visited_row(m: Seq<usize>, used: Seq<bool>, n: int, i: int) -> bool {
    exists|k: int| 0 <= k <= n && used[k] && #[trigger] m[k] == i
}

/// Moves the potentials of the visited rows and columns by `delta`, and brings
/// the unvisited columns nearer by as much.
fn shift(
    matched_row: &Vec<usize>,
    used: &Vec<bool>,
    delta: i64,
    row_potential: &mut Vec<i64>,
    column_potential: &mut Vec<i64>,
    minimum: &mut Vec<i64>,
)
    requires
        used@.len() > 0,
        matched_row@.len() == used@.len(),
        old(row_potential)@.len() == used@.len(),
        old(column_potential)@.len() == used@.len(),
        old(minimum)@.len() == used@.len(),
        forall|k: int| 0 <= k < used@.len() ==> #[trigger] matched_row@[k] < used@.len(),
        forall|j: int, k: int|
            #![trigger matched_row@[j], matched_row@[k]]
            0 <= j < used@.len() && 0 <= k < used@.len() && used@[j] && used@[k]
                && matched_row@[j] == matched_row@[k] ==> j == k,
        forall|k: int|
            #![trigger used@[k]]
            0 <= k < used@.len() ==> {
                &&& used@[k] ==> i64::MIN <= old(row_potential)@[matched_row@[k] as int] + delta
                    <= i64::MAX
                &&& used@[k] && k > 0 ==> i64::MIN <= old(column_potential)@[k] - delta
                    <= i64::MAX
                &&& !used@[k] ==> i64::MIN <= old(minimum)@[k] - delta <= i64::MAX
            },
    ensures
        final(row_potential)@.len() == used@.len(),
        final(column_potential)@.len() == used@.len(),
        final(minimum)@.len() == used@.len(),
        forall|k: int|
            #![trigger used@[k]]
            0 <= k < used@.len() ==> {
                &&& used@[k] ==> final(row_potential)@[matched_row@[k] as int] == old(
                    row_potential,
                )@[matched_row@[k] as int] + delta
                &&& used@[k] && k > 0 ==> final(column_potential)@[k] == old(column_potential)@[k]
                    - delta
                &&& !used@[k] ==> final(column_potential)@[k] == old(column_potential)@[k]
                &&& !used@[k] ==> final(minimum)@[k] == old(minimum)@[k] - delta
            },
        forall|i: int|
            0 <= i < used@.len() && !visited_row(matched_row@, used@, used@.len() - 1, i)
                ==> #[trigger] final(row_potential)@[i] == old(row_potential)@[i],
{
    let size: usize = used.len();
    let ghost u0 = row_potential@;
    let ghost v0 = column_potential@;
    let ghost minimum0 = minimum@;
    let mut column: usize = 0;
    while column < size
        invariant
            column <= size,
            size == used@.len(),
            matched_row@.len() == size,
            u0.len() == size,
            v0.len() == size,
            minimum0.len() == size,
            row_potential@.len() == size,
            column_potential@.len() == size,
            minimum@.len() == size,
            forall|k: int| 0 <= k < size ==> #[trigger] matched_row@[k] < size,
            forall|j: int, k: int|
                #![trigger matched_row@[j], matched_row@[k]]
                0 <= j < size && 0 <= k < size && used@[j] && used@[k] && matched_row@[j]
                    == matched_row@[k] ==> j == k,
            forall|k: int|
                #![trigger used@[k]]
                0 <= k < size ==> {
                    &&& used@[k] ==> i64::MIN <= u0[matched_row@[k] as int] + delta <= i64::MAX
                    &&& used@[k] && k > 0 ==> i64::MIN <= v0[k] - delta <= i64::MAX
                    &&& !used@[k] ==> i64::MIN <= minimum0[k] - delta <= i64::MAX
                },
            forall|k: int|
                #![trigger used@[k]]
                #![trigger matched_row@[k]]
                0 <= k < size && used@[k] ==> row_potential@[matched_row@[k] as int]
                    == u0[matched_row@[k] as int] + (if k < column {
                    delta as int
                } else {
                    0
                }),
            forall|k: int|
                #![trigger column_potential@[k]]
                0 <= k < size ==> {
                    &&& used@[k] && 0 < k < column ==> column_potential@[k] == v0[k] - delta
                    &&& !used@[k] || k >= column ==> column_potential@[k] == v0[k]
                },
            forall|k: int|
                #![trigger minimum@[k]]
                0 <= k < size ==> {
                    &&& !used@[k] && k < column ==> minimum@[k] == minimum0[k] - delta
                    &&& used@[k] || k >= column ==> minimum@[k] == minimum0[k]
                },
            forall|i: int|
                0 <= i < size && !visited_row(matched_row@, used@, size - 1, i)
                    ==> #[trigger] row_potential@[i] == u0[i],
        decreases size - column,
    {
        if used[column] {
            let row: usize = matched_row[column];
            assert(visited_row(matched_row@, used@, size - 1, row as int));
            row_potential.set(row, saturating_add_i64(row_potential[row], delta));
            column_potential.set(column, saturating_sub_i64(column_potential[column], delta));
        } else {
            minimum.set(column, saturating_sub_i64(minimum[column], delta));
        }
        column += 1;
    }
}

/// The state while `row` is being inserted; `started` once its potential is set.
spec fn inserting(
    costs: Seq<Vec<i64>>,
    u: Seq<i64>,
    v: Seq<i64>,
    m: Seq<usize>,
    n: int,
    row: int,
    started: bool,
) -> bool {
    &&& 1 <= row <= n
    &&& u.len() == n + 1
    &&& v.len() == n + 1
    &&& matching(m, n, row)
    &&& m[0] == row
    &&& feasible(costs, u, v, n, if started { row + 1 } else { row })
    &&& tight(costs, u, v, m, n)
    &&& settled_columns(v, m, n)
    &&& forall|i: int| row < i <= n ==> #[trigger] u[i] == 0
    &&& if started { u[row] >= -INFEASIBLE_COST } else { u[row] == 0 }
}

/// Fewer rows than columns leave a column free.
proof fn lemma_free_column(m: Seq<usize>, n: int, row: int) -> (f: int)
    requires
        matching(m, n, row),
        1 <= row <= n,
    ensures
        1 <= f <= n,
        m[f] == 0,
{
    if forall|j: int| 1 <= j <= n ==> #[trigger] m[j] > 0 {
        let held = Seq::new(n as nat, |j: int| m[j + 1] as int);
        assert forall|a: int, b: int| 0 <= a < n && 0 <= b < n && a != b implies held[a]
            != held[b] by {
            if held[a] == held[b] {
                assert(m[a + 1] == m[b + 1]);
            }
        }
        assert(held.no_duplicates());
        held.unique_seq_to_set();
        let rows = vstd::set_lib::set_int_range(1, row);
        vstd::set_lib::lemma_int_range(1, row);
        assert forall|x: int| held.to_set().contains(x) implies rows.contains(x) by {
            let a = choose|a: int| 0 <= a < n && held[a] == x;
            assert(m[a + 1] == x);
        }
        vstd::set_lib::lemma_len_subset(held.to_set(), rows);
        assert(false);
    }
    choose|j: int| 1 <= j <= n && #[trigger] m[j] == 0
}

/// Potentials stay within a fixed multiple of the largest cost.
proof fn lemma_potential_bounds(
    costs: Seq<Vec<i64>>,
    u: Seq<i64>,
    v: Seq<i64>,
    m: Seq<usize>,
    n: int,
    row: int,
    started: bool,
)
    requires
        valid_costs(costs),
        costs.len() == n,
        inserting(costs, u, v, m, n, row, started),
    ensures
        forall|i: int|
            1 <= i <= row ==> -INFEASIBLE_COST <= #[trigger] u[i] <= INFEASIBLE_COST,
        forall|j: int| 1 <= j <= n ==> -2 * INFEASIBLE_COST <= #[trigger] v[j] <= 0,
{
    let f = lemma_free_column(m, n, row);
    assert forall|i: int| 1 <= i <= row implies -INFEASIBLE_COST <= #[trigger] u[i]
        <= INFEASIBLE_COST by {
        let row_costs = costs[i - 1];
        assert(-INFEASIBLE_COST <= row_costs@[f - 1] <= INFEASIBLE_COST);
        if i < row || started {
            assert(slack(costs, u, v, i, f) >= 0);
            assert(v[f] == 0);
        }
        if i < row {
            assert(holds_row(m, n, i));
            let j = choose|j: int| 1 <= j <= n && #[trigger] m[j] == i;
            assert(slack(costs, u, v, m[j] as int, j) == 0);
            assert(-INFEASIBLE_COST <= row_costs@[j - 1] <= INFEASIBLE_COST);
            assert(v[j] <= 0);
        }
    }
    assert forall|j: int| 1 <= j <= n implies -2 * INFEASIBLE_COST <= #[trigger] v[j] <= 0 by {
        if m[j] > 0 {
            let i = m[j] as int;
            assert(slack(costs, u, v, i, j) == 0);
            let row_costs = costs[i - 1];
            assert(-INFEASIBLE_COST <= row_costs@[j - 1] <= INFEASIBLE_COST);
            assert(u[i] <= INFEASIBLE_COST);
        }
    }
}

/// Visiting `column` and relaxing its row keeps the search state.
proof fn lemma_relaxed(
    costs: Seq<Vec<i64>>,
    u: Seq<i64>,
    v: Seq<i64>,
    m: Seq<usize>,
    n: int,
    row: int,
    column: int,
    path: Seq<int>,
    used: Seq<bool>,
    previous: Seq<usize>,
    minimum: Seq<i64>,
    previous1: Seq<usize>,
    minimum1: Seq<i64>,
)
    requires
        valid_costs(costs),
        costs.len() == n,
        inserting(costs, u, v, m, n, row, path.len() > 0),
        searching(costs, u, v, m, previous, minimum, used, path, n, row),
        0 <= column <= n,
        !used[column],
        path.len() == 0 ==> column == 0,
        path.len() > 0 ==> column > 0 && m[column] > 0 && minimum[column] == 0,
        minimum1.len() == n + 1,
        previous1.len() == n + 1,
        forall|j: int|
            0 <= j <= n && (j == 0 || used.update(column, true)[j]) ==> {
                &&& #[trigger] minimum1[j] == minimum[j]
                &&& previous1[j] == previous[j]
            },
        forall|j: int|
            #![trigger minimum1[j]]
            1 <= j <= n && !used.update(column, true)[j] ==> {
                let reduced = slack(costs, u, v, m[column] as int, j);
                &&& reduced < minimum[j] ==> minimum1[j] == reduced && previous1[j]
                    == column
                &&& reduced >= minimum[j] ==> minimum1[j] == minimum[j] && previous1[j]
                    == previous[j]
            },
    ensures
        searching(
            costs,
            u,
            v,
            m,
            previous1,
            minimum1,
            used.update(column, true),
            path.push(column),
            n,
            row,
        ),
        forall|j: int|
            #![trigger minimum1[j]]
            1 <= j <= n && !used.update(column, true)[j] ==> -2 * INFEASIBLE_COST <= minimum1[j]
                <= 4 * INFEASIBLE_COST,
        forall|j: int|
            1 <= j <= n && !used.update(column, true)[j] && path.len() > 0
                ==> #[trigger] minimum1[j] >= 0,
        forall|j: int|
            1 <= j <= n && #[trigger] m[j] == 0 ==> !used.update(column, true)[j],
{
    let used1 = used.update(column, true);
    let path1 = path.push(column);
    lemma_potential_bounds(costs, u, v, m, n, row, path.len() > 0);
    assert(!path.contains(column)) by {
        if path.contains(column) {
            let p = choose|p: int| 0 <= p < path.len() && path[p] == column;
            assert(used[path[p]]);
        }
    }
    assert(path1.no_duplicates());
    assert forall|j: int| 0 <= j <= n && #[trigger] used1[j] implies path1.contains(j) by {
        if j == column {
            assert(path1[path.len() as int] == column);
        } else {
            assert(used[j]);
            let p = choose|p: int| 0 <= p < path.len() && path[p] == j;
            assert(path1[p] == j);
        }
    }
    assert forall|k: int| 0 <= k <= n && #[trigger] used1[k] implies 1 <= m[k] <= row by {
        if k == column {
            if k == 0 {
                assert(m[0] == row);
            }
        } else {
            assert(used[k]);
            let p = choose|p: int| 0 <= p < path.len() && path[p] == k;
            if p > 0 {
                assert(m[path[p]] > 0);
            }
        }
    }
    assert forall|j: int, k: int|
        1 <= j <= n && 0 <= k <= n && #[trigger] used1[k] implies -2 * INFEASIBLE_COST
        <= #[trigger] slack(costs, u, v, m[k] as int, j) <= 4 * INFEASIBLE_COST by {
        let row_costs = costs[m[k] - 1];
        assert(-INFEASIBLE_COST <= row_costs@[j - 1] <= INFEASIBLE_COST);
        assert(-INFEASIBLE_COST <= u[m[k] as int] <= INFEASIBLE_COST);
        assert(-2 * INFEASIBLE_COST <= v[j] <= 0);
    }
    assert forall|p: int| 1 <= p < path1.len() implies {
        let k = #[trigger] path1[p];
        &&& k > 0
        &&& m[k] > 0
        &&& exists|q: int| 0 <= q < p && previous1[k] == #[trigger] path1[q]
        &&& slack(costs, u, v, m[previous1[k] as int] as int, k) == 0
    } by {
        let k = path1[p];
        assert(used1[k]);
        if p < path.len() {
            assert(path[p] == k);
            let q = choose|q: int| 0 <= q < p && previous[k] == #[trigger] path[q];
            assert(path1[q] == path[q]);
            assert(minimum1[k] == minimum[k]);
        } else {
            assert(k == column);
            assert(!used[k]);
            assert(minimum1[k] == minimum[k]);
            assert(used[previous[k] as int]);
            let q = choose|q: int| 0 <= q < path.len() && path[q] == previous[k] as int;
            assert(path1[q] == path[q]);
        }
    }
    assert forall|j: int| 1 <= j <= n && !(#[trigger] used1[j]) implies {
        &&& 0 <= previous1[j] <= n
        &&& used1[previous1[j] as int]
        &&& minimum1[j] == slack(costs, u, v, m[previous1[j] as int] as int, j)
    } by {
        assert(!used[j]);
        assert(used1[column]);
        let reduced = slack(costs, u, v, m[column] as int, j);
        assert(-2 * INFEASIBLE_COST <= reduced <= 4 * INFEASIBLE_COST);
        if path.len() == 0 {
            assert(minimum[j] == UNREACHED_COST);
        }
        assert(!used.update(column, true)[j]);
        if reduced < minimum[j] {
            assert(minimum1[j] == reduced);
            assert(previous1[j] == column);
        } else {
            assert(minimum1[j] == minimum[j] && previous1[j] == previous[j]);
            assert(used[previous[j] as int]);
        }
    }
    assert forall|j: int, k: int|
        #![trigger used1[j], used1[k]]
        1 <= j <= n && !used1[j] && 0 <= k <= n && used1[k] implies minimum1[j] <= slack(
        costs,
        u,
        v,
        m[k] as int,
        j,
    ) by {
        assert(!used[j]);
        if k != column {
            assert(used[k]);
        }
    }
    assert forall|j: int| #![trigger minimum1[j]] 1 <= j <= n && !used1[j] implies -2
        * INFEASIBLE_COST <= minimum1[j] <= 4 * INFEASIBLE_COST by {
        assert(used1[previous1[j] as int]);
    }
    assert forall|j: int| 1 <= j <= n && !used1[j] && path.len() > 0 implies
        #[trigger] minimum1[j] >= 0 by {
        let k = previous1[j] as int;
        assert(used1[k]);
        assert(slack(costs, u, v, m[k] as int, j) >= 0);
    }
}

/// Moving the potentials by the least distance keeps the search state, and makes
/// the nearest column tight.
proof fn lemma_shifted(
    costs: Seq<Vec<i64>>,
    u: Seq<i64>,
    v: Seq<i64>,
    m: Seq<usize>,
    n: int,
    row: int,
    path: Seq<int>,
    used: Seq<bool>,
    previous: Seq<usize>,
    minimum: Seq<i64>,
    delta: int,
    u1: Seq<i64>,
    v1: Seq<i64>,
    minimum1: Seq<i64>,
)
    requires
        valid_costs(costs),
        costs.len() == n,
        path.len() > 0,
        inserting(costs, u, v, m, n, row, path.len() > 1),
        searching(costs, u, v, m, previous, minimum, used, path, n, row),
        forall|j: int|
            #![trigger minimum[j]]
            1 <= j <= n && !used[j] ==> delta <= minimum[j],
        exists|j: int| 1 <= j <= n && !used[j] && delta == #[trigger] minimum[j],
        path.len() > 1 ==> delta >= 0,
        forall|j: int| 1 <= j <= n && #[trigger] m[j] == 0 ==> !used[j],
        u1.len() == n + 1,
        v1.len() == n + 1,
        minimum1.len() == n + 1,
        forall|k: int|
            #![trigger used[k]]
            0 <= k <= n ==> {
                &&& used[k] ==> u1[m[k] as int] == u[m[k] as int] + delta
                &&& used[k] && k > 0 ==> v1[k] == v[k] - delta
                &&& !used[k] ==> v1[k] == v[k]
                &&& !used[k] ==> minimum1[k] == minimum[k] - delta
            },
        forall|i: int|
            0 <= i <= n && !visited_row(m, used, n, i) ==> #[trigger] u1[i] == u[i],
    ensures
        inserting(costs, u1, v1, m, n, row, true),
        searching(costs, u1, v1, m, previous, minimum1, used, path, n, row),
{
    assert(used[path[0]]);
    assert forall|k: int| 0 <= k <= n && #[trigger] used[k] implies 1 <= m[k] <= row && (k > 0
        ==> path.len() > 1 && m[k] < row) by {
        let p = choose|p: int| 0 <= p < path.len() && path[p] == k;
        if p > 0 {
            assert(m[path[p]] > 0);
        }
    }
    assert forall|k: int, j: int|
        0 <= k <= n && #[trigger] used[k] && 1 <= j <= n && used[j] implies #[trigger] slack(
        costs,
        u1,
        v1,
        m[k] as int,
        j,
    ) == slack(costs, u, v, m[k] as int, j) by {}
    assert forall|k: int, j: int|
        0 <= k <= n && #[trigger] used[k] && 1 <= j <= n && !used[j] implies #[trigger] slack(
        costs,
        u1,
        v1,
        m[k] as int,
        j,
    ) == slack(costs, u, v, m[k] as int, j) - delta by {}
    assert forall|i: int, j: int| 1 <= i < row + 1 && 1 <= j <= n implies #[trigger] slack(
        costs,
        u1,
        v1,
        i,
        j,
    ) >= 0 by {
        if visited_row(m, used, n, i) {
            let k = choose|k: int| 0 <= k <= n && used[k] && #[trigger] m[k] == i;
            assert(used[k]);
            if used[j] {
                assert(path.len() > 1);
                assert(slack(costs, u, v, i, j) >= 0);
                assert(slack(costs, u1, v1, m[k] as int, j) == slack(costs, u, v, m[k] as int, j));
            } else {
                assert(minimum[j] <= slack(costs, u, v, m[k] as int, j));
                assert(slack(costs, u1, v1, m[k] as int, j) == slack(costs, u, v, m[k] as int, j)
                    - delta);
            }
        } else {
            if i == row {
                assert(m[0] == row && used[0]);
            }
            assert(i < row);
            assert(slack(costs, u, v, i, j) >= 0);
            assert(u1[i] == u[i]);
            if used[j] {
                assert(path.len() > 1);
            }
        }
    }
    assert forall|j: int| 1 <= j <= n && #[trigger] m[j] > 0 implies slack(
        costs,
        u1,
        v1,
        m[j] as int,
        j,
    ) == 0 by {
        assert(slack(costs, u, v, m[j] as int, j) == 0);
        if used[j] {
            assert(slack(costs, u1, v1, m[j] as int, j) == slack(costs, u, v, m[j] as int, j));
        } else {
            if visited_row(m, used, n, m[j] as int) {
                let k = choose|k: int| 0 <= k <= n && used[k] && #[trigger] m[k] == m[j] as int;
                assert(used[k]);
                if k == 0 {
                    assert(m[j] < row);
                }
                assert(k == j);
            }
            assert(u1[m[j] as int] == u[m[j] as int]);
        }
    }
    assert forall|j: int| 1 <= j <= n implies #[trigger] v1[j] <= 0 && (m[j] == 0 ==> v1[j]
        == 0) by {
        assert(v[j] <= 0);
        if used[j] {
            assert(path.len() > 1);
        }
        if m[j] == 0 {
            assert(!used[j]);
        }
    }
    assert forall|i: int| row < i <= n implies #[trigger] u1[i] == 0 by {
        if visited_row(m, used, n, i) {
            let k = choose|k: int| 0 <= k <= n && used[k] && #[trigger] m[k] == i;
            assert(used[k]);
        }
    }
    assert(u1[row] >= -INFEASIBLE_COST) by {
        assert(used[0]);
        assert(u1[m[0] as int] == u[m[0] as int] + delta);
        if path.len() == 1 {
            let j = choose|j: int| 1 <= j <= n && !used[j] && delta == #[trigger] minimum[j];
            assert(!used[j]);
            let k = previous[j] as int;
            assert(used[k]);
            assert(path.contains(k));
            assert(k == 0);
            assert(minimum[j] == slack(costs, u, v, row, j));
            let row_costs = costs[row - 1];
            assert(-INFEASIBLE_COST <= row_costs@[j - 1] <= INFEASIBLE_COST);
            assert(v[j] <= 0);
        }
    }
    assert forall|p: int| 1 <= p < path.len() implies {
        let k = #[trigger] path[p];
        slack(costs, u1, v1, m[previous[k] as int] as int, k) == 0
    } by {
        let k = path[p];
        assert(used[k]);
        let q = choose|q: int| 0 <= q < p && previous[k] == #[trigger] path[q];
        assert(used[path[q]]);
        assert(used[previous[k] as int]);
        assert(slack(costs, u1, v1, m[previous[k] as int] as int, k) == slack(
            costs,
            u,
            v,
            m[previous[k] as int] as int,
            k,
        ));
    }
    assert forall|j: int| 1 <= j <= n && !(#[trigger] used[j]) implies minimum1[j] == slack(
        costs,
        u1,
        v1,
        m[previous[j] as int] as int,
        j,
    ) by {
        assert(used[previous[j] as int]);
        assert(slack(costs, u1, v1, m[previous[j] as int] as int, j) == slack(
            costs,
            u,
            v,
            m[previous[j] as int] as int,
            j,
        ) - delta);
    }
    assert forall|j: int, k: int|
        #![trigger used[j], used[k]]
        1 <= j <= n && !used[j] && 0 <= k <= n && used[k] implies minimum1[j] <= slack(
        costs,
        u1,
        v1,
        m[k] as int,
        j,
    ) by {
        assert(slack(costs, u1, v1, m[k] as int, j) == slack(costs, u, v, m[k] as int, j) - delta);
    }
}

/// A search path is no longer than the number of columns.
proof fn lemma_path_length(path: Seq<int>, n: int)
    requires
        n >= 0,
        path.no_duplicates(),
        forall|p: int| 0 <= p < path.len() ==> 0 <= #[trigger] path[p] <= n,
    ensures
        path.len() <= n + 1,
{
    path.unique_seq_to_set();
    vstd::set_lib::lemma_int_range(0, n + 1);
    let columns = vstd::set_lib::set_int_range(0, n + 1);
    assert(path.to_set().subset_of(columns));
    vstd::set_lib::lemma_len_subset(path.to_set(), columns);
}

/// The matching part-way through the shift back along the search: `m` is a
/// matching once column `hole` is left out, and the columns visited before
/// position `rank` of the path still hold what they held in `m1`.
spec fn shifted(
    costs: Seq<Vec<i64>>,
    u: Seq<i64>,
    v: Seq<i64>,
    m1: Seq<usize>,
    m: Seq<usize>,
    previous: Seq<usize>,
    path: Seq<int>,
    rank: int,
    n: int,
    row: int,
    hole: int,
) -> bool {
    let rows = if hole == 0 { row + 1 } else { row };
    &&& 1 <= row <= n
    &&& m.len() == n + 1
    &&& m1.len() == n + 1
    &&& previous.len() == n + 1
    &&& u.len() == n + 1
    &&& v.len() == n + 1
    &&& 0 <= hole <= n
    &&& m[0] == row
    &&& 0 <= rank <= path.len()
    &&& path.no_duplicates()
    &&& path.len() > 0
    &&& path[0] == 0
    &&& m1[0] == row
    &&& hole == 0 <==> rank == 0
    &&& rank < path.len() ==> path[rank] == hole
    &&& rank == path.len() ==> !path.contains(hole)
    &&& forall|p: int| 0 <= p < path.len() ==> 0 <= #[trigger] path[p] <= n
    &&& forall|p: int| 0 <= p < rank ==> m[#[trigger] path[p]] == m1[path[p]]
    &&& forall|p: int| 1 <= p < path.len() ==> 1 <= m1[#[trigger] path[p]] < row
    &&& forall|p: int|
        #![trigger path[p]]
        1 <= p < path.len() ==> {
            &&& exists|q: int| 0 <= q < p && previous[path[p]] == #[trigger] path[q]
            &&& slack(costs, u, v, m1[previous[path[p]] as int] as int, path[p]) == 0
        }
    &&& hole > 0 ==> {
        &&& exists|q: int| 0 <= q < rank && previous[hole] == #[trigger] path[q]
        &&& slack(costs, u, v, m1[previous[hole] as int] as int, hole) == 0
    }
    &&& forall|j: int| 1 <= j <= n && j != hole ==> 0 <= #[trigger] m[j] < rows
    &&& forall|j: int, k: int|
        #![trigger m[j], m[k]]
        1 <= j <= n && 1 <= k <= n && j != hole && k != hole && m[j] == m[k] && m[j] > 0 ==> j
            == k
    &&& forall|i: int| 1 <= i < rows ==> #[trigger] holds_row_beside(m, n, i, hole)
    &&& forall|j: int|
        1 <= j <= n && j != hole && #[trigger] m[j] > 0 ==> slack(costs, u, v, m[j] as int, j)
            == 0
    &&& forall|j: int|
        1 <= j <= n && j != hole ==> (#[trigger] m[j] == 0 ==> m1[j] == 0)
}

/// Some column other than `hole` holds row `i`.
spec fn holds_row_beside(m: Seq<usize>, n: int, i: int, hole: int) -> bool {
    exists|j: int| 1 <= j <= n && j != hole && #[trigger] m[j] == i
}

/// One step of the shift back fills the hole from the column before it.
proof fn lemma_shift_back(
    costs: Seq<Vec<i64>>,
    u: Seq<i64>,
    v: Seq<i64>,
    m1: Seq<usize>,
    m: Seq<usize>,
    previous: Seq<usize>,
    path: Seq<int>,
    rank: int,
    rank1: int,
    n: int,
    row: int,
    hole: int,
)
    requires
        shifted(costs, u, v, m1, m, previous, path, rank, n, row, hole),
        hole > 0,
        0 <= rank1 < rank,
        path[rank1] == previous[hole],
    ensures
        shifted(
            costs,
            u,
            v,
            m1,
            m.update(hole, m[previous[hole] as int]),
            previous,
            path,
            rank1,
            n,
            row,
            previous[hole] as int,
        ),
{
    let prior = previous[hole] as int;
    let next = m.update(hole, m[prior]);
    let rows = if prior == 0 { row + 1 } else { row };
    assert(prior == path[rank1]);
    assert(prior != hole) by {
        if rank < path.len() {
            assert(path[rank] == hole);
        } else {
            assert(!path.contains(path[rank1]) || path[rank1] != hole);
        }
    }
    assert(m[prior] == m1[prior]);
    if rank1 == 0 {
        assert(prior == 0);
    } else {
        assert(path[0] == 0);
        assert(prior != 0);
    }
    assert forall|p: int| 0 <= p < rank1 implies next[#[trigger] path[p]] == m1[path[p]] by {
        assert(m[path[p]] == m1[path[p]]);
        if rank < path.len() {
            assert(path[p] != path[rank]);
        } else {
            assert(path.contains(path[p]));
        }
    }
    assert forall|i: int| 1 <= i < rows implies #[trigger] holds_row_beside(next, n, i, prior) by {
        if i == row {
            assert(next[hole] == row);
        } else {
            assert(holds_row_beside(m, n, i, hole));
            let j = choose|j: int| 1 <= j <= n && j != hole && #[trigger] m[j] == i;
            if j == prior {
                assert(next[hole] == i);
            } else {
                assert(next[j] == i);
            }
        }
    }
    assert forall|j: int| 1 <= j <= n && j != prior implies 0 <= #[trigger] next[j] < rows by {
        if j != hole {
            assert(m[j] < row);
        }
    }
    assert forall|j: int, k: int|
        #![trigger next[j], next[k]]
        1 <= j <= n && 1 <= k <= n && j != prior && k != prior && next[j] == next[k] && next[j] > 0
            implies j == k by {
        if j == hole && k != hole {
            assert(m[k] == m[prior]);
            assert(m[k] < row);
            assert(prior != 0);
        }
        if k == hole && j != hole {
            assert(m[j] == m[prior]);
            assert(m[j] < row);
            assert(prior != 0);
        }
        if j != hole && k != hole {
            assert(m[j] == m[k]);
        }
    }
    assert forall|j: int| 1 <= j <= n && j != prior && #[trigger] next[j] > 0 implies slack(
        costs,
        u,
        v,
        next[j] as int,
        j,
    ) == 0 by {
        if j != hole {
            assert(m[j] > 0);
        }
    }
    assert forall|j: int| 1 <= j <= n && j != prior && #[trigger] next[j] == 0 implies m1[j]
        == 0 by {
        if j == hole {
            if rank1 > 0 {
                assert(m1[path[rank1]] >= 1);
            }
        } else {
            assert(m[j] == 0);
        }
    }
}

/// The shift back begins with the free column that the search reached.
proof fn lemma_shift_start(
    costs: Seq<Vec<i64>>,
    u: Seq<i64>,
    v: Seq<i64>,
    m: Seq<usize>,
    previous: Seq<usize>,
    minimum: Seq<i64>,
    used: Seq<bool>,
    path: Seq<int>,
    n: int,
    row: int,
    column: int,
)
    requires
        path.len() > 0,
        inserting(costs, u, v, m, n, row, true),
        searching(costs, u, v, m, previous, minimum, used, path, n, row),
        1 <= column <= n,
        !used[column],
        m[column] == 0,
        minimum[column] == 0,
    ensures
        shifted(costs, u, v, m, m, previous, path, path.len() as int, n, row, column),
{
    assert(!path.contains(column)) by {
        if path.contains(column) {
            let p = choose|p: int| 0 <= p < path.len() && path[p] == column;
            assert(used[path[p]]);
        }
    }
    assert(used[previous[column] as int]);
    assert(path.contains(previous[column] as int));
    let q = choose|q: int| 0 <= q < path.len() && path[q] == previous[column] as int;
    assert(previous[column] == path[q]);
    assert forall|i: int| 1 <= i < row implies #[trigger] holds_row_beside(m, n, i, column) by {
        assert(holds_row(m, n, i));
        let j = choose|j: int| 1 <= j <= n && #[trigger] m[j] == i;
        assert(m[j] == i);
    }
    assert forall|p: int| 1 <= p < path.len() implies 1 <= m[#[trigger] path[p]] < row by {
        assert(m[path[p]] > 0);
    }
}

/// With no hole left the row is inserted.
proof fn lemma_shift_end(
    costs: Seq<Vec<i64>>,
    u: Seq<i64>,
    v: Seq<i64>,
    m1: Seq<usize>,
    m: Seq<usize>,
    previous: Seq<usize>,
    path: Seq<int>,
    n: int,
    row: int,
    rank: int,
)
    requires
        inserting(costs, u, v, m1, n, row, true),
        shifted(costs, u, v, m1, m, previous, path, rank, n, row, 0),
    ensures
        inserted(costs, u, v, m, n, row + 1),
{
    assert forall|i: int| 1 <= i < row + 1 implies #[trigger] holds_row(m, n, i) by {
        assert(holds_row_beside(m, n, i, 0));
        let j = choose|j: int| 1 <= j <= n && j != 0 && #[trigger] m[j] == i;
        assert(m[j] == i);
    }
    assert forall|j: int| 1 <= j <= n implies #[trigger] v[j] <= 0 && (m[j] == 0 ==> v[j] == 0) by {
        if m[j] == 0 {
            assert(m1[j] == 0);
        }
    }
}

/// Inserts `row` into the matching: grows an alternating search from it until a
/// free column is nearest, then shifts the matched rows along the way back.
fn insert_row(
    costs: &[Vec<i64>],
    row: usize,
    row_potential: &mut Vec<i64>,
    column_potential: &mut Vec<i64>,
    matched_row: &mut Vec<usize>,
    previous_column: &mut Vec<usize>,
)
    requires
        valid_costs(costs@),
        1 <= row <= costs@.len(),
        old(previous_column)@.len() == costs@.len() + 1,
        inserted(
            costs@,
            old(row_potential)@,
            old(column_potential)@,
            old(matched_row)@,
            costs@.len() as int,
            row as int,
        ),
    ensures
        final(previous_column)@.len() == costs@.len() + 1,
        inserted(
            costs@,
            final(row_potential)@,
            final(column_potential)@,
            final(matched_row)@,
            costs@.len() as int,
            row + 1,
        ),
{
    let ghost n = costs@.len() as int;
    let size: usize = matched_row.len();
    let ghost m0 = matched_row@;
    matched_row.set(0, row);
    let mut column: usize = 0;
    let mut minimum: Vec<i64> = vec![UNREACHED_COST; size];
    let mut used: Vec<bool> = vec![false; size];
    let ghost mut path: Seq<int> = Seq::empty();
    assert forall|i: int| 1 <= i < row implies #[trigger] holds_row(matched_row@, n, i) by {
        assert(holds_row(m0, n, i));
        let j = choose|j: int| 1 <= j <= n && #[trigger] m0[j] == i;
        assert(matched_row@[j] == i);
    }
    assert(feasible(costs@, row_potential@, column_potential@, n, row as int));
    assert(inserting(
        costs@,
        row_potential@,
        column_potential@,
        matched_row@,
        n,
        row as int,
        false,
    ));
    loop
        invariant_except_break
            n == costs@.len(),
            size == n + 1,
            valid_costs(costs@),
            inserting(
                costs@,
                row_potential@,
                column_potential@,
                matched_row@,
                n,
                row as int,
                path.len() > 0,
            ),
            searching(
                costs@,
                row_potential@,
                column_potential@,
                matched_row@,
                previous_column@,
                minimum@,
                used@,
                path,
                n,
                row as int,
            ),
            0 <= column <= n,
            !used@[column as int],
            path.len() == 0 ==> column == 0,
            path.len() > 0 ==> column > 0 && matched_row@[column as int] > 0
                && minimum@[column as int] == 0,
        ensures
            path.len() > 0,
            inserting(
                costs@,
                row_potential@,
                column_potential@,
                matched_row@,
                n,
                row as int,
                true,
            ),
            searching(
                costs@,
                row_potential@,
                column_potential@,
                matched_row@,
                previous_column@,
                minimum@,
                used@,
                path,
                n,
                row as int,
            ),
            1 <= column <= n,
            !used@[column as int],
            matched_row@[column as int] == 0,
            minimum@[column as int] == 0,
        decreases n + 1 - path.len(),
    {
        let ghost u0 = row_potential@;
        let ghost v0 = column_potential@;
        let ghost minimum0 = minimum@;
        let ghost previous0 = previous_column@;
        let ghost used0 = used@;
        let ghost path0 = path;
        let ghost free = lemma_free_column(matched_row@, n, row as int);
        proof {
            lemma_potential_bounds(costs@, u0, v0, matched_row@, n, row as int, path.len() > 0);
        }
        used.set(column, true);
        let active_row: usize = matched_row[column];
        let (delta, next_column) = relax(
            costs,
            active_row,
            column,
            &used,
            row_potential,
            column_potential,
            &mut minimum,
            previous_column,
        );
        proof {
            path = path0.push(column as int);
            lemma_relaxed(
                costs@,
                u0,
                v0,
                matched_row@,
                n,
                row as int,
                column as int,
                path0,
                used0,
                previous0,
                minimum0,
                previous_column@,
                minimum@,
            );
            assert(!used@[free]);
            assert(minimum@[free] <= 4 * INFEASIBLE_COST);
            lemma_path_length(path, n);
        }
        let ghost minimum1 = minimum@;
        shift(matched_row, &used, delta, row_potential, column_potential, &mut minimum);
        proof {
            lemma_shifted(
                costs@,
                u0,
                v0,
                matched_row@,
                n,
                row as int,
                path,
                used@,
                previous_column@,
                minimum1,
                delta as int,
                row_potential@,
                column_potential@,
                minimum@,
            );
        }
        column = next_column;
        if matched_row[column] == 0 {
            break;
        }
    }
    let ghost u = row_potential@;
    let ghost v = column_potential@;
    let ghost m1 = matched_row@;
    let ghost mut rank: int = path.len() as int;
    proof {
        lemma_shift_start(
            costs@,
            u,
            v,
            m1,
            previous_column@,
            minimum@,
            used@,
            path,
            n,
            row as int,
            column as int,
        );
    }
    loop
        invariant_except_break
            column > 0,
            shifted(
                costs@,
                u,
                v,
                m1,
                matched_row@,
                previous_column@,
                path,
                rank,
                n,
                row as int,
                column as int,
            ),
        ensures
            shifted(
                costs@,
                u,
                v,
                m1,
                matched_row@,
                previous_column@,
                path,
                rank,
                n,
                row as int,
                0,
            ),
        decreases rank,
    {
        let prior: usize = previous_column[column];
        let ghost before = matched_row@;
        let ghost column0 = column as int;
        let ghost rank0 = rank;
        matched_row.set(column, matched_row[prior]);
        column = prior;
        proof {
            rank = choose|q: int| 0 <= q < rank0 && #[trigger] path[q] == prior;
            lemma_shift_back(
                costs@,
                u,
                v,
                m1,
                before,
                previous_column@,
                path,
                rank0,
                rank,
                n,
                row as int,
                column0,
            );
        }
        if column == 0 {
            break;
        }
    }
    proof {
        lemma_shift_end(
            costs@,
            u,
            v,
            m1,
            matched_row@,
            previous_column@,
            path,
            n,
            row as int,
            rank,
        );
    }
}

/// The sum of the first `count` entries of `values`.
spec fn total(values: Seq<int>, count: nat) -> int
    decreases count,
{
    if count == 0 {
        0
    } else {
        total(values, (count - 1) as nat) + values[count - 1]
    }
}

/// The entries of `values` picked by `choice`.
spec fn picked(values: Seq<int>, choice: Seq<int>) -> Seq<int> {
    Seq::new(choice.len(), |i: int| values[choice[i]])
}

/// Totals agree where the first entries do.
proof fn lemma_total_agrees(a: Seq<int>, b: Seq<int>, count: nat)
    requires
        forall|i: int| 0 <= i < count ==> a[i] == b[i],
    ensures
        total(a, count) == total(b, count),
    decreases count,
{
    if count > 0 {
        lemma_total_agrees(a, b, (count - 1) as nat);
    }
}

/// Replacing one entry moves the total by the difference.
proof fn lemma_total_update(a: Seq<int>, k: int, x: int, count: nat)
    requires
        0 <= k < count <= a.len(),
    ensures
        total(a.update(k, x), count) == total(a, count) - a[k] + x,
    decreases count,
{
    if k == count - 1 {
        lemma_total_agrees(a.update(k, x), a, (count - 1) as nat);
    } else {
        lemma_total_update(a, k, x, (count - 1) as nat);
    }
}

/// An assignment reorders the values it picks from, so their total stays.
proof fn lemma_total_picked(values: Seq<int>, choice: Seq<int>, count: nat)
    requires
        values.len() >= count,
        is_assignment(choice, count),
    ensures
        total(picked(values, choice), count) == total(values, count),
    decreases count,
{
    if count > 0 {
        let top = count - 1;
        assert(exists|k: int| 0 <= k < count && choice[k] == top) by {
            if forall|k: int| 0 <= k < count ==> #[trigger] choice[k] != top {
                choice.unique_seq_to_set();
                vstd::set_lib::lemma_int_range(0, top);
                let below = vstd::set_lib::set_int_range(0, top);
                assert forall|x: int| choice.to_set().contains(x) implies below.contains(x) by {
                    let k = choose|k: int| 0 <= k < choice.len() && choice[k] == x;
                    assert(choice[k] != top);
                }
                vstd::set_lib::lemma_len_subset(choice.to_set(), below);
                assert(false);
            }
        }
        let k = choose|k: int| 0 <= k < count && choice[k] == top;
        let swapped = choice.update(k, choice[top]).take(top);
        assert forall|i: int, j: int|
            #![trigger swapped[i], swapped[j]]
            0 <= i < top && 0 <= j < top && swapped[i] == swapped[j] implies i == j by {
            let a = if i == k { top } else { i };
            let b = if j == k { top } else { j };
            assert(choice[a] == swapped[i]);
            assert(choice[b] == swapped[j]);
        }
        assert forall|i: int| 0 <= i < top implies 0 <= #[trigger] swapped[i] < top by {
            let a = if i == k { top } else { i };
            assert(choice[a] == swapped[i]);
            assert(a != k);
        }
        lemma_total_picked(values, swapped, top as nat);
        let before = picked(values, choice);
        let after = before.update(k, values[choice[top]]);
        lemma_total_agrees(picked(values, swapped), after, top as nat);
        if k < top {
            lemma_total_update(before, k, values[choice[top]], top as nat);
        } else {
            lemma_total_agrees(before, after, top as nat);
        }
    }
}

/// The least cost of any assignment is at least what the potentials sum to.
proof fn lemma_cost_bound(
    costs: Seq<Vec<i64>>,
    u: Seq<i64>,
    v: Seq<i64>,
    choice: Seq<int>,
    n: nat,
    rows: nat,
    exact: bool,
)
    requires
        costs.len() == n,
        u.len() == n + 1,
        v.len() == n + 1,
        rows <= n,
        is_assignment(choice, n),
        feasible(costs, u, v, n as int, n as int + 1),
        exact ==> forall|i: int|
            0 <= i < n ==> #[trigger] slack(costs, u, v, i + 1, choice[i] + 1) == 0,
    ensures
        ({
            let bound = total(Seq::new(n, |i: int| u[i + 1] as int), rows) + total(
                picked(Seq::new(n, |j: int| v[j + 1] as int), choice),
                rows,
            );
            if exact {
                assignment_cost(costs, choice, rows) == bound
            } else {
                assignment_cost(costs, choice, rows) >= bound
            }
        }),
    decreases rows,
{
    if rows > 0 {
        lemma_cost_bound(costs, u, v, choice, n, (rows - 1) as nat, exact);
        let i = rows - 1;
        assert(slack(costs, u, v, i + 1, choice[i] + 1) >= 0);
    }
}

/// Once every row is inserted every column is matched.
proof fn lemma_all_matched(m: Seq<usize>, n: int)
    requires
        n >= 0,
        matching(m, n, n + 1),
    ensures
        forall|j: int| 1 <= j <= n ==> #[trigger] m[j] > 0,
{
    assert forall|f: int| 1 <= f <= n implies #[trigger] m[f] > 0 by {
        if m[f] == 0 {
            let column_of = |i: int| choose|j: int| 1 <= j <= n && #[trigger] m[j] == i + 1;
            let columns = Seq::new(n as nat, column_of);
            assert forall|i: int| 0 <= i < n implies 1 <= #[trigger] columns[i] <= n
                && m[columns[i]] == i + 1 by {
                assert(holds_row(m, n, i + 1));
                let j = choose|j: int| 1 <= j <= n && #[trigger] m[j] == i + 1;
                assert(columns[i] == j);
            }
            assert(columns.no_duplicates());
            columns.unique_seq_to_set();
            let rest = vstd::set_lib::set_int_range(1, n + 1).remove(f);
            vstd::set_lib::lemma_int_range(1, n + 1);
            assert forall|x: int| columns.to_set().contains(x) implies rest.contains(x) by {
                let i = choose|i: int| 0 <= i < columns.len() && columns[i] == x;
                assert(m[columns[i]] == i + 1);
            }
            vstd::set_lib::lemma_len_subset(columns.to_set(), rest);
            assert(false);
        }
    }
}

/// Assigns each row a column of its own at the least total cost.
pub fn minimum_cost_assignment(costs: &[Vec<i64>]) -> (assignment: Vec<usize>)
    requires
        valid_costs(costs@),
        costs@.len() < usize::MAX,
    ensures
        is_assignment(choices(assignment@), costs@.len()),
        forall|other: Seq<int>|
            is_assignment(other, costs@.len()) ==> assignment_cost(
                costs@,
                choices(assignment@),
                costs@.len(),
            ) <= #[trigger] assignment_cost(costs@, other, costs@.len()),
{
    let count: usize = costs.len();
    let mut row_potential: Vec<i64> = vec![0i64; count + 1];
    let mut column_potential: Vec<i64> = vec![0i64; count + 1];
    let mut matched_row: Vec<usize> = vec![0usize; count + 1];
    let mut previous_column: Vec<usize> = vec![0usize; count + 1];
    let mut row: usize = 1;
    while row <= count
        invariant
            count == costs@.len(),
            count < usize::MAX,
            valid_costs(costs@),
            1 <= row <= count + 1,
            previous_column@.len() == count + 1,
            inserted(
                costs@,
                row_potential@,
                column_potential@,
                matched_row@,
                count as int,
                row as int,
            ),
        decreases count + 1 - row,
    {
        insert_row(
            costs,
            row,
            &mut row_potential,
            &mut column_potential,
            &mut matched_row,
            &mut previous_column,
        );
        row += 1;
    }
    proof {
        lemma_all_matched(matched_row@, count as int);
    }
    let mut assignment: Vec<usize> = vec![0usize; count];
    let mut column: usize = 1;
    while column <= count
        invariant
            1 <= column <= count + 1,
            count < usize::MAX,
            assignment@.len() == count,
            matching(matched_row@, count as int, count + 1),
            forall|j: int|
                1 <= j <= count ==> #[trigger] matched_row@[j] > 0,
            forall|j: int|
                1 <= j < column ==> assignment@[#[trigger] matched_row@[j] - 1] == j - 1,
        decreases count + 1 - column,
    {
        assignment.set(matched_row[column] - 1, column - 1);
        column += 1;
    }
    proof {
        let n = costs@.len();
        let choice = choices(assignment@);
        assert forall|i: int| 0 <= i < n implies 0 <= #[trigger] choice[i] < n
            && matched_row@[choice[i] + 1] == i + 1 by {
            assert(holds_row(matched_row@, n as int, i + 1));
            let j = choose|j: int| 1 <= j <= n && #[trigger] matched_row@[j] == i + 1;
            assert(assignment@[matched_row@[j] - 1] == j - 1);
        }
        let u = row_potential@;
        let v = column_potential@;
        assert forall|i: int| 0 <= i < n implies #[trigger] slack(
            costs@,
            u,
            v,
            i + 1,
            choice[i] + 1,
        ) == 0 by {
            let j = choice[i] + 1;
            assert(matched_row@[j] == i + 1);
            assert(slack(costs@, u, v, matched_row@[j] as int, j) == 0);
        }
        let values = Seq::new(n, |j: int| v[j + 1] as int);
        lemma_cost_bound(costs@, u, v, choice, n, n, true);
        lemma_total_picked(values, choice, n);
        assert forall|other: Seq<int>| is_assignment(other, n) implies assignment_cost(
            costs@,
            choice,
            n,
        ) <= #[trigger] assignment_cost(costs@, other, n) by {
            lemma_cost_bound(costs@, u, v, other, n, n, false);
            lemma_total_picked(values, other, n);
        }
    }
    assignment
}

} // verus!
