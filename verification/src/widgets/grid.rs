//! Grids of cells that are lit or dark, as a slide bar shows them.
use vstd::prelude::*;
use rand::seq::SliceRandom;

verus! {

/// The rows of `grid` as sequences.
pub open spec fn grid_model(grid: Seq<Vec<bool>>) -> Seq<Seq<bool>> {
    Seq::new(grid.len(), |r: int| grid[r]@)
}

/// A row of `cols` cells of which the first `lit` are lit.
pub open spec fn row_lit(cols: nat, lit: nat) -> Seq<bool> {
    Seq::new(cols, |c: int| c < lit)
}

/// A grid of `rows` by `cols` cells in which the first `lit` columns are lit.
pub open spec fn filled(rows: nat, cols: nat, lit: nat) -> Seq<Seq<bool>> {
    Seq::new(rows, |r: int| row_lit(cols, lit))
}

/// Whether `cell` is among the first `k` entries of `order`.
pub open spec fn listed(order: Seq<usize>, k: nat, cell: int) -> bool {
    exists|j: int| 0 <= j < k && j < order.len() && order[j] == cell
}

/// A grid of `rows` by `cols` cells in which exactly the cells named by
/// the first `num_true` entries of `order` are lit.  Cells are numbered
/// row by row; an entry that names no cell of the grid lights nothing.
pub open spec fn lit_by(rows: nat, cols: nat, order: Seq<usize>, num_true: nat) -> Seq<Seq<bool>> {
    Seq::new(rows, |r: int| Seq::new(cols, |c: int| listed(order, num_true, r * cols + c)))
}

/// The numbers `0 .. n` in order.
pub open spec fn iota(n: nat) -> Seq<usize> {
    Seq::new(n, |i: int| i as usize)
}

/// Whether `order` holds every number below `n` once and nothing else.
pub open spec fn is_permutation(order: Seq<usize>, n: nat) -> bool {
    order.to_multiset() == iota(n).to_multiset()
}

/// The numbers of the cells of `grid` that are lit, where cells are
/// numbered row by row with `cols` cells to the row.
pub open spec fn lit_cells(grid: Seq<Seq<bool>>, cols: nat) -> Set<usize> {
    Set::new(
        |cell: usize|
            cols > 0 && (cell as int) / (cols as int) < grid.len() && (cell as int) % (cols as int)
                < grid[(cell as int) / (cols as int)].len()
                && grid[(cell as int) / (cols as int)][(cell as int) % (cols as int)],
    )
}

pub open spec fn smaller(a: nat, b: nat) -> nat {
    if a < b {
        a
    } else {
        b
    }
}

/// An order that holds every number below `n` once is `n` long, holds
/// nothing twice and nothing that is not below `n`.
pub proof fn lemma_permutation_facts(order: Seq<usize>, n: nat)
    requires
        is_permutation(order, n),
        n <= usize::MAX,
    ensures
        order.len() == n,
        order.no_duplicates(),
        forall|j: int| 0 <= j < order.len() ==> (#[trigger] order[j]) < n,
{
    let all = iota(n);
    vstd::seq_lib::to_multiset_len(order);
    vstd::seq_lib::to_multiset_len(all);
    assert(all.no_duplicates());
    all.lemma_multiset_has_no_duplicates();
    order.lemma_multiset_has_no_duplicates_conv();
    assert forall|j: int| 0 <= j < order.len() implies (#[trigger] order[j]) < n by {
        let x = order[j];
        vstd::seq_lib::to_multiset_contains(order, x);
        vstd::seq_lib::to_multiset_contains(all, x);
        assert(order.contains(x));
        assert(all.contains(x));
        let i = choose|i: int| 0 <= i < all.len() && all[i] == x;
        assert(all[i] == i);
    }
}

/// A grid that is lit at random has as many lit cells as were asked for,
/// or all of them lit if more were asked for than there are.
pub proof fn lemma_random_cells_are_counted(
    rows: nat,
    cols: nat,
    order: Seq<usize>,
    num_true: nat,
)
    requires
        rows * cols <= usize::MAX,
        is_permutation(order, rows * cols),
    ensures
        lit_cells(lit_by(rows, cols, order, num_true), cols).finite(),
        lit_cells(lit_by(rows, cols, order, num_true), cols).len() == smaller(
            num_true,
            rows * cols,
        ),
{
    let total = rows * cols;
    let k = smaller(num_true, total);
    lemma_permutation_facts(order, total);
    let first = order.take(k as int);
    let grid = lit_by(rows, cols, order, num_true);
    let lit = lit_cells(grid, cols);
    assert(first.no_duplicates());
    first.unique_seq_to_set();
    vstd::seq_lib::seq_to_set_is_finite(first);
    assert forall|cell: usize| lit.contains(cell) <==> first.to_set().contains(cell) by {
        if lit.contains(cell) {
            let r = cell as int / cols as int;
            let c = cell as int % cols as int;
            vstd::arithmetic::div_mod::lemma_fundamental_div_mod(cell as int, cols as int);
            assert(r * cols + c == cell) by (nonlinear_arith)
                requires
                    cell == cols * r + c,
            ;
            assert(listed(order, num_true, r * cols + c));
            let j = choose|j: int| 0 <= j < num_true && j < order.len() && order[j] == cell;
            assert(first[j] == cell);
            assert(first.contains(cell));
        }
        if first.to_set().contains(cell) {
            assert(first.contains(cell));
            let j = choose|j: int| 0 <= j < first.len() && first[j] == cell;
            assert(order[j] == cell);
            assert(cell < total);
            assert(cols > 0) by (nonlinear_arith)
                requires
                    cell < rows * cols,
                    cell >= 0,
            ;
            let r = cell as int / cols as int;
            let c = cell as int % cols as int;
            vstd::arithmetic::div_mod::lemma_fundamental_div_mod(cell as int, cols as int);
            vstd::arithmetic::div_mod::lemma_mod_bound(cell as int, cols as int);
            vstd::arithmetic::div_mod::lemma_div_pos_is_pos(cell as int, cols as int);
            assert(r < rows) by {
                assert(cell < cols * rows) by (nonlinear_arith)
                    requires
                        cell < rows * cols,
                ;
                vstd::arithmetic::div_mod::lemma_multiply_divide_lt(
                    cell as int,
                    cols as int,
                    rows as int,
                );
            }
            assert(r * cols + c == cell) by (nonlinear_arith)
                requires
                    cell == cols * r + c,
            ;
            assert(listed(order, num_true, r * cols + c));
            assert(grid[r][c]);
        }
    }
    assert(lit =~= first.to_set());
}

pub fn make_row(cols: usize, lit: usize) -> (row: Vec<bool>)
    ensures
        row@ == row_lit(cols as nat, lit as nat),
{
    let mut row: Vec<bool> = Vec::new();
    let mut c: usize = 0;
    while c < cols
        invariant
            c <= cols,
            row@ == row_lit(c as nat, lit as nat),
        decreases cols - c,
    {
        row.push(c < lit);
        assert(row@ =~= row_lit((c + 1) as nat, lit as nat));
        c += 1;
    }
    row
}

/// A grid in which the first `lit` columns are lit.
pub fn make_filled(rows: usize, cols: usize, lit: usize) -> (grid: Vec<Vec<bool>>)
    ensures
        grid_model(grid@) == filled(rows as nat, cols as nat, lit as nat),
        grid@.len() == rows,
{
    let mut grid: Vec<Vec<bool>> = Vec::new();
    let mut r: usize = 0;
    while r < rows
        invariant
            r <= rows,
            grid@.len() == r,
            forall|i: int| 0 <= i < r ==> (#[trigger] grid@[i])@ == row_lit(cols as nat, lit as nat),
        decreases rows - r,
    {
        grid.push(make_row(cols, lit));
        r += 1;
    }
    assert(grid_model(grid@) =~= filled(rows as nat, cols as nat, lit as nat));
    grid
}

fn is_listed(order: &Vec<usize>, k: usize, cell: usize) -> (r: bool)
    ensures
        r == listed(order@, k as nat, cell as int),
{
    let mut j: usize = 0;
    while j < k && j < order.len()
        invariant
            forall|i: int| 0 <= i < j && i < k && i < order@.len() ==> order@[i] != cell,
        decreases order.len() - j,
    {
        if order[j] == cell {
            return true;
        }
        j += 1;
    }
    false
}

/// A grid in which exactly the cells named by the first `num_true` entries
/// of `order` are lit.
pub fn grid_from_positions(rows: usize, cols: usize, order: &Vec<usize>, num_true: usize) -> (grid:
    Vec<Vec<bool>>)
    requires
        rows * cols <= usize::MAX,
    ensures
        grid_model(grid@) == lit_by(rows as nat, cols as nat, order@, num_true as nat),
        grid@.len() == rows,
{
    let mut grid: Vec<Vec<bool>> = Vec::new();
    let mut r: usize = 0;
    while r < rows
        invariant
            r <= rows,
            rows * cols <= usize::MAX,
            grid@.len() == r,
            forall|i: int|
                0 <= i < r ==> (#[trigger] grid@[i])@ == Seq::new(
                    cols as nat,
                    |c: int| listed(order@, num_true as nat, i * cols + c),
                ),
        decreases rows - r,
    {
        let mut row: Vec<bool> = Vec::new();
        let mut c: usize = 0;
        assert(r * cols + cols <= rows * cols) by (nonlinear_arith)
            requires
                r < rows,
        ;
        let base = r * cols;
        while c < cols
            invariant
                c <= cols,
                base == r * cols,
                base + cols <= usize::MAX,
                row@ == Seq::new(c as nat, |x: int| listed(order@, num_true as nat, r * cols + x)),
            decreases cols - c,
        {
            row.push(is_listed(order, num_true, base + c));
            assert(row@ =~= Seq::new(
                (c + 1) as nat,
                |x: int| listed(order@, num_true as nat, r * cols + x),
            ));
            c += 1;
        }
        grid.push(row);
        r += 1;
    }
    assert(grid_model(grid@) =~= lit_by(rows as nat, cols as nat, order@, num_true as nat));
    grid
}

/// `shuffle` of `rand::seq::SliceRandom` with the generator of
/// `rand::thread_rng`: the elements are swapped among themselves, so the
/// result holds the same elements as before, each as often as before.
/// Which order comes out is left open.
#[verifier::external_body]
fn shuffle(positions: &mut Vec<usize>)
    ensures
        final(positions)@.to_multiset() == old(positions)@.to_multiset(),
{
    positions.shuffle(&mut rand::thread_rng());
}

/// The numbers `0 .. n` in order.
pub fn count_up(n: usize) -> (v: Vec<usize>)
    ensures
        v@ == iota(n as nat),
{
    let mut v: Vec<usize> = Vec::new();
    let mut i: usize = 0;
    while i < n
        invariant
            i <= n,
            v@ == iota(i as nat),
        decreases n - i,
    {
        v.push(i);
        assert(v@ =~= iota((i + 1) as nat));
        i += 1;
    }
    v
}

/// The numbers `0 .. n` in an order drawn at random.
pub fn random_order(n: usize) -> (order: Vec<usize>)
    ensures
        is_permutation(order@, n as nat),
{
    let mut v = count_up(n);
    shuffle(&mut v);
    v
}

/// A grid of `rows` by `cols` cells of which `num_true` cells, drawn at
/// random, are lit; all of them if `num_true` is more than there are.
pub fn fill_grid_with_true(rows: usize, cols: usize, num_true: usize) -> (grid: Vec<Vec<bool>>)
    requires
        rows * cols <= usize::MAX,
    ensures
        grid@.len() == rows,
        exists|order: Seq<usize>|
            is_permutation(order, (rows * cols) as nat) && grid_model(grid@) == lit_by(
                rows as nat,
                cols as nat,
                order,
                num_true as nat,
            ),
        lit_cells(grid_model(grid@), cols as nat).len() == smaller(
            num_true as nat,
            (rows * cols) as nat,
        ),
{
    let positions = random_order(rows * cols);
    proof {
        lemma_random_cells_are_counted(rows as nat, cols as nat, positions@, num_true as nat);
    }
    grid_from_positions(rows, cols, &positions, num_true)
}

} // verus!
