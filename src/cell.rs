//! Cell coordinates and the enumeration of a square grid.
use itertools::Itertools;
use vstd::prelude::*;

verus! {

/// A logical grid position `(x, y)`; on a board of `n` cells per side both
/// lie in `[0, n)`.
#[derive(Clone, Copy, PartialEq, Eq, Structural, Debug, Hash)]
pub struct Cell {
    pub x: u8,
    pub y: u8,
}

/// Whether `c` lies on a grid of `n` cells per side.
pub open spec fn in_grid(c: Cell, n: nat) -> bool {
    c.x < n && c.y < n
}

/// Every cell of an `n` by `n` grid, `x` major: index `j` holds `(j / n, j % n)`.
pub open spec fn grid_cells(n: nat) -> Seq<Cell> {
    Seq::new(n * n, |j: int| Cell { x: (j / (n as int)) as u8, y: (j % (n as int)) as u8 })
}

/// Index `j` of the enumeration splits into a row and a column inside the grid.
pub proof fn lemma_grid_index(n: nat, j: int)
    requires
        n > 0,
        0 <= j < n * n,
    ensures
        0 <= j / (n as int) < n,
        0 <= j % (n as int) < n,
        j == (j / (n as int)) * n + j % (n as int),
{
    let d = n as int;
    vstd::arithmetic::div_mod::lemma_fundamental_div_mod(j, d);
    vstd::arithmetic::div_mod::lemma_mod_bound(j, d);
    let q = j / d;
    let r = j % d;
    assert(0 <= q < d) by (nonlinear_arith)
        requires
            j == d * q + r,
            0 <= r < d,
            0 <= j < d * d,
    ;
    assert(j == q * d + r) by (nonlinear_arith)
        requires
            j == d * q + r,
    ;
}

/// Every cell of the enumeration lies on the grid.
pub proof fn lemma_grid_cells_in_grid(n: nat, j: int)
    requires
        n <= 255,
        0 <= j < n * n,
    ensures
        in_grid(grid_cells(n)[j], n),
{
    if n == 0 {
        assert(n * n == 0);
    } else {
        lemma_grid_index(n, j);
    }
}

/// A cell on the grid stands in the enumeration at index `x * n + y`.
pub proof fn lemma_grid_cells_position(n: nat, c: Cell)
    requires
        in_grid(c, n),
    ensures
        0 <= c.x * n + c.y < n * n,
        grid_cells(n)[c.x * n + c.y] == c,
{
    let j = c.x * n + c.y;
    assert(0 <= j < n * n) by (nonlinear_arith)
        requires
            j == c.x * n + c.y,
            0 <= c.x < n,
            0 <= c.y < n,
    ;
    vstd::arithmetic::div_mod::lemma_fundamental_div_mod_converse(j, n as int, c.x as int, c.y as int);
}

/// The enumeration names no cell twice.
pub proof fn lemma_grid_cells_distinct(n: nat)
    requires
        n <= 255,
    ensures
        grid_cells(n).no_duplicates(),
{
    let s = grid_cells(n);
    assert forall|i: int, j: int| 0 <= i < s.len() && 0 <= j < s.len() && i != j implies s[i]
        != s[j] by {
        if n > 0 {
            lemma_grid_index(n, i);
            lemma_grid_index(n, j);
        }
    }
}

/// The cells of an `n` by `n` grid, as a set.
pub open spec fn grid_set(n: nat) -> Set<Cell> {
    Set::new(|c: Cell| in_grid(c, n))
}

/// The enumeration holds exactly the cells of the grid, `n * n` of them.
pub proof fn lemma_grid_cells_cover(n: nat)
    requires
        n <= 255,
    ensures
        grid_cells(n).to_set() == grid_set(n),
        grid_set(n).finite(),
        grid_set(n).len() == n * n,
{
    let s = grid_cells(n);
    assert forall|c: Cell| s.to_set().contains(c) <==> grid_set(n).contains(c) by {
        if in_grid(c, n) {
            lemma_grid_cells_position(n, c);
            assert(s.contains(c));
        }
        if s.contains(c) {
            let j = choose|j: int| 0 <= j < s.len() && s[j] == c;
            lemma_grid_cells_in_grid(n, j);
        }
    }
    assert(s.to_set() =~= grid_set(n));
    lemma_grid_cells_distinct(n);
    s.unique_seq_to_set();
}

/// Any `n * n` distinct cells of an `n` by `n` grid are the whole grid.
pub proof fn lemma_full_selection_is_grid(n: nat, cells: Seq<Cell>)
    requires
        n <= 255,
        cells.len() == n * n,
        cells.no_duplicates(),
        forall|i: int| 0 <= i < cells.len() ==> in_grid(#[trigger] cells[i], n),
    ensures
        cells.to_set() == grid_set(n),
{
    lemma_grid_cells_cover(n);
    cells.unique_seq_to_set();
    assert(cells.to_set().subset_of(grid_set(n))) by {
        assert forall|c: Cell| cells.to_set().contains(c) implies grid_set(n).contains(c) by {
            let i = choose|i: int| 0 <= i < cells.len() && cells[i] == c;
        }
    }
    vstd::seq_lib::seq_to_set_is_finite(cells);
    vstd::set_lib::lemma_subset_equality(cells.to_set(), grid_set(n));
}

/// Every cell of an `n` by `n` grid, `x` major.
///
/// Relies on `itertools::Itertools::cartesian_product`: `(0..n) x (0..n)`
/// yields `(a, b)` for each `a` in order and, within it, each `b` in order.
#[verifier::external_body]
pub(crate) fn cartesian_cells(n: u8) -> (r: Vec<Cell>)
    ensures
        r@ == grid_cells(n as nat),
{
    (0..n).cartesian_product(0..n).map(|(x, y)| Cell { x, y }).collect()
}

} // verus!
