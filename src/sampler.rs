//! Choosing distinct grid cells at random, without replacement.
use crate::cell::{
    Cell,
    cartesian_cells,
    grid_set,
    in_grid,
    lemma_full_selection_is_grid,
    lemma_grid_cells_distinct,
    lemma_grid_cells_in_grid,
};
use rand::seq::IteratorRandom;
use vstd::prelude::*;

verus! {

/// Why a sample could not be drawn.
#[derive(Clone, Copy, PartialEq, Eq, Structural, Debug)]
pub enum SampleError {
    /// More distinct cells were asked for than the grid holds.
    OutOfRange { requested: usize, capacity: usize },
}

/// `amount` of the given cells, drawn uniformly at random; each one is taken
/// from a distinct position of `cells`.
///
/// Relies on `rand::seq::IteratorRandom::choose_multiple` over the thread's
/// random generator: a reservoir sample of `amount` slots (allocated up
/// front), which moves each input item into at most one slot and returns
/// `amount` items when the input has that many.
#[verifier::external_body]
fn choose_multiple_cells(cells: Vec<Cell>, amount: usize) -> (r: Vec<Cell>)
    requires
        amount <= cells.len(),
    ensures
        r.len() == amount,
        r@.to_multiset().subset_of(cells@.to_multiset()),
{
    cells.into_iter().choose_multiple(&mut rand::thread_rng(), amount)
}

/// What drawing `k` distinct cells of a `grid_size` by `grid_size` grid may
/// give: `k` distinct cells of the grid when it has at least `k` cells, and
/// `OutOfRange` otherwise.
pub open spec fn is_sample_outcome(grid_size: u8, k: usize, r: Result<Vec<Cell>, SampleError>) -> bool {
    &&& r is Ok <==> k <= grid_size * grid_size
    &&& r matches Err(e) ==> e == (SampleError::OutOfRange {
        requested: k,
        capacity: (grid_size * grid_size) as usize,
    })
    &&& r matches Ok(v) ==> {
        &&& v.len() == k
        &&& v@.no_duplicates()
        &&& forall|i: int| 0 <= i < v.len() ==> in_grid(#[trigger] v@[i], grid_size as nat)
    }
}

/// `k` distinct cells of a `grid_size` by `grid_size` grid, chosen uniformly
/// at random without replacement, or `OutOfRange` when the grid has fewer
/// than `k` cells.
pub fn sample_unique(grid_size: u8, k: usize) -> (r: Result<Vec<Cell>, SampleError>)
    ensures
        is_sample_outcome(grid_size, k, r),
{
    let cells = cartesian_cells(grid_size);
    let capacity = cells.len();
    if k > capacity {
        return Err(SampleError::OutOfRange { requested: k, capacity });
    }
    let ghost all = cells@;
    let chosen = choose_multiple_cells(cells, k);
    proof {
        let n = grid_size as nat;
        lemma_grid_cells_distinct(n);
        all.lemma_multiset_has_no_duplicates();
        assert forall|c: Cell| chosen@.to_multiset().contains(c) implies chosen@.to_multiset().count(
            c,
        ) == 1 by {
            assert(all.to_multiset().contains(c));
        }
        chosen@.lemma_multiset_has_no_duplicates_conv();
        assert forall|i: int| 0 <= i < chosen.len() implies in_grid(
            #[trigger] chosen@[i],
            grid_size as nat,
        ) by {
            let c = chosen@[i];
            assert(chosen@.to_multiset().contains(c)) by {
                vstd::seq_lib::to_multiset_contains(chosen@, c);
                assert(chosen@.contains(c));
            }
            assert(all.to_multiset().contains(c));
            vstd::seq_lib::to_multiset_contains(all, c);
            let j = choose|j: int| 0 <= j < all.len() && all[j] == c;
            lemma_grid_cells_in_grid(n, j);
        }
    }
    Ok(chosen)
}

/// Asking for as many cells as the grid holds always succeeds and yields
/// the whole grid, each cell once, in some order.
pub proof fn lemma_full_sample_is_grid(
    grid_size: u8,
    k: usize,
    r: Result<Vec<Cell>, SampleError>,
)
    requires
        k == grid_size * grid_size,
        is_sample_outcome(grid_size, k, r),
    ensures
        r matches Ok(v) && v@.to_set() == grid_set(grid_size as nat),
{
    assert(r is Ok);
    let v = r->Ok_0;
    lemma_full_selection_is_grid(grid_size as nat, v@);
}

} // verus!
