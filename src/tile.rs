//! Tiles placed on the board.
use crate::board::Board;
use crate::cell::{Cell, in_grid};
use crate::sampler::{SampleError, sample_unique};
use vstd::prelude::*;

verus! {

/// Value of every starting tile.
pub const STARTING_VALUE: u32 = 2;

/// Number of tiles placed when a session starts.
pub const STARTING_TILES: usize = 2;

/// A tile at a grid position, carrying a value.
#[derive(Clone, Copy, PartialEq, Eq, Structural, Debug)]
pub struct Tile {
    pub position: Cell,
    pub value: u32,
}

/// The decimal digit `d`, for `d < 10`.
pub open spec fn digit_char(d: nat) -> char {
    seq!['0', '1', '2', '3', '4', '5', '6', '7', '8', '9'][d as int]
}

/// The decimal numeral of `n`, without leading zeros.
pub open spec fn decimal(n: nat) -> Seq<char>
    decreases n,
{
    if n < 10 {
        seq![digit_char(n)]
    } else {
        decimal(n / 10).push(digit_char(n % 10))
    }
}

/// Relies on std's `ToString` for `u32`: the decimal numeral, no sign, no
/// leading zeros.
#[verifier::external_body]
fn decimal_string(v: u32) -> (r: String)
    ensures
        r@ == decimal(v as nat),
{
    v.to_string()
}

impl Tile {
    /// The text shown on the tile: its value in decimal.
    pub fn label(&self) -> (r: String)
        ensures
            r@ == decimal(self.value as nat),
    {
        decimal_string(self.value)
    }
}

/// The positions of `tiles`, in order.
pub open spec fn positions(tiles: Seq<Tile>) -> Seq<Cell> {
    tiles.map_values(|t: Tile| t.position)
}

/// No two tiles share a position, and every tile lies on an `n` by `n` grid.
pub open spec fn tiles_placed(n: nat, tiles: Seq<Tile>) -> bool {
    &&& positions(tiles).no_duplicates()
    &&& forall|i: int| 0 <= i < tiles.len() ==> in_grid(#[trigger] tiles[i].position, n)
}

/// A starting tile on each of `cells`, in order.
pub fn place_starting_tiles(cells: &Vec<Cell>) -> (r: Vec<Tile>)
    ensures
        r.len() == cells.len(),
        forall|j: int|
            0 <= j < r.len() ==> #[trigger] r@[j] == (Tile {
                position: cells@[j],
                value: STARTING_VALUE,
            }),
        positions(r@) == cells@,
{
    let mut tiles: Vec<Tile> = Vec::new();
    let mut i: usize = 0;
    while i < cells.len()
        invariant
            i <= cells.len(),
            tiles.len() == i,
            forall|j: int|
                0 <= j < i ==> #[trigger] tiles@[j] == (Tile {
                    position: cells@[j],
                    value: STARTING_VALUE,
                }),
        decreases cells.len() - i,
    {
        tiles.push(Tile { position: cells[i], value: STARTING_VALUE });
        i = i + 1;
    }
    assert(positions(tiles@) =~= cells@);
    tiles
}

/// The starting tiles of `board`: `STARTING_TILES` tiles of value
/// `STARTING_VALUE` on distinct cells chosen uniformly at random, or
/// `OutOfRange` when the board has fewer cells than that.
pub fn spawn_tiles(board: &Board) -> (r: Result<Vec<Tile>, SampleError>)
    ensures
        r is Ok <==> STARTING_TILES <= board@ * board@,
        r matches Err(e) ==> e == (SampleError::OutOfRange {
            requested: STARTING_TILES,
            capacity: (board@ * board@) as usize,
        }),
        r matches Ok(tiles) ==> {
            &&& tiles.len() == STARTING_TILES
            &&& tiles_placed(board@, tiles@)
            &&& forall|i: int| 0 <= i < tiles.len() ==> (#[trigger] tiles@[i]).value == STARTING_VALUE
        },
{
    match sample_unique(board.grid_size(), STARTING_TILES) {
        Ok(cells) => Ok(place_starting_tiles(&cells)),
        Err(e) => Err(e),
    }
}

} // verus!
