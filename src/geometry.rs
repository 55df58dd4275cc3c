//! Pixel geometry of a square grid of tiles.
//!
//! A board of `size` cells per side, with tiles of `tile_length` pixels and a
//! gap of `spacing` pixels between tiles and around the outer edge, is
//! `size * tile_length + (size + 1) * spacing` pixels wide. Cell centres are
//! laid out so that the grid is centred on the origin. A centre may fall on a
//! half pixel, so the general centre function works in half-pixel units: it
//! returns twice the centre, which is always a whole number.
use vstd::prelude::*;

verus! {

/// Side of one tile, in pixels.
pub const TILE_SIZE: u32 = 40;

/// Gap between neighbouring tiles and around the board's edge, in pixels.
pub const TILE_SPACER: u32 = 10;

/// Width (and height) of a board of `size` cells per side.
pub open spec fn footprint_of(size: int, tile_length: int, spacing: int) -> int {
    size * tile_length + (size + 1) * spacing
}

/// Twice the pixel centre of the cell at `index` along one axis.
///
/// The centre is `-footprint / 2 + tile_length / 2 + index * tile_length + (index + 1) * spacing`.
pub open spec fn doubled_center_of(index: int, size: int, tile_length: int, spacing: int) -> int {
    2 * (index * tile_length + (index + 1) * spacing) + tile_length - footprint_of(
        size,
        tile_length,
        spacing,
    )
}

/// Width (and height) in pixels of a board of `size` cells per side.
pub fn footprint(size: u8, tile_length: u32, spacing: u32) -> (r: u64)
    ensures
        r == footprint_of(size as int, tile_length as int, spacing as int),
{
    let n = size as u64;
    let t = tile_length as u64;
    let s = spacing as u64;
    assert(n * t <= 255 * 0xffff_ffff) by (nonlinear_arith)
        requires
            n <= 255,
            t <= 0xffff_ffff,
    ;
    assert((n + 1) * s <= 256 * 0xffff_ffff) by (nonlinear_arith)
        requires
            n <= 255,
            s <= 0xffff_ffff,
    ;
    n * t + (n + 1) * s
}

/// Twice the pixel centre, along one axis, of the cell at `index` on a board
/// of `size` cells per side.
pub fn doubled_cell_center(index: u8, size: u8, tile_length: u32, spacing: u32) -> (r: i64)
    requires
        index < size,
    ensures
        r == doubled_center_of(index as int, size as int, tile_length as int, spacing as int),
{
    let fu = footprint(size, tile_length, spacing);
    assert(fu <= 511 * 0xffff_ffff) by (nonlinear_arith)
        requires
            fu == size * tile_length + (size + 1) * spacing,
            size <= 255,
            tile_length <= 0xffff_ffff,
            spacing <= 0xffff_ffff,
    ;
    let f = fu as i64;
    let i = index as i64;
    let t = tile_length as i64;
    let s = spacing as i64;
    assert(i * t <= 255 * 0xffff_ffff) by (nonlinear_arith)
        requires
            0 <= i <= 255,
            0 <= t <= 0xffff_ffff,
    ;
    assert((i + 1) * s <= 256 * 0xffff_ffff) by (nonlinear_arith)
        requires
            0 <= i <= 255,
            0 <= s <= 0xffff_ffff,
    ;
    assert(0 <= i * t && 0 <= (i + 1) * s) by (nonlinear_arith)
        requires
            0 <= i,
            0 <= t,
            0 <= s,
    ;
    2 * (i * t + (i + 1) * s) + t - f
}

/// Neighbouring cells are one tile length plus one spacing apart: their
/// doubled centres differ by twice that.
pub proof fn lemma_center_step(index: int, size: int, tile_length: int, spacing: int)
    requires
        0 <= index < size,
    ensures
        doubled_center_of(index + 1, size, tile_length, spacing) - doubled_center_of(
            index,
            size,
            tile_length,
            spacing,
        ) == 2 * (tile_length + spacing),
{
    assert((index + 1) * tile_length == index * tile_length + tile_length) by (nonlinear_arith);
    assert((index + 2) * spacing == (index + 1) * spacing + spacing) by (nonlinear_arith);
}

/// The grid is centred on the origin: the cell at `index` and its mirror image
/// `size - 1 - index` have opposite centres. In particular the first and the
/// last cell do.
pub proof fn lemma_center_symmetric(index: int, size: int, tile_length: int, spacing: int)
    requires
        0 <= index < size,
    ensures
        doubled_center_of(index, size, tile_length, spacing) + doubled_center_of(
            size - 1 - index,
            size,
            tile_length,
            spacing,
        ) == 0,
        doubled_center_of(0, size, tile_length, spacing) + doubled_center_of(
            size - 1,
            size,
            tile_length,
            spacing,
        ) == 0,
{
    let j = size - 1 - index;
    assert(index * tile_length + j * tile_length == (size - 1) * tile_length) by (nonlinear_arith)
        requires
            j == size - 1 - index,
    ;
    assert((index + 1) * spacing + (j + 1) * spacing == (size + 1) * spacing) by (nonlinear_arith)
        requires
            j == size - 1 - index,
    ;
    assert(size * tile_length == (size - 1) * tile_length + tile_length) by (nonlinear_arith);
    assert((size - 1) * tile_length + 0 * tile_length == (size - 1) * tile_length) by (
    nonlinear_arith);
    assert(1 * spacing + size * spacing == (size + 1) * spacing) by (nonlinear_arith);
}

} // verus!
