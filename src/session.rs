//! Starting a session: the background colour, the board and its placeholder
//! cells, then the starting tiles; and what the renderer is handed.
use bevy::render::color::Color;
use crate::board::{Board, Placeholder, board_doubled_center, is_layout_of};
use crate::cell::in_grid;
use crate::color::{is_hex_color, parse_hex_color};
use crate::geometry::{TILE_SIZE, TILE_SPACER, footprint_of};
use crate::sampler::SampleError;
use crate::tile::{STARTING_TILES, STARTING_VALUE, Tile, decimal, spawn_tiles, tiles_placed};
use vstd::prelude::*;

verus! {

/// Why a session could not start. Every one is fatal.
#[derive(Clone, Copy, PartialEq, Eq, Structural, Debug)]
pub enum InitError {
    /// The background colour is not a well-formed hex colour.
    MalformedColor,
    /// The board has fewer cells than there are starting tiles.
    Sampling(SampleError),
}

/// A running session: one board, its placeholder cells, the live tiles and
/// the background colour.
pub struct Session {
    pub board: Board,
    pub placeholders: Vec<Placeholder>,
    pub tiles: Vec<Tile>,
    pub background: Color,
}

/// Which of the three colours a rendered rectangle takes.
#[derive(Clone, Copy, PartialEq, Eq, Structural, Debug)]
pub enum ColorCategory {
    Board,
    Placeholder,
    Tile,
}

/// A square for the renderer: its pixel centre, side, colour and, for a tile,
/// the text written on it.
#[derive(Clone, Debug)]
pub struct Emission {
    pub x: i64,
    pub y: i64,
    pub side: u64,
    pub category: ColorCategory,
    pub label: Option<String>,
}

impl Session {
    /// The placeholders lay out the whole board, and the tiles stand on
    /// distinct cells of it.
    pub open spec fn wf(&self) -> bool {
        &&& is_layout_of(self.board@, self.placeholders@)
        &&& tiles_placed(self.board@, self.tiles@)
    }

    /// Starts a session on a board of `board_size` cells per side: checks the
    /// background colour, builds the board and lays out its placeholders,
    /// then places the starting tiles on it. A malformed colour stops it
    /// before any board is built; so does a board too small for the starting
    /// tiles, before any tile is placed.
    pub fn initialize(board_size: u8, background: &str) -> (r: Result<Session, InitError>)
        requires
            board_size >= 1,
        ensures
            !is_hex_color(background@) ==> r == Err::<Session, InitError>(InitError::MalformedColor),
            is_hex_color(background@) && board_size * board_size < STARTING_TILES ==> r
                == Err::<Session, InitError>(
                InitError::Sampling(
                    SampleError::OutOfRange {
                        requested: STARTING_TILES,
                        capacity: (board_size * board_size) as usize,
                    },
                ),
            ),
            r is Ok <==> is_hex_color(background@) && STARTING_TILES <= board_size * board_size,
            r matches Ok(s) ==> {
                &&& s.wf()
                &&& s.board@ == board_size
                &&& s.tiles.len() == STARTING_TILES
                &&& forall|i: int| 0 <= i < s.tiles.len() ==> (#[trigger] s.tiles@[i]).value == STARTING_VALUE
            },
    {
        let color = match parse_hex_color(background) {
            Ok(c) => c,
            Err(_) => {
                return Err(InitError::MalformedColor);
            },
        };
        let board = Board::new(board_size);
        let placeholders = board.layout_placeholders();
        let tiles = match spawn_tiles(&board) {
            Ok(t) => t,
            Err(e) => {
                return Err(InitError::Sampling(e));
            },
        };
        Ok(Session { board, placeholders, tiles, background: color })
    }

    /// What the renderer draws, in order: the board centred on the origin,
    /// each placeholder at its cell's centre, then each tile at its cell's
    /// centre with its value written on it.
    pub fn emissions(&self) -> (r: Vec<Emission>)
        requires
            self.wf(),
        ensures
            r.len() == 1 + self.placeholders.len() + self.tiles.len(),
            r@[0].x == 0 && r@[0].y == 0,
            r@[0].side == footprint_of(self.board@ as int, TILE_SIZE as int, TILE_SPACER as int),
            r@[0].category == ColorCategory::Board && r@[0].label is None,
            forall|j: int|
                0 <= j < self.placeholders.len() ==> {
                    let e = #[trigger] r@[1 + j];
                    &&& e.x == self.placeholders@[j].x
                    &&& e.y == self.placeholders@[j].y
                    &&& e.side == TILE_SIZE
                    &&& e.category == ColorCategory::Placeholder
                    &&& e.label is None
                },
            forall|k: int|
                0 <= k < self.tiles.len() ==> {
                    let e = #[trigger] r@[1 + self.placeholders.len() + k];
                    let t = self.tiles@[k];
                    &&& 2 * e.x == board_doubled_center(t.position.x as int, self.board@ as int)
                    &&& 2 * e.y == board_doubled_center(t.position.y as int, self.board@ as int)
                    &&& e.side == TILE_SIZE
                    &&& e.category == ColorCategory::Tile
                    &&& e.label matches Some(l) && l@ == decimal(t.value as nat)
                },
    {
        let mut out: Vec<Emission> = Vec::new();
        out.push(
            Emission {
                x: 0,
                y: 0,
                side: self.board.physical_size(),
                category: ColorCategory::Board,
                label: None,
            },
        );
        let mut j: usize = 0;
        while j < self.placeholders.len()
            invariant
                j <= self.placeholders.len(),
                out.len() == 1 + j,
                out@[0].x == 0 && out@[0].y == 0,
                out@[0].side == footprint_of(
                    self.board@ as int,
                    TILE_SIZE as int,
                    TILE_SPACER as int,
                ),
                out@[0].category == ColorCategory::Board && out@[0].label is None,
                forall|i: int|
                    0 <= i < j ==> {
                        let e = #[trigger] out@[1 + i];
                        &&& e.x == self.placeholders@[i].x
                        &&& e.y == self.placeholders@[i].y
                        &&& e.side == TILE_SIZE
                        &&& e.category == ColorCategory::Placeholder
                        &&& e.label is None
                    },
            decreases self.placeholders.len() - j,
        {
            let p = &self.placeholders[j];
            out.push(
                Emission {
                    x: p.x,
                    y: p.y,
                    side: TILE_SIZE as u64,
                    category: ColorCategory::Placeholder,
                    label: None,
                },
            );
            j = j + 1;
        }
        let mut k: usize = 0;
        while k < self.tiles.len()
            invariant
                self.wf(),
                k <= self.tiles.len(),
                out.len() == 1 + self.placeholders.len() + k,
                out@[0].x == 0 && out@[0].y == 0,
                out@[0].side == footprint_of(
                    self.board@ as int,
                    TILE_SIZE as int,
                    TILE_SPACER as int,
                ),
                out@[0].category == ColorCategory::Board && out@[0].label is None,
                forall|i: int|
                    0 <= i < self.placeholders.len() ==> {
                        let e = #[trigger] out@[1 + i];
                        &&& e.x == self.placeholders@[i].x
                        &&& e.y == self.placeholders@[i].y
                        &&& e.side == TILE_SIZE
                        &&& e.category == ColorCategory::Placeholder
                        &&& e.label is None
                    },
                forall|i: int|
                    0 <= i < k ==> {
                        let e = #[trigger] out@[1 + self.placeholders.len() + i];
                        let t = self.tiles@[i];
                        &&& 2 * e.x == board_doubled_center(
                            t.position.x as int,
                            self.board@ as int,
                        )
                        &&& 2 * e.y == board_doubled_center(
                            t.position.y as int,
                            self.board@ as int,
                        )
                        &&& e.side == TILE_SIZE
                        &&& e.category == ColorCategory::Tile
                        &&& e.label matches Some(l) && l@ == decimal(t.value as nat)
                    },
            decreases self.tiles.len() - k,
        {
            let t = &self.tiles[k];
            assert(in_grid(self.tiles@[k as int].position, self.board@));
            let x = self.board.cell_position_to_physical(t.position.x);
            let y = self.board.cell_position_to_physical(t.position.y);
            out.push(
                Emission {
                    x,
                    y,
                    side: TILE_SIZE as u64,
                    category: ColorCategory::Tile,
                    label: Some(t.label()),
                },
            );
            assert(out@[1 + self.placeholders.len() + k as int].x == x);
            k = k + 1;
        }
        out
    }
}

} // verus!
