use std::collections::HashSet;

use game2048::board::Board;
use game2048::cell::Cell;
use game2048::sampler::SampleError;
use game2048::session::{ColorCategory, InitError, Session};
use game2048::tile::{place_starting_tiles, spawn_tiles, Tile, STARTING_TILES, STARTING_VALUE};

#[test]
fn initialize_four_by_four() {
    let s = Session::initialize(4, "#1f2638").unwrap();
    assert_eq!(s.board.grid_size(), 4);
    assert_eq!(s.board.physical_size(), 210);
    assert_eq!(s.placeholders.len(), 16);
    assert_eq!(s.tiles.len(), 2);
    let mut seen = HashSet::new();
    for t in &s.tiles {
        assert_eq!(t.value, 2);
        assert!(t.position.x < 4 && t.position.y < 4);
        assert!(seen.insert(t.position));
    }
}

#[test]
fn initialize_rejects_malformed_colour() {
    assert_eq!(
        Session::initialize(4, "not-a-color").err(),
        Some(InitError::MalformedColor)
    );
}

#[test]
fn malformed_colour_wins_over_small_board() {
    assert_eq!(
        Session::initialize(1, "#12345").err(),
        Some(InitError::MalformedColor)
    );
}

#[test]
fn initialize_accepts_every_hex_form() {
    for c in ["#1f2638", "1f2638", "#fff", "FFF", "#abcd", "#1F2638ff", "00000000"] {
        assert!(Session::initialize(2, c).is_ok(), "{}", c);
    }
}

#[test]
fn initialize_rejects_bad_hex_forms() {
    for c in ["", "#", "#ff", "#fffff", "#1f26389", "#gggggg", "##fff", "#1f263 ", "#ééé"] {
        assert_eq!(
            Session::initialize(2, c).err(),
            Some(InitError::MalformedColor),
            "{}",
            c
        );
    }
}

#[test]
fn initialize_board_too_small_for_tiles() {
    assert_eq!(
        Session::initialize(1, "#1f2638").err(),
        Some(InitError::Sampling(SampleError::OutOfRange {
            requested: 2,
            capacity: 1
        }))
    );
}

#[test]
fn initialize_keeps_background_colour() {
    let s = Session::initialize(2, "#ffffff").unwrap();
    assert_eq!(s.background, bevy::render::color::Color::rgb(1.0, 1.0, 1.0));
}

#[test]
fn spawn_tiles_on_two_by_two() {
    let board = Board::new(2);
    for _ in 0..20 {
        let tiles = spawn_tiles(&board).unwrap();
        assert_eq!(tiles.len(), STARTING_TILES);
        assert_ne!(tiles[0].position, tiles[1].position);
        for t in &tiles {
            assert_eq!(t.value, STARTING_VALUE);
            assert!(t.position.x < 2 && t.position.y < 2);
        }
    }
}

#[test]
fn spawn_tiles_on_one_cell_fails() {
    let board = Board::new(1);
    assert_eq!(
        spawn_tiles(&board),
        Err(SampleError::OutOfRange { requested: 2, capacity: 1 })
    );
}

#[test]
fn tile_labels_are_decimal() {
    let t = |value| Tile { position: Cell { x: 0, y: 0 }, value };
    assert_eq!(t(2).label(), "2");
    assert_eq!(t(0).label(), "0");
    assert_eq!(t(2048).label(), "2048");
    assert_eq!(t(u32::MAX).label(), "4294967295");
}

#[test]
fn emissions_of_four_by_four() {
    let s = Session::initialize(4, "#1f2638").unwrap();
    let e = s.emissions();
    assert_eq!(e.len(), 1 + 16 + 2);
    assert_eq!((e[0].x, e[0].y, e[0].side), (0, 0, 210));
    assert_eq!(e[0].category, ColorCategory::Board);
    assert!(e[0].label.is_none());
    for j in 0..16 {
        let p = &e[1 + j];
        assert_eq!((p.x, p.y), (s.placeholders[j].x, s.placeholders[j].y));
        assert_eq!(p.side, 40);
        assert_eq!(p.category, ColorCategory::Placeholder);
        assert!(p.label.is_none());
    }
    let centres = [-75i64, -25, 25, 75];
    for k in 0..2 {
        let t = &e[17 + k];
        let tile = &s.tiles[k];
        assert_eq!(t.x, centres[tile.position.x as usize]);
        assert_eq!(t.y, centres[tile.position.y as usize]);
        assert_eq!(t.side, 40);
        assert_eq!(t.category, ColorCategory::Tile);
        assert_eq!(t.label.as_deref(), Some("2"));
    }
}

#[test]
fn starting_tiles_follow_given_cells() {
    let cells = vec![Cell { x: 3, y: 1 }, Cell { x: 0, y: 2 }];
    let tiles = place_starting_tiles(&cells);
    assert_eq!(
        tiles,
        vec![
            Tile { position: Cell { x: 3, y: 1 }, value: 2 },
            Tile { position: Cell { x: 0, y: 2 }, value: 2 },
        ]
    );
    assert!(place_starting_tiles(&Vec::new()).is_empty());
}
