use game2048::board::Board;
use game2048::geometry::{doubled_cell_center, footprint, TILE_SIZE, TILE_SPACER};

#[test]
fn footprint_of_four_by_four_board() {
    assert_eq!(footprint(4, 40, 10), 4 * 40 + 5 * 10);
    assert_eq!(footprint(4, TILE_SIZE, TILE_SPACER), 210);
}

#[test]
fn footprint_of_single_cell_board() {
    assert_eq!(footprint(1, 40, 10), 60);
    assert_eq!(footprint(1, 7, 0), 7);
}

#[test]
fn footprint_of_largest_inputs() {
    let m = u32::MAX as u64;
    assert_eq!(footprint(255, u32::MAX, u32::MAX), 255 * m + 256 * m);
}

#[test]
fn doubled_centres_of_four_by_four_board() {
    assert_eq!(doubled_cell_center(0, 4, 40, 10), -150);
    assert_eq!(doubled_cell_center(1, 4, 40, 10), -50);
    assert_eq!(doubled_cell_center(2, 4, 40, 10), 50);
    assert_eq!(doubled_cell_center(3, 4, 40, 10), 150);
}

#[test]
fn doubled_centre_on_half_pixel() {
    // footprint(2, 5, 2) = 16; centre of cell 0 is -8 + 2.5 + 2 = -3.5
    assert_eq!(footprint(2, 5, 2), 16);
    assert_eq!(doubled_cell_center(0, 2, 5, 2), -7);
    assert_eq!(doubled_cell_center(1, 2, 5, 2), 7);
}

#[test]
fn centres_advance_by_tile_plus_spacing() {
    for size in 1u8..=12 {
        for i in 0..size.saturating_sub(1) {
            let a = doubled_cell_center(i, size, 37, 6);
            let b = doubled_cell_center(i + 1, size, 37, 6);
            assert_eq!(b - a, 2 * (37 + 6));
        }
    }
}

#[test]
fn centres_are_symmetric_about_origin() {
    for size in 1u8..=12 {
        for i in 0..size {
            let a = doubled_cell_center(i, size, 41, 3);
            let b = doubled_cell_center(size - 1 - i, size, 41, 3);
            assert_eq!(a + b, 0);
        }
    }
    assert_eq!(doubled_cell_center(0, 1, 40, 10), 0);
}

#[test]
fn board_geometry_of_size_four() {
    let board = Board::new(4);
    assert_eq!(board.grid_size(), 4);
    assert_eq!(board.physical_size(), 210);
    assert_eq!(board.cell_position_to_physical(0), -75);
    assert_eq!(board.cell_position_to_physical(1), -25);
    assert_eq!(board.cell_position_to_physical(2), 25);
    assert_eq!(board.cell_position_to_physical(3), 75);
}

#[test]
fn board_of_one_cell_is_centred() {
    let board = Board::new(1);
    assert_eq!(board.physical_size(), 60);
    assert_eq!(board.cell_position_to_physical(0), 0);
}

#[test]
fn placeholders_cover_board_in_x_major_order() {
    let board = Board::new(4);
    let ps = board.layout_placeholders();
    assert_eq!(ps.len(), 16);
    let centres = [-75i64, -25, 25, 75];
    for (j, p) in ps.iter().enumerate() {
        assert_eq!(p.cell.x as usize, j / 4);
        assert_eq!(p.cell.y as usize, j % 4);
        assert_eq!(p.x, centres[j / 4]);
        assert_eq!(p.y, centres[j % 4]);
    }
}

#[test]
fn placeholders_of_three_by_three_board() {
    let board = Board::new(3);
    let ps = board.layout_placeholders();
    assert_eq!(ps.len(), 9);
    assert_eq!((ps[0].cell.x, ps[0].cell.y), (0, 0));
    assert_eq!((ps[1].cell.x, ps[1].cell.y), (0, 1));
    assert_eq!((ps[3].cell.x, ps[3].cell.y), (1, 0));
    assert_eq!((ps[8].cell.x, ps[8].cell.y), (2, 2));
    assert_eq!((ps[4].x, ps[4].y), (0, 0));
    assert_eq!((ps[0].x, ps[0].y), (-50, -50));
}
