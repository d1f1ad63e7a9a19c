use tetris_bridge::{Hold, Piece, Rgba, WASMGameMaster};

fn rgba(r: f32, g: f32, b: f32, a: f32) -> Rgba {
    [r.to_bits(), g.to_bits(), b.to_bits(), a.to_bits()]
}

fn piece(rows: &[&[u8]], color: Rgba) -> Piece {
    Piece {
        size: rows.len(),
        shape: rows.iter().map(|r| r.iter().map(|&c| c != 0).collect()).collect(),
        color,
    }
}

fn tee(color: Rgba) -> Piece {
    piece(&[&[0, 1, 0], &[1, 1, 1], &[0, 0, 0]], color)
}

fn square(color: Rgba) -> Piece {
    piece(&[&[1, 1], &[1, 1]], color)
}

fn bar(color: Rgba) -> Piece {
    piece(&[&[0, 0, 0, 0], &[1, 1, 1, 1], &[0, 0, 0, 0], &[0, 0, 0, 0]], color)
}

fn standard() -> WASMGameMaster {
    WASMGameMaster::new(20, 10, 3, 4, 4, true, false).unwrap()
}

fn cell_color(bridge: &WASMGameMaster, row: usize, col: usize) -> Vec<u32> {
    let cell = row * bridge.get_hold_size() + col;
    bridge.hold_color()[cell * 4..cell * 4 + 4].to_vec()
}

#[test]
fn empty_hold_is_zero_throughout() {
    let mut bridge = standard();
    bridge.render_hold(&Hold::Empty);
    assert_eq!(bridge.hold(), &[0u8; 16][..]);
    assert_eq!(bridge.hold_color(), &[0u32; 64][..]);
    assert!(bridge.hold_color().iter().all(|&c| f32::from_bits(c) == 0.0));
}

#[test]
fn empty_hold_wipes_a_piece_shown_before() {
    let mut bridge = standard();
    bridge.render_hold(&Hold::Holding(bar(rgba(0.0, 1.0, 1.0, 1.0))));
    assert!(bridge.hold().iter().any(|&b| b != 0));
    assert!(bridge.hold_color().iter().any(|&c| c != 0));
    bridge.render_hold(&Hold::Empty);
    assert_eq!(bridge.hold(), &[0u8; 16][..]);
    assert_eq!(bridge.hold_color(), &[0u32; 64][..]);
}

#[test]
fn held_piece_colours_its_whole_bounding_box() {
    let mut bridge = standard();
    let purple = rgba(0.5, 0.0, 0.5, 1.0);
    let hold = Hold::Holding(tee(purple));
    assert!(hold.fits_in(bridge.get_hold_size()));
    bridge.render_hold(&hold);
    assert_eq!(
        bridge.hold(),
        &[0, 1, 0, 0, 1, 1, 1, 0, 0, 0, 0, 0, 0, 0, 0, 0]
    );
    for row in 0..4 {
        for col in 0..4 {
            if row < 3 && col < 3 {
                assert_eq!(cell_color(&bridge, row, col), purple.to_vec(), "({}, {})", row, col);
            } else {
                assert_eq!(cell_color(&bridge, row, col), vec![0; 4], "({}, {})", row, col);
            }
        }
    }
}

#[test]
fn held_piece_as_large_as_the_square_colours_all_of_it() {
    let mut bridge = standard();
    let cyan = rgba(0.0, 1.0, 1.0, 1.0);
    bridge.render_hold(&Hold::Holding(bar(cyan)));
    assert_eq!(
        bridge.hold(),
        &[0, 0, 0, 0, 1, 1, 1, 1, 0, 0, 0, 0, 0, 0, 0, 0]
    );
    for cell in 0..16 {
        assert_eq!(&bridge.hold_color()[cell * 4..cell * 4 + 4], &cyan[..]);
    }
}

#[test]
fn colours_outside_of_the_held_piece_are_zero_whatever_was_held_before() {
    let mut bridge = standard();
    let cyan = rgba(0.0, 1.0, 1.0, 1.0);
    let yellow = rgba(1.0, 1.0, 0.0, 1.0);
    bridge.render_hold(&Hold::Holding(bar(cyan)));
    bridge.render_hold(&Hold::Holding(square(yellow)));
    assert_eq!(
        bridge.hold(),
        &[1, 1, 0, 0, 1, 1, 0, 0, 0, 0, 0, 0, 0, 0, 0, 0]
    );
    for row in 0..4 {
        for col in 0..4 {
            let expected = if row < 2 && col < 2 { yellow } else { [0u32; 4] };
            assert_eq!(cell_color(&bridge, row, col), expected.to_vec(), "({}, {})", row, col);
        }
    }
}

#[test]
fn hold_buffers_depend_on_what_is_held_alone() {
    let purple = rgba(0.5, 0.0, 0.5, 1.0);
    let hold = Hold::Holding(tee(purple));
    let mut fresh = standard();
    fresh.render_hold(&hold);
    let mut used = standard();
    used.render_hold(&Hold::Holding(bar(rgba(0.0, 1.0, 1.0, 1.0))));
    used.render_hold(&Hold::Holding(square(rgba(1.0, 1.0, 0.0, 1.0))));
    used.render_hold(&hold);
    assert_eq!(fresh.hold(), used.hold());
    assert_eq!(fresh.hold_color(), used.hold_color());
    let mut emptied = standard();
    emptied.render_hold(&Hold::Holding(bar(rgba(0.0, 1.0, 1.0, 1.0))));
    emptied.render_hold(&Hold::Empty);
    emptied.render_hold(&hold);
    assert_eq!(fresh.hold(), emptied.hold());
    assert_eq!(fresh.hold_color(), emptied.hold_color());
}

#[test]
fn hold_cell_sits_at_row_times_side_plus_column() {
    let mut bridge = WASMGameMaster::new(20, 10, 3, 4, 5, true, false).unwrap();
    let green = rgba(0.0, 1.0, 0.0, 1.0);
    let ess = piece(&[&[0, 1, 1], &[1, 1, 0], &[0, 0, 0]], green);
    bridge.render_hold(&Hold::Holding(ess));
    let occupied: Vec<usize> = (0..25).filter(|&c| bridge.hold()[c] != 0).collect();
    assert_eq!(occupied, vec![1, 2, 5, 6]);
    // Row 2, column 2 is the last cell of the box: cell 12, channels from 48.
    assert_eq!(&bridge.hold_color()[48..52], &green[..]);
    // Row 2, column 3 is outside of it: cell 13, channels from 52.
    assert_eq!(&bridge.hold_color()[52..56], &[0, 0, 0, 0]);
    // Row 3, column 0 is outside of it: cell 15, channels from 60.
    assert_eq!(&bridge.hold_color()[60..64], &[0, 0, 0, 0]);
    assert_eq!(f32::from_bits(bridge.hold_color()[49]), 1.0);
}

#[test]
fn render_hold_twice_gives_what_render_hold_once_gives() {
    let mut bridge = standard();
    bridge.render_hold(&Hold::Holding(bar(rgba(0.0, 1.0, 1.0, 1.0))));
    let hold = Hold::Holding(tee(rgba(0.5, 0.0, 0.5, 1.0)));
    bridge.render_hold(&hold);
    let cells = bridge.hold().to_vec();
    let colors = bridge.hold_color().to_vec();
    bridge.render_hold(&hold);
    assert_eq!(bridge.hold(), &cells[..]);
    assert_eq!(bridge.hold_color(), &colors[..]);
    bridge.render_hold(&Hold::Empty);
    let cells = bridge.hold().to_vec();
    let colors = bridge.hold_color().to_vec();
    bridge.render_hold(&Hold::Empty);
    assert_eq!(bridge.hold(), &cells[..]);
    assert_eq!(bridge.hold_color(), &colors[..]);
}

#[test]
fn render_hold_leaves_the_board_and_preview_buffers_alone() {
    let mut bridge = standard();
    bridge.render_hold(&Hold::Holding(tee(rgba(0.5, 0.0, 0.5, 1.0))));
    assert_eq!(bridge.hold().len(), 16);
    assert_eq!(bridge.hold_color().len(), 64);
    assert!(bridge.field().iter().all(|&b| b == 0));
    assert!(bridge.field_color().iter().all(|&c| c == 0));
    assert!(bridge.nexts().iter().all(|&b| b == 0));
    assert!(bridge.nexts_color().iter().all(|&c| c == 0));
}

#[test]
fn hold_fits_when_it_is_empty_or_its_piece_fits() {
    let color = rgba(1.0, 1.0, 1.0, 1.0);
    assert!(Hold::Empty.fits_in(1));
    assert!(Hold::Holding(tee(color)).fits_in(3));
    assert!(Hold::Holding(tee(color)).fits_in(4));
    assert!(!Hold::Holding(tee(color)).fits_in(2));
    let mut ragged = tee(color);
    ragged.shape[1].pop();
    assert!(!Hold::Holding(ragged).fits_in(4));
}

#[test]
fn the_three_redraws_work_in_any_order() {
    let queue = vec![Some(tee(rgba(0.5, 0.0, 0.5, 1.0))), None, None];
    let hold = Hold::Holding(square(rgba(1.0, 1.0, 0.0, 1.0)));
    let mut first = standard();
    first.render_next(&queue);
    first.render_hold(&hold);
    let mut second = standard();
    second.render_hold(&hold);
    second.render_next(&queue);
    assert_eq!(first.nexts(), second.nexts());
    assert_eq!(first.nexts_color(), second.nexts_color());
    assert_eq!(first.hold(), second.hold());
    assert_eq!(first.hold_color(), second.hold_color());
}
