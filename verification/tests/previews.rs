use tetris_bridge::{queue_fits_in, Piece, Rgba, WASMGameMaster, CLEAR, OPAQUE};

fn rgba(r: f32, g: f32, b: f32, a: f32) -> Rgba {
    [r.to_bits(), g.to_bits(), b.to_bits(), a.to_bits()]
}

fn piece(rows: &[&[u8]], color: Rgba) -> Piece {
    Piece {
        size: rows.len(),
        shape: rows.iter().map(|r| r.iter().map(|&c| c != 0).collect()).collect(),
        color,
    }
}

fn tee(color: Rgba) -> Piece {
    piece(&[&[0, 1, 0], &[1, 1, 1], &[0, 0, 0]], color)
}

fn square(color: Rgba) -> Piece {
    piece(&[&[1, 1], &[1, 1]], color)
}

fn bar(color: Rgba) -> Piece {
    piece(&[&[0, 0, 0, 0], &[1, 1, 1, 1], &[0, 0, 0, 0], &[0, 0, 0, 0]], color)
}

fn standard() -> WASMGameMaster {
    WASMGameMaster::new(20, 10, 3, 4, 4, true, false).unwrap()
}

fn slot_cells(bridge: &WASMGameMaster, slot: usize) -> Vec<u8> {
    bridge.nexts()[slot * 16..(slot + 1) * 16].to_vec()
}

fn slot_colors(bridge: &WASMGameMaster, slot: usize) -> Vec<u32> {
    bridge.nexts_color()[slot * 64..(slot + 1) * 64].to_vec()
}

fn assert_blank(bridge: &WASMGameMaster, slot: usize) {
    assert_eq!(slot_cells(bridge, slot), vec![0u8; 16]);
    assert_eq!(slot_colors(bridge, slot), vec![OPAQUE; 64]);
}

#[test]
fn opaque_is_one_and_clear_is_zero() {
    assert_eq!(f32::from_bits(OPAQUE), 1.0);
    assert_eq!(f32::from_bits(CLEAR), 0.0);
    assert_eq!(OPAQUE, 1.0f32.to_bits());
    assert_eq!(CLEAR, 0.0f32.to_bits());
}

#[test]
fn slot_without_a_piece_is_blank() {
    let mut bridge = standard();
    let queue: Vec<Option<Piece>> = vec![None, None, None];
    assert!(queue_fits_in(&queue, 3, 4));
    bridge.render_next(&queue);
    for slot in 0..3 {
        assert_blank(&bridge, slot);
    }
    assert!(bridge.nexts_color().iter().all(|&c| f32::from_bits(c) == 1.0));
}

#[test]
fn slot_shows_a_small_piece_in_its_top_left_corner() {
    let mut bridge = standard();
    let purple = rgba(0.5, 0.0, 0.5, 1.0);
    let queue = vec![Some(tee(purple)), None, None];
    bridge.render_next(&queue);
    assert_eq!(
        slot_cells(&bridge, 0),
        vec![0, 1, 0, 0, 1, 1, 1, 0, 0, 0, 0, 0, 0, 0, 0, 0]
    );
    let colors = slot_colors(&bridge, 0);
    for row in 0..4 {
        for col in 0..4 {
            let cell = row * 4 + col;
            let got = &colors[cell * 4..cell * 4 + 4];
            if row < 3 && col < 3 {
                let filled = (row == 0 && col == 1) || row == 1;
                if filled {
                    assert_eq!(got, &purple[..], "filled cell ({}, {})", row, col);
                } else {
                    assert_eq!(got, &[CLEAR; 4][..], "empty cell ({}, {})", row, col);
                }
            } else {
                assert_eq!(got, &[OPAQUE; 4][..], "outside cell ({}, {})", row, col);
            }
        }
    }
    assert_blank(&bridge, 1);
    assert_blank(&bridge, 2);
}

#[test]
fn slot_shows_a_piece_as_large_as_the_slot() {
    let mut bridge = standard();
    let cyan = rgba(0.0, 1.0, 1.0, 1.0);
    let queue = vec![Some(bar(cyan)), None, None];
    bridge.render_next(&queue);
    assert_eq!(
        slot_cells(&bridge, 0),
        vec![0, 0, 0, 0, 1, 1, 1, 1, 0, 0, 0, 0, 0, 0, 0, 0]
    );
    let colors = slot_colors(&bridge, 0);
    for cell in 0..16 {
        let got = &colors[cell * 4..cell * 4 + 4];
        if (4..8).contains(&cell) {
            assert_eq!(got, &cyan[..]);
        } else {
            assert_eq!(got, &[CLEAR; 4][..]);
        }
    }
}

#[test]
fn each_slot_starts_at_its_index_times_the_slot_area() {
    let mut bridge = standard();
    let yellow = rgba(1.0, 1.0, 0.0, 1.0);
    let purple = rgba(0.5, 0.0, 0.5, 1.0);
    let cyan = rgba(0.0, 1.0, 1.0, 1.0);
    let queue = vec![Some(square(yellow)), Some(tee(purple)), Some(bar(cyan))];
    bridge.render_next(&queue);
    let expected: Vec<u8> = vec![
        1, 1, 0, 0, 1, 1, 0, 0, 0, 0, 0, 0, 0, 0, 0, 0, // slot 0
        0, 1, 0, 0, 1, 1, 1, 0, 0, 0, 0, 0, 0, 0, 0, 0, // slot 1
        0, 0, 0, 0, 1, 1, 1, 1, 0, 0, 0, 0, 0, 0, 0, 0, // slot 2
    ];
    assert_eq!(bridge.nexts(), &expected[..]);
    let colors = bridge.nexts_color();
    // Slot 1, row 1, column 2: cell 16 + 1 * 4 + 2 = 22, channels from 88.
    assert_eq!(&colors[88..92], &purple[..]);
    // Slot 1, row 0, column 0: inside the box and empty.
    assert_eq!(&colors[64..68], &[CLEAR; 4][..]);
    // Slot 1, row 3, column 3: outside of the box.
    assert_eq!(&colors[124..128], &[OPAQUE; 4][..]);
    // Slot 0, row 1, column 1: cell 5, channels from 20.
    assert_eq!(&colors[20..24], &yellow[..]);
    // Slot 0, row 0, column 2: outside of the box.
    assert_eq!(&colors[8..12], &[OPAQUE; 4][..]);
    // Slot 2, row 1, column 3: cell 32 + 7 = 39, channels from 156.
    assert_eq!(&colors[156..160], &cyan[..]);
}

#[test]
fn slot_past_the_end_of_the_queue_is_blank() {
    let mut bridge = standard();
    let yellow = rgba(1.0, 1.0, 0.0, 1.0);
    let queue = vec![Some(square(yellow))];
    assert!(queue_fits_in(&queue, 3, 4));
    bridge.render_next(&queue);
    assert_eq!(
        slot_cells(&bridge, 0),
        vec![1, 1, 0, 0, 1, 1, 0, 0, 0, 0, 0, 0, 0, 0, 0, 0]
    );
    assert_blank(&bridge, 1);
    assert_blank(&bridge, 2);
}

#[test]
fn empty_queue_leaves_every_slot_blank() {
    let mut bridge = standard();
    let queue: Vec<Option<Piece>> = Vec::new();
    bridge.render_next(&queue);
    for slot in 0..3 {
        assert_blank(&bridge, slot);
    }
}

#[test]
fn queue_entries_past_the_last_slot_are_not_shown() {
    let mut bridge = WASMGameMaster::new(20, 10, 1, 4, 4, true, false).unwrap();
    let yellow = rgba(1.0, 1.0, 0.0, 1.0);
    let cyan = rgba(0.0, 1.0, 1.0, 1.0);
    // The second entry would not even fit, but no slot shows it.
    let large = piece(&[&[1; 5], &[1; 5], &[1; 5], &[1; 5], &[1; 5]], cyan);
    let queue = vec![Some(square(yellow)), Some(large)];
    assert!(queue_fits_in(&queue, 1, 4));
    bridge.render_next(&queue);
    assert_eq!(bridge.nexts().len(), 16);
    assert_eq!(
        bridge.nexts(),
        &[1, 1, 0, 0, 1, 1, 0, 0, 0, 0, 0, 0, 0, 0, 0, 0]
    );
}

#[test]
fn render_next_overwrites_what_was_shown_before() {
    let mut bridge = standard();
    let purple = rgba(0.5, 0.0, 0.5, 1.0);
    bridge.render_next(&vec![Some(tee(purple)), Some(tee(purple)), Some(tee(purple))]);
    bridge.render_next(&vec![None, Some(square(purple)), None]);
    assert_blank(&bridge, 0);
    assert_eq!(
        slot_cells(&bridge, 1),
        vec![1, 1, 0, 0, 1, 1, 0, 0, 0, 0, 0, 0, 0, 0, 0, 0]
    );
    // The third column and row of the former piece are blank again.
    let colors = slot_colors(&bridge, 1);
    assert_eq!(&colors[8..12], &[OPAQUE; 4][..]);
    assert_eq!(&colors[32..36], &[OPAQUE; 4][..]);
    assert_blank(&bridge, 2);
}

#[test]
fn render_next_twice_gives_what_render_next_once_gives() {
    let mut bridge = standard();
    let queue = vec![Some(tee(rgba(0.5, 0.0, 0.5, 1.0))), None, Some(bar(rgba(0.0, 1.0, 1.0, 1.0)))];
    bridge.render_next(&queue);
    let cells = bridge.nexts().to_vec();
    let colors = bridge.nexts_color().to_vec();
    bridge.render_next(&queue);
    assert_eq!(bridge.nexts(), &cells[..]);
    assert_eq!(bridge.nexts_color(), &colors[..]);
}

#[test]
fn render_next_leaves_the_board_and_hold_buffers_alone() {
    let mut bridge = standard();
    bridge.render_next(&vec![Some(tee(rgba(0.5, 0.0, 0.5, 1.0)))]);
    assert_eq!(bridge.nexts().len(), 48);
    assert_eq!(bridge.nexts_color().len(), 192);
    assert!(bridge.field().iter().all(|&b| b == 0));
    assert!(bridge.field_color().iter().all(|&c| c == 0));
    assert!(bridge.hold().iter().all(|&b| b == 0));
    assert!(bridge.hold_color().iter().all(|&c| c == 0));
}

#[test]
fn piece_with_a_shape_that_is_no_square_is_not_well_formed() {
    let color = rgba(1.0, 1.0, 1.0, 1.0);
    assert!(tee(color).is_well_formed());
    let mut ragged = tee(color);
    ragged.shape[2].pop();
    assert!(!ragged.is_well_formed());
    let mut short = tee(color);
    short.shape.pop();
    assert!(!short.is_well_formed());
    let mut wrong_size = tee(color);
    wrong_size.size = 4;
    assert!(!wrong_size.is_well_formed());
    let nothing = Piece { size: 0, shape: Vec::new(), color };
    assert!(nothing.is_well_formed());
}

#[test]
fn piece_fits_in_a_cell_at_least_as_large() {
    let color = rgba(1.0, 1.0, 1.0, 1.0);
    assert!(tee(color).fits_in(3));
    assert!(tee(color).fits_in(4));
    assert!(!tee(color).fits_in(2));
    let mut ragged = tee(color);
    ragged.shape[0].push(true);
    assert!(!ragged.fits_in(4));
}

#[test]
fn queue_with_a_piece_too_large_for_a_slot_does_not_fit() {
    let color = rgba(1.0, 1.0, 1.0, 1.0);
    let queue = vec![Some(square(color)), None, Some(bar(color))];
    assert!(queue_fits_in(&queue, 3, 4));
    assert!(!queue_fits_in(&queue, 3, 3));
    // Only the first two slots are looked at.
    assert!(queue_fits_in(&queue, 2, 3));
    assert!(queue_fits_in(&queue, 0, 1));
    assert!(!queue_fits_in(&queue, 1, 1));
}
