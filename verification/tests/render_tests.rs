use font8x8::legacy::BASIC_LEGACY;
use pixel_shell::grid::new_grid;
use pixel_shell::render::{render_text_buffer, BG_COLOR, FG_COLOR};
use pixel_shell::{CAP, COLS, HEIGHT, WIDTH};

#[test]
fn frame_has_exact_surface_size() {
    let grid = new_grid();
    let frame = render_text_buffer(&grid);
    assert_eq!(frame.len(), WIDTH * HEIGHT);
}

#[test]
fn blank_grid_renders_all_background() {
    let grid = new_grid();
    let frame = render_text_buffer(&grid);
    assert!(frame.iter().all(|p| *p == BG_COLOR));
}

#[test]
fn glyph_pixels_match_bitmap_table() {
    let mut grid = new_grid();
    grid[0] = 'a';
    let frame = render_text_buffer(&grid);
    for line in 0..16 {
        let row_mask: u8 = BASIC_LEGACY['a' as usize][line / 2];
        for bit in 0..8 {
            let expected = if row_mask & (1 << bit) == 0 { BG_COLOR } else { FG_COLOR };
            assert_eq!(frame[line * WIDTH + bit * 2], expected);
            assert_eq!(frame[line * WIDTH + bit * 2 + 1], expected);
        }
    }
    // 'a' is not blank: some foreground pixel must appear in the cell
    assert!((0..16).any(|line| (0..16).any(|px| frame[line * WIDTH + px] == FG_COLOR)));
}

#[test]
fn glyph_cell_placement_matches_grid_position() {
    let mut grid = new_grid();
    let cell: usize = 3 * COLS + 17;
    grid[cell] = 'W';
    let frame = render_text_buffer(&grid);
    let y0: usize = (cell / COLS) * 16;
    let x0: usize = (cell % COLS) * 16;
    for line in 0..16 {
        let row_mask: u8 = BASIC_LEGACY['W' as usize][line / 2];
        for bit in 0..8 {
            let expected = if row_mask & (1 << bit) == 0 { BG_COLOR } else { FG_COLOR };
            assert_eq!(frame[(y0 + line) * WIDTH + x0 + bit * 2], expected);
            assert_eq!(frame[(y0 + line) * WIDTH + x0 + bit * 2 + 1], expected);
        }
    }
}

#[test]
fn high_code_renders_solid_background_block() {
    let mut grid = new_grid();
    let cell: usize = 7 * COLS + 42;
    grid[cell] = '\u{e9}';
    assert!(grid[cell] as u32 >= 128);
    let frame = render_text_buffer(&grid);
    let y0: usize = (cell / COLS) * 16;
    let x0: usize = (cell % COLS) * 16;
    for line in 0..16 {
        for px in 0..16 {
            assert_eq!(frame[(y0 + line) * WIDTH + x0 + px], BG_COLOR);
        }
    }
}

#[test]
fn rendering_twice_is_bit_identical() {
    let mut grid = new_grid();
    for (j, c) in "hello> _".chars().enumerate() {
        grid[j] = c;
    }
    grid[CAP - 1] = '\u{263a}';
    let first = render_text_buffer(&grid);
    let second = render_text_buffer(&grid);
    assert_eq!(first, second);
}
